//! One poll cycle: reading the records of an answer against the store, up to
//! the first record that needs the notification sink or fails.

use vstd::prelude::*;
use vstd::string::*;
use crate::error::TrackerError;
use crate::journal::{lemma_push_line, line_of, Level, LogLine, LogLineView};
use crate::progress::{Progress, ProgressView};
use crate::region::Region;
use crate::severity::classify;
use crate::status::Status;

verus! {

/// Where the reading of an answer halts.
#[derive(Clone, Copy, Debug, PartialEq, Eq, Structural)]
pub enum Halt {
    /// Every record was read, and none of them asks for anything more.
    End,
    /// The record at `index` reports a new `value` for `region`: its
    /// notification is due before the reading can go on behind it.
    Due { index: usize, region: Region, value: i32 },
    /// The record at `index` cannot be applied. The records behind it are
    /// not read in this cycle.
    Failed { index: usize, error: TrackerError },
}

/// Where a reading halts, with the index as a number.
pub enum HaltView {
    End,
    Due { index: nat, region: Region, value: i32 },
    Failed { index: nat, error: TrackerError },
}

impl View for Halt {
    type V = HaltView;

    open spec fn view(&self) -> HaltView {
        match *self {
            Halt::End => HaltView::End,
            Halt::Due { index, region, value } => HaltView::Due {
                index: index as nat,
                region,
                value,
            },
            Halt::Failed { index, error } => HaltView::Failed { index: index as nat, error },
        }
    }
}

/// What a reading of records came to: where it halted, and the log lines it
/// gave rise to.
#[derive(Clone, Debug, PartialEq, Eq)]
pub struct Scan {
    pub halt: Halt,
    pub log: Vec<LogLine>,
}

/// The result of a reading as plain values.
#[verifier::ext_equal]
pub struct ScanView {
    pub halt: HaltView,
    pub log: Seq<LogLineView>,
}

impl View for Scan {
    type V = ScanView;

    open spec fn view(&self) -> ScanView {
        ScanView { halt: self.halt@, log: self.log.deep_view() }
    }
}

/// What one record asks of a store: nothing (`Ok(None)`) if it repeats the
/// stored value of its region, the region and the new value if it reports a
/// change that has a severity, and an error if it cannot be read or its new
/// value has no severity.
pub open spec fn judge(status: Status, record: ProgressView) -> Result<
    Option<(Region, i32)>,
    TrackerError,
> {
    match record.reading() {
        Err(error) => Err(error),
        Ok((region, value)) => match status.pending_spec(region, value) {
            Ok(None) => Ok(None),
            Ok(Some(_)) => Ok(Some((region, value))),
            Err(error) => Err(error),
        },
    }
}

/// The warning for a record whose region code names no region.
pub open spec fn skip_warning(record: ProgressView) -> LogLineView {
    line_of(Level::Warn, "Unexpected region code: "@, record.region)
}

/// The error line for a record that cannot be applied.
pub open spec fn failure_line(record: ProgressView, error: TrackerError) -> LogLineView {
    match error {
        TrackerError::MalformedProgress => line_of(
            Level::Error,
            "Progress is not a valid integer: "@,
            record.progress,
        ),
        _ => line_of(Level::Error, error.message_spec(), Seq::empty()),
    }
}

/// Reads `records` from index `from` on against `status`.
///
/// A record that repeats the stored value of its region is passed over in
/// silence; one whose region code names no region is passed over with a
/// warning. The reading halts at the first record that reports a change
/// with a severity, or, with an error line, at the first record of a known
/// region whose progress is no integer or has no severity. Behind the last
/// record it halts at the end.
pub open spec fn scan(status: Status, records: Seq<ProgressView>, from: nat) -> ScanView
    decreases records.len() - from,
{
    if from >= records.len() {
        ScanView { halt: HaltView::End, log: Seq::empty() }
    } else {
        let record = records[from as int];
        match judge(status, record) {
            Ok(None) => scan(status, records, from + 1),
            Ok(Some((region, value))) => ScanView {
                halt: HaltView::Due { index: from, region, value },
                log: Seq::empty(),
            },
            Err(TrackerError::UnrecognizedRegion) => {
                let rest = scan(status, records, from + 1);
                ScanView { halt: rest.halt, log: seq![skip_warning(record)] + rest.log }
            },
            Err(error) => ScanView {
                halt: HaltView::Failed { index: from, error },
                log: seq![failure_line(record, error)],
            },
        }
    }
}

/// Whether the reading passes over a record and goes on behind it: the
/// record repeats what the store holds, or its region code names no region.
pub open spec fn passed_over(status: Status, record: ProgressView) -> bool {
    judge(status, record) matches Ok(None) || judge(status, record) == Err::<
        Option<(Region, i32)>,
        TrackerError,
    >(TrackerError::UnrecognizedRegion)
}

/// A reading halts at the first record that it does not pass over, with
/// what that record asks for, and at the end if it passes over them all.
pub proof fn lemma_scan_halts_at_first(status: Status, records: Seq<ProgressView>, from: nat)
    ensures
        match scan(status, records, from).halt {
            HaltView::End => forall|i: int|
                from <= i < records.len() ==> passed_over(status, #[trigger] records[i]),
            HaltView::Due { index, region, value } => {
                &&& from <= index < records.len()
                &&& judge(status, records[index as int]) == Ok::<Option<(Region, i32)>, TrackerError>(
                    Some((region, value)),
                )
                &&& forall|i: int| from <= i < index ==> passed_over(status, #[trigger] records[i])
            },
            HaltView::Failed { index, error } => {
                &&& from <= index < records.len()
                &&& judge(status, records[index as int]) == Err::<Option<(Region, i32)>, TrackerError>(
                    error,
                )
                &&& error != TrackerError::UnrecognizedRegion
                &&& forall|i: int| from <= i < index ==> passed_over(status, #[trigger] records[i])
            },
        },
    decreases records.len() - from,
{
    if from < records.len() {
        lemma_scan_halts_at_first(status, records, from + 1);
    }
}

/// Writes the error line for a record that cannot be applied.
fn failure(record: &Progress, error: TrackerError) -> (line: LogLine)
    ensures
        line@ == failure_line(record@, error),
{
    match error {
        TrackerError::MalformedProgress => LogLine::new(
            Level::Error,
            "Progress is not a valid integer: ",
            record.progress.as_str(),
        ),
        _ => {
            let text = error.message();
            proof {
                reveal_strlit("");
                assert(text@ + ""@ =~= text@ + Seq::<char>::empty());
            }
            LogLine::new(Level::Error, text.as_str(), "")
        },
    }
}

/// Reads the records of an answer from index `from` on against the store,
/// without changing the store, and says where the reading halts and what
/// there is to log. See `scan` for the rules.
pub fn scan_records(status: &Status, records: &Vec<Progress>, from: usize) -> (result: Scan)
    ensures
        result@ == scan(*status, records.deep_view(), from as nat),
{
    let ghost views = records.deep_view();
    let mut log: Vec<LogLine> = Vec::new();
    let mut i: usize = from;
    assert(log.deep_view() =~= Seq::<LogLineView>::empty());
    while i < records.len()
        invariant
            views == records.deep_view(),
            from <= i,
            scan(*status, views, from as nat).halt == scan(*status, views, i as nat).halt,
            scan(*status, views, from as nat).log =~= log.deep_view() + scan(
                *status,
                views,
                i as nat,
            ).log,
        decreases records.len() - i,
    {
        let record = &records[i];
        assert(views[i as int] == record@);
        match record.reading() {
            Err(TrackerError::UnrecognizedRegion) => {
                let line = LogLine::new(
                    Level::Warn,
                    "Unexpected region code: ",
                    record.region.as_str(),
                );
                let ghost before = log;
                log.push(line);
                proof {
                    lemma_push_line(before, log, line);
                }
            },
            Err(error) => {
                let ghost before = log;
                let line = failure(record, error);
                log.push(line);
                proof {
                    lemma_push_line(before, log, line);
                    assert(log.deep_view() =~= before.deep_view() + seq![line@]);
                }
                return Scan { halt: Halt::Failed { index: i, error }, log };
            },
            Ok((region, value)) => {
                if value != status.get(region) {
                    match classify(value) {
                        Ok(_) => {
                            return Scan { halt: Halt::Due { index: i, region, value }, log };
                        },
                        Err(error) => {
                            let ghost before = log;
                            let line = failure(record, error);
                            log.push(line);
                            proof {
                                lemma_push_line(before, log, line);
                                assert(log.deep_view() =~= before.deep_view() + seq![line@]);
                            }
                            return Scan { halt: Halt::Failed { index: i, error }, log };
                        },
                    }
                }
            },
        }
        i += 1;
    }
    Scan { halt: Halt::End, log }
}

} // verus!
