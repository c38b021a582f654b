//! The records that the status endpoint answers with.

use vstd::prelude::*;
use vstd::string::*;
use crate::decimal::{i32_value, parse_i32};
use crate::error::TrackerError;
use crate::region::{display_name, display_name_spec, Region};

verus! {

/// One record of the endpoint's answer: a region code and the progress of
/// that region, both as text.
#[derive(Clone, Debug, PartialEq, Eq)]
pub struct Progress {
    pub progress: String,
    pub region: String,
}

/// A record as plain values.
pub struct ProgressView {
    pub progress: Seq<char>,
    pub region: Seq<char>,
}

impl View for Progress {
    type V = ProgressView;

    open spec fn view(&self) -> ProgressView {
        ProgressView { progress: self.progress@, region: self.region@ }
    }
}

impl DeepView for Progress {
    type V = ProgressView;

    open spec fn deep_view(&self) -> ProgressView {
        self@
    }
}

impl ProgressView {
    /// The region and the value that a record reports.
    ///
    /// The region code is read first: a record whose code names no region is
    /// `UnrecognizedRegion`, whatever its progress text holds. A record of a
    /// known region whose progress text denotes no `i32` is
    /// `MalformedProgress`. The value is not held to any range here.
    pub open spec fn reading(self) -> Result<(Region, i32), TrackerError> {
        match Region::of_code(self.region) {
            None => Err(TrackerError::UnrecognizedRegion),
            Some(region) => match i32_value(self.progress) {
                None => Err(TrackerError::MalformedProgress),
                Some(value) => Ok((region, value)),
            },
        }
    }

    /// The line that describes a record.
    pub open spec fn describe(self) -> Seq<char> {
        "Progress for "@ + display_name_spec(self.region) + ": "@ + self.progress + "/6"@
    }
}

impl Progress {
    /// A record of the given region code and progress text.
    pub fn new(region: &str, progress: &str) -> (record: Progress)
        ensures
            record@ == (ProgressView { progress: progress@, region: region@ }),
    {
        Progress { progress: String::from_str(progress), region: String::from_str(region) }
    }

    /// The progress value of the record, if its text denotes an `i32`.
    pub fn value(&self) -> (value: Result<i32, TrackerError>)
        ensures
            value == match i32_value(self.progress@) {
                Some(v) => Ok::<i32, TrackerError>(v),
                None => Err(TrackerError::MalformedProgress),
            },
    {
        match parse_i32(self.progress.as_str()) {
            Some(value) => Ok(value),
            None => Err(TrackerError::MalformedProgress),
        }
    }

    /// Reads the record: which region it is about, and which value it reports.
    pub fn reading(&self) -> (reading: Result<(Region, i32), TrackerError>)
        ensures
            reading == self@.reading(),
    {
        match Region::from_code(self.region.as_str()) {
            None => Err(TrackerError::UnrecognizedRegion),
            Some(region) => match self.value() {
                Ok(value) => Ok((region, value)),
                Err(error) => Err(error),
            },
        }
    }

    /// Describes the record in one line: the name of its region, `Unknown`
    /// for a code that names none, and its progress text out of 6.
    pub fn describe(&self) -> (line: String)
        ensures
            line@ == self@.describe(),
    {
        let mut line = String::from_str("Progress for ");
        line.append(display_name(self.region.as_str()));
        line.append(": ");
        line.append(self.progress.as_str());
        line.append("/6");
        line
    }
}

/// Describes every record of an answer, one line each and in the answer's
/// order, without reading any value or touching a store.
pub fn describe_all(records: &Vec<Progress>) -> (lines: Vec<String>)
    ensures
        lines.len() == records.len(),
        forall|i: int| 0 <= i < records.len() ==> (#[trigger] lines[i])@ == records[i]@.describe(),
{
    let mut lines: Vec<String> = Vec::new();
    let mut i: usize = 0;
    while i < records.len()
        invariant
            i <= records.len(),
            lines.len() == i,
            forall|j: int| 0 <= j < i ==> (#[trigger] lines[j])@ == records[j]@.describe(),
        decreases records.len() - i,
    {
        lines.push(records[i].describe());
        i += 1;
    }
    lines
}

} // verus!
