//! The store of the last known progress of each region.

use vstd::prelude::*;
use crate::error::TrackerError;
use crate::region::Region;
use crate::severity::{is_progress_value, notification_for, notify, Notification, NotificationView};

verus! {

/// What the notification sink did with a notification.
#[derive(Clone, Copy, Debug, PartialEq, Eq, Structural)]
pub enum Delivery {
    /// The sink accepted it.
    Delivered,
    /// The sink failed or could not be reached.
    Failed,
}

/// The last progress value that was applied for each region. 0 stands for a
/// region that was not observed yet.
#[derive(Clone, Copy, Debug, PartialEq, Eq, Structural)]
pub struct Status {
    pub americas: i32,
    pub europe: i32,
    pub asia: i32,
}

impl Default for Status {
    /// The store before anything was observed.
    fn default() -> (status: Status)
        ensures
            status == Status::fresh(),
    {
        Status { americas: 0, europe: 0, asia: 0 }
    }
}

/// What is due for a reading, as plain values.
pub open spec fn due_view(due: Result<Option<Notification>, TrackerError>) -> Result<
    Option<NotificationView>,
    TrackerError,
> {
    match due {
        Ok(Some(notification)) => Ok(Some(notification@)),
        Ok(None) => Ok(None),
        Err(error) => Err(error),
    }
}

impl Status {
    /// The store before anything was observed: 0 for every region.
    pub open spec fn fresh() -> Status {
        Status { americas: 0, europe: 0, asia: 0 }
    }

    /// The value stored for a region.
    pub open spec fn value_of(self, region: Region) -> i32 {
        match region {
            Region::Americas => self.americas,
            Region::Europe => self.europe,
            Region::Asia => self.asia,
        }
    }

    /// The store with `value` for `region` and the other regions as they are.
    pub open spec fn with_value(self, region: Region, value: i32) -> Status {
        match region {
            Region::Americas => Status { americas: value, ..self },
            Region::Europe => Status { europe: value, ..self },
            Region::Asia => Status { asia: value, ..self },
        }
    }

    /// What a reading of `new` for `region` calls for before it may be stored:
    /// nothing if it repeats the stored value, else the notification of the
    /// change, or an error if `new` has no severity.
    pub open spec fn pending_spec(self, region: Region, new: i32) -> Result<
        Option<NotificationView>,
        TrackerError,
    > {
        if new == self.value_of(region) {
            Ok(None)
        } else if is_progress_value(new as int) {
            Ok(Some(notification_for(region.name_spec(), self.value_of(region), new)))
        } else {
            Err(TrackerError::InvalidProgressValue(new))
        }
    }

    /// The store after a reading of `new` for `region` whose notification, if
    /// it called for one, met with `delivery`.
    pub open spec fn after_update(self, region: Region, new: i32, delivery: Delivery) -> Status {
        if self.update_result(region, new, delivery) matches Ok(true) {
            self.with_value(region, new)
        } else {
            self
        }
    }

    /// What an update reports: whether the stored value changed, or why the
    /// reading was not applied.
    pub open spec fn update_result(self, region: Region, new: i32, delivery: Delivery) -> Result<
        bool,
        TrackerError,
    > {
        if new == self.value_of(region) {
            Ok(false)
        } else if !is_progress_value(new as int) {
            Err(TrackerError::InvalidProgressValue(new))
        } else if delivery == Delivery::Failed {
            Err(TrackerError::NotificationFailed)
        } else {
            Ok(true)
        }
    }

    /// Reads the value stored for a region.
    pub fn get(&self, region: Region) -> (value: i32)
        ensures
            value == self.value_of(region),
    {
        match region {
            Region::Americas => self.americas,
            Region::Europe => self.europe,
            Region::Asia => self.asia,
        }
    }

    /// Decides what a reading calls for, without changing the store.
    ///
    /// `Ok(None)` if `new` is the stored value of `region`; otherwise the one
    /// notification that has to reach the sink before `new` is stored, or
    /// `InvalidProgressValue` if `new` is outside 1 to 6.
    pub fn pending(&self, region: Region, new: i32) -> (due: Result<
        Option<Notification>,
        TrackerError,
    >)
        ensures
            due_view(due) == self.pending_spec(region, new),
    {
        let old = self.get(region);
        if new == old {
            return Ok(None);
        }
        match notify(region.name(), old, new) {
            Ok(notification) => Ok(Some(notification)),
            Err(error) => Err(error),
        }
    }

    /// Applies a reading of `new` for `region`, given what became of the
    /// notification that the reading called for.
    ///
    /// A reading that repeats the stored value changes nothing and reports
    /// `Ok(false)`, whatever `delivery` is. A new value is stored, and
    /// `Ok(true)` reported, only if it has a severity and its notification
    /// was delivered; otherwise the store stays as it is and the error says
    /// which of the two failed.
    pub fn update(&mut self, region: Region, new: i32, delivery: Delivery) -> (changed: Result<
        bool,
        TrackerError,
    >)
        ensures
            changed == old(self).update_result(region, new, delivery),
            *final(self) == old(self).after_update(region, new, delivery),
    {
        if new == self.get(region) {
            return Ok(false);
        }
        if new < 1 || new > 6 {
            return Err(TrackerError::InvalidProgressValue(new));
        }
        match delivery {
            Delivery::Failed => Err(TrackerError::NotificationFailed),
            Delivery::Delivered => {
                match region {
                    Region::Americas => {
                        self.americas = new;
                    },
                    Region::Europe => {
                        self.europe = new;
                    },
                    Region::Asia => {
                        self.asia = new;
                    },
                }
                Ok(true)
            },
        }
    }

    /// Applies a reading for the Americas: `update` for that region.
    pub fn update_americas(&mut self, new: i32, delivery: Delivery) -> (changed: Result<
        bool,
        TrackerError,
    >)
        ensures
            changed == old(self).update_result(Region::Americas, new, delivery),
            *final(self) == old(self).after_update(Region::Americas, new, delivery),
    {
        self.update(Region::Americas, new, delivery)
    }

    /// Applies a reading for Europe: `update` for that region.
    pub fn update_europe(&mut self, new: i32, delivery: Delivery) -> (changed: Result<
        bool,
        TrackerError,
    >)
        ensures
            changed == old(self).update_result(Region::Europe, new, delivery),
            *final(self) == old(self).after_update(Region::Europe, new, delivery),
    {
        self.update(Region::Europe, new, delivery)
    }

    /// Applies a reading for Asia: `update` for that region.
    pub fn update_asia(&mut self, new: i32, delivery: Delivery) -> (changed: Result<
        bool,
        TrackerError,
    >)
        ensures
            changed == old(self).update_result(Region::Asia, new, delivery),
            *final(self) == old(self).after_update(Region::Asia, new, delivery),
    {
        self.update(Region::Asia, new, delivery)
    }
}

/// Two different values from 1 to 6, applied one after the other to a region
/// that was not observed before, each call for exactly one notification, the
/// first as a new status and the second as a change from the first, and
/// leave the second value in the store, with the other regions untouched.
pub proof fn lemma_each_change_notifies_once(region: Region, first: i32, second: i32)
    requires
        is_progress_value(first as int),
        is_progress_value(second as int),
        first != second,
    ensures
        ({
            let start = Status::fresh();
            let middle = start.after_update(region, first, Delivery::Delivered);
            let end = middle.after_update(region, second, Delivery::Delivered);
            &&& start.pending_spec(region, first) matches Ok(Some(n)) && n == notification_for(
                region.name_spec(),
                0,
                first,
            )
            &&& start.update_result(region, first, Delivery::Delivered) matches Ok(true)
            &&& middle.pending_spec(region, second) matches Ok(Some(n)) && n == notification_for(
                region.name_spec(),
                first,
                second,
            )
            &&& middle.update_result(region, second, Delivery::Delivered) matches Ok(true)
            &&& end == Status::fresh().with_value(region, second)
            &&& end.value_of(region) == second
        }),
{
}

/// A reading whose notification was delivered calls for none when it comes
/// again: no value is due a notification right after it was applied, and a
/// value from 1 to 6 then finds the store holding it and changes nothing,
/// whatever the sink would do.
pub proof fn lemma_repeated_reading_is_silent(
    status: Status,
    region: Region,
    value: i32,
    again: Delivery,
)
    ensures
        ({
            let applied = status.after_update(region, value, Delivery::Delivered);
            &&& !(applied.pending_spec(region, value) matches Ok(Some(_)))
            &&& is_progress_value(value as int) ==> {
                &&& applied.value_of(region) == value
                &&& applied.pending_spec(region, value) matches Ok(None)
                &&& applied.update_result(region, value, again) matches Ok(false)
                &&& applied.after_update(region, value, again) == applied
            }
        }),
{
}

/// A reading changes at most the region it is for.
pub proof fn lemma_update_keeps_other_regions(
    status: Status,
    region: Region,
    value: i32,
    delivery: Delivery,
    other: Region,
)
    requires
        other != region,
    ensures
        status.after_update(region, value, delivery).value_of(other) == status.value_of(other),
{
}

} // verus!
