//! What can keep a record from being applied.

use vstd::prelude::*;
use vstd::string::*;
use crate::decimal::{decimal_text, i32_to_string};

verus! {

/// Why a record was not applied to the store.
#[derive(Clone, Copy, Debug, PartialEq, Eq, Structural)]
pub enum TrackerError {
    /// The region code is none of `"1"`, `"2"`, `"3"`. The record is passed
    /// over and the records after it are still read.
    UnrecognizedRegion,
    /// The progress text denotes no `i32`.
    MalformedProgress,
    /// The progress value is outside 1 to 6, so it has no severity.
    InvalidProgressValue(i32),
    /// The notification sink did not accept the notification.
    NotificationFailed,
}

impl TrackerError {
    /// The text that describes an error.
    pub open spec fn message_spec(self) -> Seq<char> {
        match self {
            TrackerError::UnrecognizedRegion => "Unexpected region code"@,
            TrackerError::MalformedProgress => "Progress is not a valid integer"@,
            TrackerError::InvalidProgressValue(value) => "Unknown progress value: "@ + decimal_text(
                value as int,
            ),
            TrackerError::NotificationFailed => "Notification was not delivered"@,
        }
    }

    /// Describes the error in words, for a log.
    pub fn message(&self) -> (text: String)
        ensures
            text@ == self.message_spec(),
    {
        match self {
            TrackerError::UnrecognizedRegion => String::from_str("Unexpected region code"),
            TrackerError::MalformedProgress => String::from_str("Progress is not a valid integer"),
            TrackerError::InvalidProgressValue(value) => {
                let mut text = String::from_str("Unknown progress value: ");
                let number = i32_to_string(*value);
                text.append(number.as_str());
                text
            },
            TrackerError::NotificationFailed => String::from_str("Notification was not delivered"),
        }
    }
}

} // verus!
