//! How serious a progress value is, and the notification that announces a
//! change of it.

use vstd::prelude::*;
use vstd::string::*;
use crate::decimal::{decimal_text, i32_to_string};
use crate::error::TrackerError;

verus! {

/// The tag under which notifications are handed to the sink.
pub const APPLICATION_TAG: &'static str = "annihilus";

/// How urgently a notification asks for attention.
#[derive(Clone, Copy, Debug, PartialEq, Eq, Structural)]
pub enum Urgency {
    Low,
    Normal,
    Critical,
}

/// A change of one region's progress, as it is handed to the notification
/// sink.
#[derive(Clone, Debug, PartialEq, Eq)]
pub struct Notification {
    pub region_name: String,
    pub old_value: i32,
    pub new_value: i32,
    pub title: String,
    pub urgency: Urgency,
    pub body: String,
}

/// What a notification says, as plain values.
pub struct NotificationView {
    pub region_name: Seq<char>,
    pub old_value: i32,
    pub new_value: i32,
    pub title: Seq<char>,
    pub urgency: Urgency,
    pub body: Seq<char>,
}

impl View for Notification {
    type V = NotificationView;

    open spec fn view(&self) -> NotificationView {
        NotificationView {
            region_name: self.region_name@,
            old_value: self.old_value,
            new_value: self.new_value,
            title: self.title@,
            urgency: self.urgency,
            body: self.body@,
        }
    }
}

/// The progress values that have a severity: 1 to 6.
pub open spec fn is_progress_value(value: int) -> bool {
    1 <= value <= 6
}

/// The title that goes with a progress value.
pub open spec fn severity_title(value: int) -> Seq<char> {
    if value == 1 {
        "DClone is far away"@
    } else if 2 <= value <= 4 {
        "DClone is nearing..."@
    } else if value == 5 {
        "DClone is about to walk!"@
    } else {
        "DClone is walking!"@
    }
}

/// The urgency that goes with a progress value.
pub open spec fn severity_urgency(value: int) -> Urgency {
    if value == 1 {
        Urgency::Low
    } else if 2 <= value <= 4 {
        Urgency::Normal
    } else {
        Urgency::Critical
    }
}

/// The body of the notification for a change from `old` to `new`. An old
/// value of 0 stands for a region that was not observed before.
pub open spec fn notification_body(old: int, new: int) -> Seq<char> {
    if old == 0 {
        "New status: "@ + decimal_text(new)
    } else {
        "Status changed from "@ + decimal_text(old) + " to "@ + decimal_text(new)
    }
}

/// The notification for a change of the named region from `old` to `new`.
pub open spec fn notification_for(region_name: Seq<char>, old: i32, new: i32) -> NotificationView {
    NotificationView {
        region_name,
        old_value: old,
        new_value: new,
        title: region_name + ": "@ + severity_title(new as int),
        urgency: severity_urgency(new as int),
        body: notification_body(old as int, new as int),
    }
}

/// Gives the title and the urgency of a progress value.
///
/// Every value from 1 to 6 has them; every other value is rejected as
/// `InvalidProgressValue`.
pub fn classify(value: i32) -> (severity: Result<(&'static str, Urgency), TrackerError>)
    ensures
        severity is Ok <==> is_progress_value(value as int),
        severity matches Ok((title, urgency)) ==> title@ == severity_title(value as int) && urgency
            == severity_urgency(value as int),
        severity matches Err(error) ==> error == TrackerError::InvalidProgressValue(value),
{
    if value == 1 {
        Ok(("DClone is far away", Urgency::Low))
    } else if 2 <= value && value <= 4 {
        Ok(("DClone is nearing...", Urgency::Normal))
    } else if value == 5 {
        Ok(("DClone is about to walk!", Urgency::Critical))
    } else if value == 6 {
        Ok(("DClone is walking!", Urgency::Critical))
    } else {
        Err(TrackerError::InvalidProgressValue(value))
    }
}

/// Composes the notification that announces a change of the named region
/// from `old` to `new`. Handing it to the sink is the caller's part.
///
/// Fails exactly when `new` has no severity, with `InvalidProgressValue`.
pub fn notify(region: &str, old: i32, new: i32) -> (notification: Result<
    Notification,
    TrackerError,
>)
    ensures
        notification is Ok <==> is_progress_value(new as int),
        notification matches Ok(n) ==> n@ == notification_for(region@, old, new),
        notification matches Err(error) ==> error == TrackerError::InvalidProgressValue(new),
{
    let (severity, urgency) = match classify(new) {
        Ok(pair) => pair,
        Err(error) => {
            return Err(error);
        },
    };
    let new_text = i32_to_string(new);
    let mut body: String;
    if old == 0 {
        body = String::from_str("New status: ");
    } else {
        body = String::from_str("Status changed from ");
        let old_text = i32_to_string(old);
        body.append(old_text.as_str());
        body.append(" to ");
    }
    body.append(new_text.as_str());
    let mut title = String::from_str(region);
    title.append(": ");
    title.append(severity);
    Ok(
        Notification {
            region_name: String::from_str(region),
            old_value: old,
            new_value: new,
            title,
            urgency,
            body,
        },
    )
}

} // verus!
