use dclone_tracker::error::TrackerError;
use dclone_tracker::severity::{classify, notify, Notification, Urgency, APPLICATION_TAG};

#[test]
fn classify_maps_each_value() {
    assert_eq!(classify(1), Ok(("DClone is far away", Urgency::Low)));
    assert_eq!(classify(2), Ok(("DClone is nearing...", Urgency::Normal)));
    assert_eq!(classify(3), Ok(("DClone is nearing...", Urgency::Normal)));
    assert_eq!(classify(4), Ok(("DClone is nearing...", Urgency::Normal)));
    assert_eq!(classify(5), Ok(("DClone is about to walk!", Urgency::Critical)));
    assert_eq!(classify(6), Ok(("DClone is walking!", Urgency::Critical)));
}

#[test]
fn classify_rejects_values_out_of_range() {
    assert_eq!(classify(0), Err(TrackerError::InvalidProgressValue(0)));
    assert_eq!(classify(7), Err(TrackerError::InvalidProgressValue(7)));
    assert_eq!(classify(8), Err(TrackerError::InvalidProgressValue(8)));
    assert_eq!(classify(-1), Err(TrackerError::InvalidProgressValue(-1)));
    assert_eq!(classify(i32::MAX), Err(TrackerError::InvalidProgressValue(i32::MAX)));
    assert_eq!(classify(i32::MIN), Err(TrackerError::InvalidProgressValue(i32::MIN)));
}

#[test]
fn classify_is_total_on_one_to_six() {
    for value in -50..=50 {
        assert_eq!(classify(value).is_ok(), (1..=6).contains(&value), "{}", value);
    }
}

#[test]
fn notify_announces_a_new_status() {
    assert_eq!(
        notify("Americas", 0, 3),
        Ok(Notification {
            region_name: "Americas".to_string(),
            old_value: 0,
            new_value: 3,
            title: "Americas: DClone is nearing...".to_string(),
            urgency: Urgency::Normal,
            body: "New status: 3".to_string(),
        })
    );
}

#[test]
fn notify_announces_a_change() {
    assert_eq!(
        notify("Europe", 5, 6),
        Ok(Notification {
            region_name: "Europe".to_string(),
            old_value: 5,
            new_value: 6,
            title: "Europe: DClone is walking!".to_string(),
            urgency: Urgency::Critical,
            body: "Status changed from 5 to 6".to_string(),
        })
    );
    let back = notify("Asia", 6, 1).unwrap();
    assert_eq!(back.title, "Asia: DClone is far away");
    assert_eq!(back.urgency, Urgency::Low);
    assert_eq!(back.body, "Status changed from 6 to 1");
    let odd = notify("Asia", -12, 5).unwrap();
    assert_eq!(odd.title, "Asia: DClone is about to walk!");
    assert_eq!(odd.body, "Status changed from -12 to 5");
}

#[test]
fn notify_rejects_values_without_severity() {
    assert_eq!(notify("Americas", 3, 0), Err(TrackerError::InvalidProgressValue(0)));
    assert_eq!(notify("Americas", 0, 7), Err(TrackerError::InvalidProgressValue(7)));
    assert_eq!(notify("Americas", 0, -3), Err(TrackerError::InvalidProgressValue(-3)));
}

#[test]
fn error_messages() {
    assert_eq!(TrackerError::InvalidProgressValue(7).message(), "Unknown progress value: 7");
    assert_eq!(TrackerError::InvalidProgressValue(-2).message(), "Unknown progress value: -2");
    assert_eq!(TrackerError::UnrecognizedRegion.message(), "Unexpected region code");
    assert_eq!(TrackerError::MalformedProgress.message(), "Progress is not a valid integer");
    assert_eq!(TrackerError::NotificationFailed.message(), "Notification was not delivered");
}

#[test]
fn application_tag_is_fixed() {
    assert_eq!(APPLICATION_TAG, "annihilus");
}
