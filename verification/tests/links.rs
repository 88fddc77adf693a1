use bittide::links::{decode_burst, LinkActivity, BURST, NO_MESSAGE_LIMIT};
use bittide::message::BittideMessage;

#[test]
fn limits() {
    assert_eq!(BURST, 4);
    assert_eq!(NO_MESSAGE_LIMIT, 3);
}

#[test]
fn decode_burst_keeps_order_and_retags() {
    let words = [0x2a6, 1, 0x10, 0xffff_ffff];
    let burst = decode_burst(&words, 3);
    assert_eq!(burst.len(), 4);
    assert_eq!(burst[0], BittideMessage::CommMessage { neighbor: 3, data: 0x2a });
    assert_eq!(burst[1], BittideMessage::SyncMessage);
    assert_eq!(burst[2], BittideMessage::CommMessage { neighbor: 3, data: 1 });
    assert_eq!(burst[3], BittideMessage::CommMessage { neighbor: 3, data: 0x0fff_ffff });
}

#[test]
fn decode_burst_of_nothing_is_empty() {
    assert!(decode_burst(&[], 0).is_empty());
}

#[test]
fn links_start_inactive() {
    let activity = LinkActivity::<4>::new();
    assert_eq!(activity.active_fifos(), [false, false, false, false]);
}

#[test]
fn a_message_activates_and_three_silent_ticks_deactivate() {
    let mut activity = LinkActivity::<4>::new();
    activity.record(1, 2);
    assert_eq!(activity.active_fifos(), [false, true, false, false]);
    activity.record(1, 0);
    assert_eq!(activity.active_fifos(), [false, true, false, false]);
    activity.record(1, 0);
    assert_eq!(activity.active_fifos(), [false, true, false, false]);
    activity.record(1, 0);
    assert_eq!(activity.active_fifos(), [false, false, false, false]);
    activity.record(1, 0);
    assert_eq!(activity.active_fifos(), [false, false, false, false]);
    activity.record(1, 1);
    assert_eq!(activity.active_fifos(), [false, true, false, false]);
}

#[test]
fn links_are_tracked_apart() {
    let mut activity = LinkActivity::<3>::new();
    activity.record(0, 1);
    activity.record(2, 4);
    for _ in 0..3 {
        activity.record(0, 0);
        activity.record(2, 1);
    }
    assert_eq!(activity.active_fifos(), [false, false, true]);
}

#[test]
fn read_link_decodes_and_records() {
    let mut activity = LinkActivity::<4>::new();
    let burst = activity.read_link(2, &[0x2a6, 1]);
    assert_eq!(burst.len(), 2);
    assert_eq!(burst[0], BittideMessage::CommMessage { neighbor: 2, data: 0x2a });
    assert_eq!(burst[1], BittideMessage::SyncMessage);
    assert_eq!(activity.active_fifos(), [false, false, true, false]);
    for _ in 0..2 {
        assert!(activity.read_link(2, &[]).is_empty());
    }
    assert_eq!(activity.active_fifos(), [false, false, true, false]);
    assert!(activity.read_link(2, &[]).is_empty());
    assert_eq!(activity.active_fifos(), [false; 4]);
}
