use sos_client::sos_constants::{MSG_KEY, MSG_MOUSE, MSG_SHUTDOWN};
use sos_client::sos_input::{
    dispatch, dispatch_key, encode_input, read_input, InputEvent, KeyAction, KeyEvent, MouseStats,
    RateTracker, SECOND,
};

#[test]
fn input_messages_are_dispatched() {
    assert_eq!(dispatch(MSG_MOUSE, &[1]), (true, InputEvent::Mouse(vec![1])));
    assert_eq!(dispatch(MSG_KEY, &[2]), (true, InputEvent::Key(vec![2])));
    assert_eq!(dispatch(MSG_SHUTDOWN, &[3]), (false, InputEvent::Shutdown));
    assert_eq!(dispatch(77, &[4]), (true, InputEvent::Unknown(77)));
}

#[test]
fn input_is_read_as_it_was_encoded() {
    let data = encode_input(MSG_MOUSE, &[10, 20, 30]);
    assert_eq!(data, vec![1, 0, 0, 0, 10, 20, 30]);
    assert_eq!(
        read_input(&data),
        Some((true, InputEvent::Mouse(vec![10, 20, 30])))
    );
    let data = encode_input(MSG_SHUTDOWN, &[0]);
    assert_eq!(read_input(&data), Some((false, InputEvent::Shutdown)));
}

#[test]
fn short_input_is_passed_over() {
    assert_eq!(read_input(&encode_input(MSG_KEY, &[])), None);
    assert_eq!(read_input(&[1, 0, 0, 0]), None);
    assert_eq!(read_input(&[]), None);
}

#[test]
fn keys_with_characters_go_through_the_layout() {
    let key = |chr, down| dispatch_key(Some(KeyEvent { chr, down }));
    assert_eq!(key(Some(97), true), KeyAction::LayoutDown('a'));
    assert_eq!(key(Some(0x5BC6), false), KeyAction::LayoutUp('密'));
    assert_eq!(key(Some(0xD800), true), KeyAction::Ignore);
    assert_eq!(key(Some(0x110000), true), KeyAction::Ignore);
    assert_eq!(key(None, true), KeyAction::Handle);
    assert_eq!(dispatch_key(None), KeyAction::Ignore);
}

#[test]
fn rates_are_reported_once_a_second() {
    let mut t = RateTracker::new(100);
    assert_eq!(t.tick(100 + SECOND - 1), None);
    assert_eq!(t.tick(100 + SECOND), Some((2, SECOND)));
    assert_eq!(t.tick(100 + SECOND + 1), None);
    assert_eq!(t.count, 1);
    assert_eq!(t.last_log, 100 + SECOND);
}

#[test]
fn mouse_costs_are_averaged() {
    let mut s = MouseStats::new();
    for i in 1..100u64 {
        assert_eq!(s.record(i, 3), None);
    }
    assert_eq!(s.record(100, 3), Some((100, 50, 3)));
}
