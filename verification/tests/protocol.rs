use x11_data_transfer::error::UriListParseError;
use x11_data_transfer::id::TransferIds;
use x11_data_transfer::protocol::{mkwid, ListenRequest, XPropertyEvent};

#[test]
fn listening_keeps_the_events_that_were_asked_for() {
    let request = ListenRequest::property_changes(5, 0b1011);
    assert_eq!(request.window, 5);
    assert_eq!(request.event_mask, 0x40_000b);
    let again = ListenRequest::property_changes(5, request.event_mask);
    assert_eq!(again, request);
    assert_eq!(ListenRequest::property_changes(5, u32::MAX).event_mask, u32::MAX);
}

#[test]
fn property_events_are_told_apart() {
    let event = |state| XPropertyEvent { window: 1, atom: 2, state };
    assert!(event(0).is_new_value());
    assert!(!event(0).is_delete());
    assert!(event(1).is_delete());
    assert!(!event(1).is_new_value());
    for state in [2, -1, i32::MIN, i32::MAX] {
        assert!(!event(state).is_new_value());
        assert!(!event(state).is_delete());
    }
}

#[test]
fn window_ids_are_the_numbers_of_the_windows() {
    assert_eq!(mkwid(0).raw, 0);
    assert_eq!(mkwid(u32::MAX).raw, 4_294_967_295);
}

#[test]
fn ids_are_counted_from_zero() {
    let mut ids = TransferIds::new();
    let raws: Vec<i64> = (0..4).map(|_| ids.generate_transfer_id().raw).collect();
    assert_eq!(raws, vec![0, 1, 2, 3]);
}

#[test]
fn errors_are_converted() {
    let invalid = std::str::from_utf8(&[0xff]).unwrap_err();
    assert!(matches!(UriListParseError::from(invalid), UriListParseError::InvalidUtf8(_)));
    let missing = std::io::Error::from(std::io::ErrorKind::NotFound);
    assert!(matches!(UriListParseError::from(missing), UriListParseError::UnresolvablePath(_)));
}
