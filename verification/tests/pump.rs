use tochat::establish::Event;
use tochat::pump::{handle_net_event, inbound_line, outbound_payload};
use tochat::text::{clock_text, utf8_lossy};

#[test]
fn inbound_line_formats_name_clock_and_content() {
    let line = inbound_line(&b"hi,bob".to_vec(), 9, 5, 7);
    assert_eq!(line, "bob, 09:05:07\r\nhi");
}

#[test]
fn inbound_line_without_comma_keeps_whole_payload_as_content() {
    let line = inbound_line(&b"hello".to_vec(), 23, 59, 59);
    assert_eq!(line, ", 23:59:59\r\nhello");
}

#[test]
fn gossip_event_becomes_a_line_for_the_interface() {
    let e = Event::GossipMessageReceived(b"hi,bob".to_vec());
    let r = handle_net_event(&e, 12, 0, 1);
    assert_eq!(r, Some(String::from("bob, 12:00:01\r\nhi")));
}

#[test]
fn other_session_events_are_discarded_by_the_pump() {
    assert_eq!(handle_net_event(&Event::KeepAliveEvent, 0, 0, 0), None);
    assert_eq!(handle_net_event(&Event::PeerInfoSent, 0, 0, 0), None);
    assert_eq!(handle_net_event(&Event::ConnectionEstablished, 0, 0, 0), None);
}

#[test]
fn outbound_payload_is_the_line_bytes_unmodified() {
    assert_eq!(outbound_payload("hi,bob"), b"hi,bob".to_vec());
    assert_eq!(outbound_payload(""), Vec::<u8>::new());
}

#[test]
fn clock_text_is_zero_padded() {
    assert_eq!(clock_text(0, 0, 0), "00:00:00");
    assert_eq!(clock_text(23, 59, 59), "23:59:59");
    assert_eq!(clock_text(7, 30, 9), "07:30:09");
}

#[test]
fn lossy_decoding_keeps_valid_text_and_replaces_invalid_bytes() {
    assert_eq!(utf8_lossy(&"héllo".as_bytes().to_vec()), "héllo");
    let decoded = utf8_lossy(&vec![b'h', 0xFF, b'i']);
    assert_eq!(decoded, "h\u{FFFD}i");
}

#[test]
fn inbound_line_decodes_invalid_utf8_lossily_never_fatally() {
    let mut payload = vec![0xFF, 0xFE];
    payload.push(b',');
    payload.extend_from_slice(b"bob");
    let line = inbound_line(&payload, 1, 2, 3);
    assert_eq!(line, "bob, 01:02:03\r\n\u{FFFD}\u{FFFD}");
}

#[test]
fn wall_clock_reading_stays_in_calendar_ranges() {
    let (h, m, s) = tochat::text::local_clock_hms();
    assert!(h < 24);
    assert!(m < 60);
    assert!(s < 60);
}
