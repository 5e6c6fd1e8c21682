use ws_bridge::log::{Record, RECEIVER_NAME, SENDER_NAME, STAMP_PATTERN, SYSTEM_LABEL};
use ws_bridge::payload::Payload;
use ws_bridge::role::{Handle, Role};

#[test]
fn names_and_labels() {
    assert_eq!(SYSTEM_LABEL, "System");
    assert_eq!(SENDER_NAME, "Bluetooth sender");
    assert_eq!(RECEIVER_NAME, "PLCReceiver");
    assert_eq!(STAMP_PATTERN, "%Y-%m-%d %H:%M:%S");
}

#[test]
fn connected_and_closed_records() {
    let record = Record::connected("PLCReceiver");
    assert_eq!(record, Record { label: "System".to_string(), body: "PLCReceiver connected".to_string() });
    let record = Record::closed("Bluetooth sender");
    assert_eq!(record, Record { label: "System".to_string(), body: "Bluetooth sender closed".to_string() });
}

#[test]
fn said_record() {
    let record = Record::said("Bluetooth sender", "ON".to_string());
    assert_eq!(record, Record { label: "Bluetooth sender".to_string(), body: "ON".to_string() });
}

#[test]
fn line_has_stamp_and_label_in_brackets() {
    let record = Record::connected("Bluetooth sender");
    assert_eq!(
        record.line("2024-01-02 03:04:05"),
        "[2024-01-02 03:04:05 System] Bluetooth sender connected"
    );
    let record = Record::said("Bluetooth sender", "ON".to_string());
    assert_eq!(record.line("2024-01-02 03:04:05"), "[2024-01-02 03:04:05 Bluetooth sender] ON");
    let record = Record { label: String::new(), body: String::new() };
    assert_eq!(record.line(""), "[ ] ");
}

#[test]
fn line_now_is_stamped_with_date_and_time() {
    let record = Record::closed("PLCReceiver");
    let line = record.line_now();
    let tail = " System] PLCReceiver closed";
    assert!(line.starts_with('['));
    assert!(line.ends_with(tail));
    let stamp = &line[1..line.len() - tail.len()];
    assert_ne!(stamp, STAMP_PATTERN);
    assert!(!stamp.contains('%'));
    let bytes = stamp.as_bytes();
    assert_eq!(bytes.len(), 19);
    for (i, b) in bytes.iter().enumerate() {
        match i {
            4 | 7 => assert_eq!(*b, b'-'),
            10 => assert_eq!(*b, b' '),
            13 | 16 => assert_eq!(*b, b':'),
            _ => assert!(b.is_ascii_digit()),
        }
    }
    assert_eq!(line, record.line(stamp));
}

#[test]
fn role_handlers_log_open_and_close() {
    let sender = Role::Sender { out: Handle { conn: 1 } };
    assert_eq!(sender.on_open().unwrap().line("T"), "[T System] Bluetooth sender connected");
    assert_eq!(sender.on_close().unwrap().line("T"), "[T System] Bluetooth sender closed");
    assert_eq!(Role::Receiver.on_open().unwrap().line("T"), "[T System] PLCReceiver connected");
    assert_eq!(Role::Receiver.on_close().unwrap().line("T"), "[T System] PLCReceiver closed");
    assert_eq!(Role::NotFound.on_open(), None);
    assert_eq!(Role::NotFound.on_close(), None);
}

#[test]
fn text_payload_is_displayed_as_it_is() {
    assert_eq!(Payload::Text("ON".to_string()).display(), "ON");
    assert_eq!(Payload::Text(String::new()).display(), "");
    assert_eq!(Payload::Text("gr\u{fc}\u{df}e\r\n".to_string()).display(), "gr\u{fc}\u{df}e\r\n");
}

#[test]
fn binary_payload_is_displayed_as_ws_displays_it() {
    assert_eq!(Payload::Binary(vec![0, 1, 3, 4, 241]).display(), "Binary Data<length=5>");
    assert_eq!(Payload::Binary(vec![79, 78]).display(), "ON");
    assert_eq!(Payload::Binary(Vec::new()).display(), "");
    let data = vec![255u8; 12];
    assert_eq!(
        Payload::Binary(data.clone()).display(),
        ws::Message::Binary(data).to_string()
    );
}

#[test]
fn binary_payload_that_is_text_is_displayed_as_that_text() {
    assert_eq!(Payload::Binary(vec![0xC3, 0xA9]).display(), "\u{e9}");
    assert_eq!(Payload::Binary(vec![0xE2, 0x82, 0xAC, 0x31]).display(), "\u{20ac}1");
    assert_eq!(Payload::Binary(vec![0xF0, 0x9F, 0x98, 0x80]).display(), "\u{1f600}");
    assert_eq!(Payload::Binary(vec![0xF4, 0x8F, 0xBF, 0xBF]).display(), "\u{10ffff}");
    assert_eq!(Payload::Binary(vec![0]).display(), "\u{0}");
}

#[test]
fn binary_payload_that_is_no_text_is_displayed_by_its_length() {
    assert_eq!(Payload::Binary(vec![0xFF]).display(), "Binary Data<length=1>");
    assert_eq!(Payload::Binary(vec![0x80]).display(), "Binary Data<length=1>");
    assert_eq!(Payload::Binary(vec![0xC0, 0x80]).display(), "Binary Data<length=2>");
    assert_eq!(Payload::Binary(vec![0xC3]).display(), "Binary Data<length=1>");
    assert_eq!(Payload::Binary(vec![0xE0, 0x80, 0x80]).display(), "Binary Data<length=3>");
    assert_eq!(Payload::Binary(vec![0xED, 0xA0, 0x80]).display(), "Binary Data<length=3>");
    assert_eq!(Payload::Binary(vec![0xF4, 0x90, 0x80, 0x80]).display(), "Binary Data<length=4>");
    assert_eq!(Payload::Binary(vec![0xF0, 0x80, 0x80, 0x80]).display(), "Binary Data<length=4>");
    assert_eq!(Payload::Binary(vec![0x41, 0xFF, 0x42]).display(), "Binary Data<length=3>");
}

#[test]
fn length_of_a_binary_payload_is_written_in_decimal() {
    assert_eq!(Payload::Binary(vec![0xFF; 9]).display(), "Binary Data<length=9>");
    assert_eq!(Payload::Binary(vec![0xFF; 10]).display(), "Binary Data<length=10>");
    assert_eq!(Payload::Binary(vec![0xFF; 12]).display(), "Binary Data<length=12>");
    assert_eq!(Payload::Binary(vec![0xFF; 100]).display(), "Binary Data<length=100>");
    assert_eq!(Payload::Binary(vec![0xFF; 1005]).display(), "Binary Data<length=1005>");
    assert_eq!(Payload::Binary(vec![0xFF; 70000]).display(), "Binary Data<length=70000>");
}
