use bytes::BytesMut;
use motor_control::command::ArduinoCommand;
use motor_control::wire::{
    encode_command, frame_line, split_event, take_line, LineCodec, Reading, ReadingKind, Undecodable,
};

#[test]
fn decode_takes_the_first_line_with_its_line_feed() {
    let mut src = BytesMut::from(&b"B:12.5,300\nT:21"[..]);
    let line = LineCodec.decode(&mut src);
    assert_eq!(line, Some(BytesMut::from(&b"B:12.5,300\n"[..])));
    assert_eq!(&src[..], b"T:21");
    assert_eq!(LineCodec.decode(&mut src), None);
    assert_eq!(&src[..], b"T:21");
}

#[test]
fn decode_takes_one_line_at_a_time() {
    let mut src = BytesMut::from(&b"\n\nx\n"[..]);
    assert_eq!(LineCodec.decode(&mut src), Some(BytesMut::from(&b"\n"[..])));
    assert_eq!(LineCodec.decode(&mut src), Some(BytesMut::from(&b"\n"[..])));
    assert_eq!(LineCodec.decode(&mut src), Some(BytesMut::from(&b"x\n"[..])));
    assert_eq!(LineCodec.decode(&mut src), None);
    assert!(src.is_empty());
}

#[test]
fn decode_of_an_empty_buffer() {
    let mut src = BytesMut::new();
    assert_eq!(LineCodec.decode(&mut src), None);
    assert!(src.is_empty());
}

#[test]
fn take_line_strips_the_line_end() {
    let mut rd = BytesMut::from(&b"{\"motor\":1}\r\nrest"[..]);
    assert_eq!(take_line(&mut rd), Some(BytesMut::from(&b"{\"motor\":1}"[..])));
    assert_eq!(&rd[..], b"rest");
    assert_eq!(take_line(&mut rd), None);
    assert_eq!(&rd[..], b"rest");
}

#[test]
fn take_line_wants_the_pair() {
    let mut rd = BytesMut::from(&b"a\rb\nc\n\rd\r\n\r\n"[..]);
    assert_eq!(take_line(&mut rd), Some(BytesMut::from(&b"a\rb\nc\n\rd"[..])));
    assert_eq!(take_line(&mut rd), Some(BytesMut::new()));
    assert_eq!(take_line(&mut rd), None);
    assert!(rd.is_empty());
}

#[test]
fn take_line_of_short_buffers() {
    let mut rd = BytesMut::new();
    assert_eq!(take_line(&mut rd), None);
    let mut rd = BytesMut::from(&b"\r"[..]);
    assert_eq!(take_line(&mut rd), None);
    assert_eq!(&rd[..], b"\r");
    let mut rd = BytesMut::from(&b"\r\n"[..]);
    assert_eq!(take_line(&mut rd), Some(BytesMut::new()));
    assert!(rd.is_empty());
}

#[test]
fn take_line_of_a_long_buffer() {
    let mut text = vec![b'x'; 5000];
    text.extend_from_slice(b"\r\ny");
    let mut rd = BytesMut::from(text);
    let line = take_line(&mut rd).unwrap();
    assert_eq!(line.len(), 5000);
    assert_eq!(&rd[..], b"y");
}

#[test]
fn command_for_the_co_processor() {
    assert_eq!(&encode_command(ArduinoCommand::Off)[..], b"S90\n");
}

#[test]
fn framed_line_ends_in_carriage_return_and_line_feed() {
    assert_eq!(&frame_line(b"{\"time\":5}")[..], b"{\"time\":5}\r\n");
    assert_eq!(&frame_line(b"")[..], b"\r\n");
    let mut rd = frame_line(b"abc");
    assert_eq!(take_line(&mut rd), Some(BytesMut::from(&b"abc"[..])));
}

fn reading(kind: ReadingKind, first: &[u8], second: &[u8]) -> Result<Reading, Undecodable> {
    Ok(Reading {
        kind,
        first: first.to_vec(),
        second: second.to_vec(),
    })
}

#[test]
fn battery_reading() {
    assert_eq!(
        split_event(b"B:12.5,300"),
        reading(ReadingKind::Battery, b"12.5", b"300")
    );
}

#[test]
fn temperature_reading() {
    assert_eq!(
        split_event(b"T:21.25,-3"),
        reading(ReadingKind::Temp, b"21.25", b"-3")
    );
}

#[test]
fn fields_are_returned_as_they_stand() {
    assert_eq!(split_event(b"B:,"), reading(ReadingKind::Battery, b"", b""));
    assert_eq!(
        split_event(b"T: 1 ,x y"),
        reading(ReadingKind::Temp, b" 1 ", b"x y")
    );
    assert_eq!(
        split_event(b"B:B,T"),
        reading(ReadingKind::Battery, b"B", b"T")
    );
}

#[test]
fn unknown_readings() {
    for text in [
        &b""[..],
        b"B",
        b"B:",
        b"X:1,2",
        b"b:1,2",
        b":1,2",
        b"BB:1,2",
        b"B1,2",
        b"B:1,2:3",
        b"B::1,2",
        b"T:1:2",
        b"E:7,8",
    ] {
        let expected = if text == b"B:" {
            Err(Undecodable::Battery)
        } else {
            Err(Undecodable::Event)
        };
        assert_eq!(split_event(text), expected, "{:?}", text);
    }
}

#[test]
fn readings_without_a_pair_of_fields() {
    for rest in [&b""[..], b"1", b"1.5", b"1,2,3", b",,", b"1,2,"] {
        let mut battery = b"B:".to_vec();
        battery.extend_from_slice(rest);
        assert_eq!(split_event(&battery), Err(Undecodable::Battery));
        let mut temp = b"T:".to_vec();
        temp.extend_from_slice(rest);
        assert_eq!(split_event(&temp), Err(Undecodable::Temp));
    }
}
