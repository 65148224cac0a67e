use wrover_cam::frame::FrameHandle;
use wrover_cam::ov3660::OV3660Config;
use wrover_cam::startup::{IpAddress, Startup};
use wrover_cam::decoder::{parse_part, Part};
use wrover_cam::encoder::{encode, envelope};

const BOUNDARY: &str = "123456789000000000000987654321";

fn frame(data: Vec<u8>) -> FrameHandle {
    let address = IpAddress { octets: [10, 0, 0, 7] };
    let online = Startup::new(OV3660Config::balanced()).link_result(Ok(address)).0;
    let mut source = online.sensor_result(0).1.expect("status 0 is success");
    source.acquire(Some(data)).expect("a frame was ready")
}

fn wire(data: Vec<u8>, boundary: &str) -> Vec<u8> {
    encode(&frame(data), boundary).into_bytes()
}

#[test]
fn header_is_delimiter_type_length_blank_line() {
    let chunk = encode(&frame(vec![1, 2, 3, 4, 5]), BOUNDARY);
    let expected: &[u8] = b"\r\n--123456789000000000000987654321\r\n\
        Content-Type: image/jpeg\r\n\
        Content-Length: 5\r\n\r\n";
    assert_eq!(chunk.header.as_slice(), expected);
    assert_eq!(chunk.payload, vec![1, 2, 3, 4, 5]);
}

#[test]
fn chunk_is_header_then_payload_and_nothing_more() {
    let bytes = wire(vec![0xff, 0xd8, 0x00, 0xff, 0xd9], "frame");
    let mut expected =
        b"\r\n--frame\r\nContent-Type: image/jpeg\r\nContent-Length: 5\r\n\r\n".to_vec();
    expected.extend_from_slice(&[0xff, 0xd8, 0x00, 0xff, 0xd9]);
    assert_eq!(bytes, expected);
}

#[test]
fn length_is_written_in_decimal() {
    let cases = [
        (0usize, "0"),
        (9, "9"),
        (10, "10"),
        (99, "99"),
        (100, "100"),
        (1234, "1234"),
        (65536, "65536"),
    ];
    for (length, digits) in cases {
        let chunk = encode(&frame(vec![0xab; length]), "b");
        let expected =
            format!("\r\n--b\r\nContent-Type: image/jpeg\r\nContent-Length: {}\r\n\r\n", digits);
        assert_eq!(chunk.header, expected.into_bytes());
        assert_eq!(chunk.payload.len(), length);
    }
}

#[test]
fn envelope_names_the_boundary() {
    assert_eq!(
        envelope(BOUNDARY.as_bytes()),
        b"multipart/x-mixed-replace; boundary=123456789000000000000987654321".to_vec()
    );
    assert_eq!(envelope(b""), b"multipart/x-mixed-replace; boundary=".to_vec());
}

#[test]
fn what_was_encoded_is_read_back() {
    let payloads: Vec<Vec<u8>> = vec![
        Vec::new(),
        vec![0],
        vec![13, 10, 13, 10],
        b"\r\n--frame\r\nContent-Type: image/jpeg\r\n".to_vec(),
        (0..=255u8).collect(),
        vec![0x5a; 10_000],
    ];
    for boundary in ["frame", BOUNDARY, "", "a b", "x\ry", "x\ny", "tail\r", "\n"] {
        for payload in &payloads {
            let part = parse_part(&wire(payload.clone(), boundary)).expect("a part reads back");
            assert_eq!(part.boundary, boundary.as_bytes());
            assert_eq!(part.content_length, payload.len());
            assert_eq!(&part.payload, payload);
        }
    }
}

#[test]
fn boundary_with_a_line_end_does_not_read_back() {
    let bytes = wire(vec![1, 2, 3], "top\r\nbottom");
    assert_eq!(parse_part(&bytes), None);
}

#[test]
fn reading_back_exact_values() {
    let bytes = b"\r\n--frame\r\nContent-Type: image/jpeg\r\nContent-Length: 3\r\n\r\nabc";
    assert_eq!(
        parse_part(bytes),
        Some(Part { boundary: b"frame".to_vec(), content_length: 3, payload: b"abc".to_vec() })
    );
}

#[test]
fn what_the_encoder_would_not_write_is_turned_down() {
    let rejected: [&[u8]; 14] = [
        b"",
        b"\r\n",
        b"--frame\r\nContent-Type: image/jpeg\r\nContent-Length: 3\r\n\r\nabc",
        b"\r\n--frame",
        b"\r\n--frame\r\nContent-Type: image/png\r\nContent-Length: 3\r\n\r\nabc",
        b"\r\n--frame\r\nContent-Length: 3\r\nContent-Type: image/jpeg\r\n\r\nabc",
        b"\r\n--frame\r\nContent-Type: image/jpeg\r\nContent-Length: 3\r\nabc",
        b"\r\n--frame\r\nContent-Type: image/jpeg\r\nContent-Length: 3\r\n\r\nab",
        b"\r\n--frame\r\nContent-Type: image/jpeg\r\nContent-Length: 3\r\n\r\nabcd",
        b"\r\n--frame\r\nContent-Type: image/jpeg\r\nContent-Length: 03\r\n\r\nabc",
        b"\r\n--frame\r\nContent-Type: image/jpeg\r\nContent-Length: \r\n\r\n",
        b"\r\n--frame\r\nContent-Type: image/jpeg\r\nContent-Length: +3\r\n\r\nabc",
        b"\r\n--frame\r\nContent-Type: image/jpeg\r\nContent-Length: 99999999999999999999\r\n\r\nabc",
        b"\r\n--frame\r\ncontent-type: image/jpeg\r\ncontent-length: 3\r\n\r\nabc",
    ];
    for bytes in rejected {
        assert_eq!(parse_part(bytes), None, "{:?}", bytes);
    }
}

#[test]
fn two_parts_in_a_row_are_not_one_part() {
    let mut bytes = wire(vec![1, 2], "frame");
    bytes.extend_from_slice(&wire(vec![3, 4], "frame"));
    assert_eq!(parse_part(&bytes), None);
}
