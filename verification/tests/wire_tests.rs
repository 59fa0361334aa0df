use repaint_loop::decode::decode;
use repaint_loop::shape::Shape;
use repaint_loop::timeline::RepaintLoop;
use repaint_loop::wire::take_frame;

fn frame_bytes(payload: &[u8]) -> Vec<u8> {
    let mut buf = (payload.len() as u32).to_le_bytes().to_vec();
    buf.extend_from_slice(payload);
    buf
}

#[test]
fn whole_frame_is_split_off() {
    let buf = frame_bytes(b"{\"category\":\"x\"}");
    let (payload, consumed) = take_frame(&buf).unwrap();
    assert_eq!(payload, b"{\"category\":\"x\"}".to_vec());
    assert_eq!(consumed, buf.len());
}

#[test]
fn empty_payload_is_a_frame() {
    let buf = frame_bytes(b"");
    let (payload, consumed) = take_frame(&buf).unwrap();
    assert!(payload.is_empty());
    assert_eq!(consumed, 4);
}

#[test]
fn short_prefix_is_not_a_frame() {
    assert_eq!(take_frame(&[]), None);
    assert_eq!(take_frame(&[3, 0, 0]), None);
}

#[test]
fn partial_payload_is_not_a_frame() {
    let mut buf = frame_bytes(b"abcdef");
    buf.truncate(7);
    assert_eq!(take_frame(&buf), None);
}

#[test]
fn trailing_bytes_are_left_in_place() {
    let mut buf = frame_bytes(b"ab");
    buf.extend_from_slice(&frame_bytes(b"cde"));
    let (payload, consumed) = take_frame(&buf).unwrap();
    assert_eq!(payload, b"ab".to_vec());
    assert_eq!(consumed, 6);
    let (payload2, consumed2) = take_frame(&buf[consumed..]).unwrap();
    assert_eq!(payload2, b"cde".to_vec());
    assert_eq!(consumed2, 7);
}

#[test]
fn corrupted_length_just_waits_for_more() {
    let buf = [255u8, 255, 255, 255, 1, 2, 3];
    assert_eq!(take_frame(&buf), None);
}

#[test]
fn frames_flow_from_bytes_to_shapes() {
    let mut rl = RepaintLoop::new();
    let mut buf = frame_bytes(
        br#"{"category":"repaint-loop","event":"start-frame","object":"DP-1","timestamp":1000}"#,
    );
    buf.extend_from_slice(&frame_bytes(br#"{"category":"pointer"}"#));
    let mut pos = 0;
    while let Some((payload, consumed)) = take_frame(&buf[pos..]) {
        pos += consumed;
        match decode(&payload) {
            Ok(Some(m)) => rl.handle_message(m),
            Ok(None) => {}
            Err(e) => panic!("unexpected decode error: {:?}", e),
        }
    }
    assert_eq!(pos, buf.len());
    assert_eq!(rl.pending_shapes, vec![Shape::FrameBoundary(1000, 0)]);
    assert_eq!(rl.outputs[0].name, "\"DP-1\"");
}
