use decode_loop::Decoder;
use decode_loop::FrameDecoder;

#[test]
fn empty_buffer_needs_more() {
    let mut d = FrameDecoder::new();
    assert_eq!(d.try_decode(), Ok(None));
}

#[test]
fn supply_sizes_follow_the_header() {
    let mut d = FrameDecoder::new();
    assert_eq!(d.supply_buffer(), 1);
    d.fill_buffer(&[0x7e]);
    assert_eq!(d.supply_buffer(), 1);
    d.fill_buffer(&[5]);
    assert_eq!(d.supply_buffer(), 5);
}

#[test]
fn supply_buffer_is_restartable() {
    let mut d = FrameDecoder::new();
    assert_eq!(d.supply_buffer(), 1);
    assert_eq!(d.supply_buffer(), 1);
    d.fill_buffer(&[0x7e, 3]);
    assert_eq!(d.supply_buffer(), 3);
    assert_eq!(d.supply_buffer(), 3);
}

#[test]
fn whole_frame_in_one_fill() {
    let mut d = FrameDecoder::new();
    d.fill_buffer(&[0x7e, 2, 7, 9]);
    assert_eq!(d.try_decode(), Ok(Some(vec![7, 9])));
    // The buffer was emptied: the next frame starts from scratch.
    assert_eq!(d.supply_buffer(), 1);
    assert_eq!(d.try_decode(), Ok(None));
}

#[test]
fn empty_payload_frame() {
    let mut d = FrameDecoder::new();
    d.fill_buffer(&[0x7e, 0]);
    assert_eq!(d.try_decode(), Ok(Some(vec![])));
}

#[test]
fn bad_magic_reports_the_byte_found() {
    let mut d = FrameDecoder::new();
    d.fill_buffer(&[0x51]);
    match d.try_decode() {
        Err(e) => assert_eq!(e.found, 0x51),
        Ok(_) => panic!("expected a framing error"),
    }
}

#[test]
fn partial_frame_needs_more() {
    let mut d = FrameDecoder::new();
    d.fill_buffer(&[0x7e, 3, 1]);
    assert_eq!(d.try_decode(), Ok(None));
    d.fill_buffer(&[2, 3]);
    assert_eq!(d.try_decode(), Ok(Some(vec![1, 2, 3])));
}

#[test]
fn error_discards_buffer_for_resync() {
    let mut d = FrameDecoder::new();
    d.fill_buffer(&[0x42]);
    assert!(d.try_decode().is_err());
    d.fill_buffer(&[0x7e, 1, 9]);
    assert_eq!(d.try_decode(), Ok(Some(vec![9])));
}
