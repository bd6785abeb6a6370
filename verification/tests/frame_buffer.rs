use companies_house::frame::FrameBuffer;

#[test]
fn empty_buffer_has_no_line() {
    let mut buffer = FrameBuffer::new();
    assert!(buffer.is_empty());
    assert_eq!(buffer.len(), 0);
    assert!(buffer.take_line().is_none());
}

#[test]
fn take_line_returns_the_line_with_its_newline() {
    let mut buffer = FrameBuffer::new();
    buffer.append(b"hello\nworld");
    assert_eq!(buffer.take_line(), Some(b"hello\n".to_vec()));
    // the remainder is a partial line and stays put
    assert!(buffer.take_line().is_none());
    assert_eq!(buffer.len(), 5);
}

#[test]
fn lines_come_out_in_order_across_appends() {
    let mut buffer = FrameBuffer::new();
    buffer.append(b"one\ntw");
    assert_eq!(buffer.take_line(), Some(b"one\n".to_vec()));
    assert!(buffer.take_line().is_none());
    buffer.append(b"o\nthree\n");
    assert_eq!(buffer.take_line(), Some(b"two\n".to_vec()));
    assert_eq!(buffer.take_line(), Some(b"three\n".to_vec()));
    assert!(buffer.take_line().is_none());
    assert!(buffer.is_empty());
}

#[test]
fn empty_lines_are_still_framed() {
    let mut buffer = FrameBuffer::new();
    buffer.append(b"\n\nx\n");
    assert_eq!(buffer.take_line(), Some(b"\n".to_vec()));
    assert_eq!(buffer.take_line(), Some(b"\n".to_vec()));
    assert_eq!(buffer.take_line(), Some(b"x\n".to_vec()));
    assert!(buffer.take_line().is_none());
}
