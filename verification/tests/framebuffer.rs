use disco_display::framebuffer::Framebuffer;

#[test]
fn new_buffer_is_zeroed_and_sized() {
    let buffer = Framebuffer::new(480, 272);
    assert_eq!(buffer.stride(), 480);
    assert_eq!(buffer.rows(), 272);
    assert_eq!(buffer.as_slice().len(), 130_560);
    assert!(buffer.as_slice().iter().all(|word| *word == 0));
}

#[test]
fn small_and_empty_buffers() {
    let buffer = Framebuffer::new(3, 2);
    assert_eq!(buffer.as_slice(), &[0u16; 6][..]);
    let buffer = Framebuffer::new(0, 7);
    assert_eq!(buffer.stride(), 0);
    assert_eq!(buffer.rows(), 7);
    assert!(buffer.as_slice().is_empty());
}
