use disco_display::config::{disco_screen_config, DisplayConfig};
use disco_display::controller::{BindError, DisplayController, DriverState, Layer, PixelFormat};
use disco_display::framebuffer::Framebuffer;

fn small_config() -> DisplayConfig {
    DisplayConfig { active_width: 4, active_height: 3, ..disco_screen_config() }
}

#[test]
fn new_controller_has_no_layer_bound() {
    let controller = DisplayController::new(disco_screen_config(), PixelFormat::RGB565);
    assert_eq!(controller.config(), disco_screen_config());
    assert_eq!(controller.pixel_format(), PixelFormat::RGB565);
    assert_eq!(controller.state(Layer::L1), DriverState::Unconfigured);
    assert_eq!(controller.state(Layer::L2), DriverState::Unconfigured);
    assert_eq!(controller.layer_format(Layer::L1), None);
    assert!(controller.frame(Layer::L1).is_none());
    assert!(controller.frame(Layer::L2).is_none());
}

#[test]
fn bind_enable_reload_walk_the_states() {
    let mut controller = DisplayController::new(small_config(), PixelFormat::RGB565);
    assert_eq!(controller.bind_layer(Layer::L1, Framebuffer::new(4, 3), PixelFormat::RGB565), Ok(()));
    assert_eq!(controller.state(Layer::L1), DriverState::Configured);
    assert_eq!(controller.state(Layer::L2), DriverState::Unconfigured);
    assert_eq!(controller.layer_format(Layer::L1), Some(PixelFormat::RGB565));
    assert_eq!(controller.frame(Layer::L1), Some(&[0u16; 12][..]));
    controller.enable_layer(Layer::L1);
    assert_eq!(controller.state(Layer::L1), DriverState::Enabled);
    controller.reload();
    assert_eq!(controller.state(Layer::L1), DriverState::Presenting);
    assert_eq!(controller.state(Layer::L2), DriverState::Unconfigured);
}

#[test]
fn binding_a_layer_twice_is_rejected() {
    let mut controller = DisplayController::new(small_config(), PixelFormat::RGB565);
    assert_eq!(controller.bind_layer(Layer::L1, Framebuffer::new(4, 3), PixelFormat::RGB565), Ok(()));
    controller.write_pixel(Layer::L1, 1, 1, 0xABCD);
    assert_eq!(
        controller.bind_layer(Layer::L1, Framebuffer::new(4, 3), PixelFormat::ARGB1555),
        Err(BindError::AlreadyBound)
    );
    assert_eq!(controller.state(Layer::L1), DriverState::Configured);
    assert_eq!(controller.layer_format(Layer::L1), Some(PixelFormat::RGB565));
    assert_eq!(controller.read_pixel(Layer::L1, 1, 1), 0xABCD);
    controller.enable_layer(Layer::L1);
    controller.reload();
    assert_eq!(
        controller.bind_layer(Layer::L1, Framebuffer::new(4, 3), PixelFormat::RGB565),
        Err(BindError::AlreadyBound)
    );
    assert_eq!(controller.state(Layer::L1), DriverState::Presenting);
    assert_eq!(controller.read_pixel(Layer::L1, 1, 1), 0xABCD);
}

#[test]
fn already_bound_is_reported_before_a_wrong_size() {
    let mut controller = DisplayController::new(small_config(), PixelFormat::RGB565);
    assert_eq!(controller.bind_layer(Layer::L2, Framebuffer::new(4, 3), PixelFormat::RGB565), Ok(()));
    assert_eq!(
        controller.bind_layer(Layer::L2, Framebuffer::new(1, 1), PixelFormat::RGB565),
        Err(BindError::AlreadyBound)
    );
}

#[test]
fn a_buffer_of_another_size_is_rejected() {
    let mut controller = DisplayController::new(small_config(), PixelFormat::RGB565);
    assert_eq!(
        controller.bind_layer(Layer::L1, Framebuffer::new(3, 4), PixelFormat::RGB565),
        Err(BindError::SizeMismatch)
    );
    assert_eq!(
        controller.bind_layer(Layer::L1, Framebuffer::new(4, 2), PixelFormat::RGB565),
        Err(BindError::SizeMismatch)
    );
    assert_eq!(
        controller.bind_layer(Layer::L1, Framebuffer::new(6, 2), PixelFormat::RGB565),
        Err(BindError::SizeMismatch)
    );
    assert_eq!(controller.state(Layer::L1), DriverState::Unconfigured);
    assert!(controller.frame(Layer::L1).is_none());
    assert_eq!(controller.bind_layer(Layer::L1, Framebuffer::new(4, 3), PixelFormat::RGB565), Ok(()));
}

#[test]
fn layers_are_bound_independently() {
    let mut controller = DisplayController::new(small_config(), PixelFormat::RGB565);
    assert_eq!(controller.bind_layer(Layer::L2, Framebuffer::new(4, 3), PixelFormat::AL88), Ok(()));
    assert_eq!(controller.state(Layer::L1), DriverState::Unconfigured);
    assert_eq!(controller.state(Layer::L2), DriverState::Configured);
    assert_eq!(controller.layer_format(Layer::L2), Some(PixelFormat::AL88));
    assert_eq!(controller.bind_layer(Layer::L1, Framebuffer::new(4, 3), PixelFormat::RGB565), Ok(()));
    controller.write_pixel(Layer::L1, 0, 0, 1);
    controller.write_pixel(Layer::L2, 0, 0, 2);
    assert_eq!(controller.read_pixel(Layer::L1, 0, 0), 1);
    assert_eq!(controller.read_pixel(Layer::L2, 0, 0), 2);
    controller.enable_layer(Layer::L2);
    controller.reload();
    assert_eq!(controller.state(Layer::L1), DriverState::Configured);
    assert_eq!(controller.state(Layer::L2), DriverState::Presenting);
}

#[test]
fn write_then_read_returns_the_word() {
    let mut controller = DisplayController::new(disco_screen_config(), PixelFormat::RGB565);
    assert_eq!(controller.bind_layer(Layer::L1, Framebuffer::new(480, 272), PixelFormat::RGB565), Ok(()));
    let cells = [(0usize, 0usize), (479, 0), (0, 271), (479, 271), (240, 136), (1, 0), (0, 1)];
    let mut word: u16 = 0x1001;
    for (x, y) in cells {
        controller.write_pixel(Layer::L1, x, y, word);
        assert_eq!(controller.read_pixel(Layer::L1, x, y), word);
        word += 0x0101;
    }
    let frame = controller.frame(Layer::L1).unwrap();
    assert_eq!(frame.iter().filter(|cell| **cell != 0).count(), cells.len());
}

#[test]
fn cells_are_stored_row_major() {
    let mut controller = DisplayController::new(small_config(), PixelFormat::RGB565);
    assert_eq!(controller.bind_layer(Layer::L1, Framebuffer::new(4, 3), PixelFormat::RGB565), Ok(()));
    controller.write_pixel(Layer::L1, 1, 0, 10);
    controller.write_pixel(Layer::L1, 0, 1, 20);
    controller.write_pixel(Layer::L1, 3, 2, 30);
    assert_eq!(
        controller.frame(Layer::L1).unwrap(),
        &[0, 10, 0, 0, 20, 0, 0, 0, 0, 0, 0, 30][..]
    );
    controller.write_pixel(Layer::L1, 1, 0, 11);
    assert_eq!(controller.read_pixel(Layer::L1, 1, 0), 11);
    assert_eq!(controller.read_pixel(Layer::L1, 0, 1), 20);
}

#[test]
fn enable_is_kept_by_a_second_enable() {
    let mut controller = DisplayController::new(small_config(), PixelFormat::RGB565);
    assert_eq!(controller.bind_layer(Layer::L1, Framebuffer::new(4, 3), PixelFormat::RGB565), Ok(()));
    controller.enable_layer(Layer::L1);
    controller.enable_layer(Layer::L1);
    assert_eq!(controller.state(Layer::L1), DriverState::Enabled);
    controller.reload();
    controller.enable_layer(Layer::L1);
    assert_eq!(controller.state(Layer::L1), DriverState::Presenting);
}

#[test]
fn reload_without_an_enabled_layer_shows_nothing() {
    let mut controller = DisplayController::new(small_config(), PixelFormat::RGB565);
    controller.reload();
    assert_eq!(controller.state(Layer::L1), DriverState::Unconfigured);
    assert_eq!(controller.bind_layer(Layer::L1, Framebuffer::new(4, 3), PixelFormat::RGB565), Ok(()));
    controller.reload();
    assert_eq!(controller.state(Layer::L1), DriverState::Configured);
}

#[test]
fn reload_twice_is_reload_once() {
    let mut controller = DisplayController::new(small_config(), PixelFormat::RGB565);
    assert_eq!(controller.bind_layer(Layer::L1, Framebuffer::new(4, 3), PixelFormat::RGB565), Ok(()));
    controller.write_pixel(Layer::L1, 2, 1, 0x7777);
    controller.enable_layer(Layer::L1);
    controller.reload();
    let state = (controller.state(Layer::L1), controller.state(Layer::L2));
    let frame = controller.frame(Layer::L1).unwrap().to_vec();
    controller.reload();
    assert_eq!((controller.state(Layer::L1), controller.state(Layer::L2)), state);
    assert_eq!(controller.frame(Layer::L1).unwrap(), &frame[..]);
    assert_eq!(controller.state(Layer::L1), DriverState::Presenting);
}
