use disco_display::config::{disco_screen_config, DisplayConfig, HEIGHT, WIDTH};

#[test]
fn panel_is_480_by_272() {
    assert_eq!(WIDTH, 480);
    assert_eq!(HEIGHT, 272);
}

#[test]
fn disco_timing_values() {
    let config = disco_screen_config();
    assert_eq!(
        config,
        DisplayConfig {
            active_width: 480,
            active_height: 272,
            h_back_porch: 13,
            h_front_porch: 30,
            h_sync: 41,
            v_back_porch: 2,
            v_front_porch: 2,
            v_sync: 10,
            frame_rate: 60,
            h_sync_pol: false,
            v_sync_pol: false,
            no_data_enable_pol: false,
            pixel_clock_pol: false,
        }
    );
    assert!(config.is_valid());
}

#[test]
fn a_zero_geometry_field_is_not_valid() {
    let good = disco_screen_config();
    assert!(!DisplayConfig { active_width: 0, ..good }.is_valid());
    assert!(!DisplayConfig { active_height: 0, ..good }.is_valid());
    assert!(!DisplayConfig { h_back_porch: 0, ..good }.is_valid());
    assert!(!DisplayConfig { h_front_porch: 0, ..good }.is_valid());
    assert!(!DisplayConfig { v_back_porch: 0, ..good }.is_valid());
    assert!(!DisplayConfig { v_front_porch: 0, ..good }.is_valid());
    assert!(!DisplayConfig { h_sync: 0, ..good }.is_valid());
    assert!(!DisplayConfig { v_sync: 0, ..good }.is_valid());
}

#[test]
fn polarity_and_rate_do_not_matter_for_validity() {
    let good = disco_screen_config();
    assert!(DisplayConfig { frame_rate: 0, ..good }.is_valid());
    assert!(DisplayConfig { h_sync_pol: true, pixel_clock_pol: true, ..good }.is_valid());
}
