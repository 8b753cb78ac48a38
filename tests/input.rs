use letsplay_av::analog_retropad::AnalogRetroPad;
use letsplay_av::libretro::{
    bytes_per_pixel_from_libretro, PixelFormat, DEVICE_ANALOG, DEVICE_ID_ANALOG_X, DEVICE_ID_ANALOG_Y,
    DEVICE_ID_JOYPAD_MASK, DEVICE_INDEX_ANALOG_LEFT, DEVICE_INDEX_ANALOG_RIGHT, DEVICE_JOYPAD,
};
use letsplay_av::retropad::RetroPad;

#[test]
fn bytes_per_pixel() {
    assert_eq!(bytes_per_pixel_from_libretro(PixelFormat::ARGB1555), 2);
    assert_eq!(bytes_per_pixel_from_libretro(PixelFormat::RGB565), 2);
    assert_eq!(bytes_per_pixel_from_libretro(PixelFormat::ARGB8888), 4);
}

#[test]
fn retropad_press_and_mask() {
    let mut pad = RetroPad::new();
    assert_eq!(pad.get_index(0, DEVICE_ID_JOYPAD_MASK), 0);
    pad.press_button(0, Some(500));
    pad.press_button(3, None);
    assert_eq!(pad.get_index(0, 0), 1);
    assert_eq!(pad.get_index(0, 3), 1);
    assert_eq!(pad.get_index(1, 3), 0);
    assert_eq!(pad.button_mask(), 0b1001);
    assert_eq!(pad.get_index(0, DEVICE_ID_JOYPAD_MASK), 0b1001);
    pad.press_button(15, None);
    assert_eq!(pad.button_mask(), (0x8009u16) as i16);
    pad.reset();
    assert_eq!(pad.button_mask(), 0);
}

#[test]
fn retropad_pressure_and_out_of_range_ids() {
    let mut pad = RetroPad::new();
    pad.press_button_friend(2, Some(-7));
    pad.press_button_friend(5, None);
    pad.press_button_friend(16, Some(9));
    pad.press_button_friend(40, Some(9));
    assert_eq!(pad.get_index(0, 2), -7);
    assert_eq!(pad.get_index(0, 5), 0x7fff);
    assert_eq!(pad.get_index(0, 16), 0);
    assert_eq!(pad.get_index(0, 40), 0);
}

#[test]
fn retropad_device_type() {
    let pad = RetroPad::new();
    assert_eq!(pad.device_type(), DEVICE_JOYPAD);
    assert!(pad.device_type_compatible(DEVICE_JOYPAD));
    assert!(!pad.device_type_compatible(DEVICE_ANALOG));
}

#[test]
fn analog_pad_device_types() {
    let pad = AnalogRetroPad::new();
    assert_eq!(pad.device_type(), DEVICE_ANALOG);
    assert!(pad.device_type_compatible(DEVICE_JOYPAD));
    assert!(pad.device_type_compatible(DEVICE_ANALOG));
    assert!(!pad.device_type_compatible(2));
}

#[test]
fn analog_pad_axes() {
    let mut pad = AnalogRetroPad::new();
    pad.press_analog_axis(DEVICE_INDEX_ANALOG_LEFT, DEVICE_ID_ANALOG_X, Some(-300));
    pad.press_analog_axis(DEVICE_INDEX_ANALOG_RIGHT, DEVICE_ID_ANALOG_Y, None);
    pad.press_analog_axis(7, DEVICE_ID_ANALOG_Y, Some(5));
    assert_eq!(pad.get_index(DEVICE_INDEX_ANALOG_LEFT, DEVICE_ID_ANALOG_X), -300);
    assert_eq!(pad.get_index(DEVICE_INDEX_ANALOG_LEFT, DEVICE_ID_ANALOG_Y), 0);
    assert_eq!(pad.get_index(DEVICE_INDEX_ANALOG_RIGHT, DEVICE_ID_ANALOG_Y), 0x7fff);
    assert_eq!(pad.get_index(DEVICE_INDEX_ANALOG_RIGHT, 9), 0);
    pad.press_button(4, Some(2));
    assert_eq!(pad.get_index(2, 4), 2);
    pad.reset();
    assert_eq!(pad.get_index(DEVICE_INDEX_ANALOG_LEFT, DEVICE_ID_ANALOG_X), 0);
    assert_eq!(pad.get_index(DEVICE_INDEX_ANALOG_RIGHT, DEVICE_ID_ANALOG_Y), 0);
    assert_eq!(pad.get_index(2, 4), 0);
}
