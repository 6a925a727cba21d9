use image::{ImageFormat, Rgba, RgbaImage};
use mv7mute_core::icon::{
    decode_icon, fallback_icon, icon_for, load_icons, tint_visible_pixels, COLOR_MUTED,
    COLOR_UNKNOWN, COLOR_UNMUTED, TRAY_ICON_SIZE,
};
use mv7mute_core::DeviceState;
use std::io::Cursor;

fn png(width: u32, height: u32, pixel: impl Fn(u32, u32) -> [u8; 4]) -> Vec<u8> {
    let mut img = RgbaImage::new(width, height);
    for (x, y, p) in img.enumerate_pixels_mut() {
        *p = Rgba(pixel(x, y));
    }
    let mut bytes = Vec::new();
    img.write_to(&mut Cursor::new(&mut bytes), ImageFormat::Png)
        .expect("encode png");
    bytes
}

#[test]
fn tint_replaces_colour_of_visible_pixels_only() {
    let mut rgba = vec![1, 2, 3, 255, 4, 5, 6, 0, 7, 8, 9, 10, 11, 12];
    tint_visible_pixels(&mut rgba, [0xAA, 0xBB, 0xCC]);
    assert_eq!(
        rgba,
        vec![0xAA, 0xBB, 0xCC, 255, 4, 5, 6, 0, 0xAA, 0xBB, 0xCC, 10, 11, 12]
    );
}

#[test]
fn decoded_icon_is_scaled_and_tinted() {
    let bytes = png(4, 4, |x, _| if x < 2 { [255, 255, 255, 255] } else { [0, 0, 0, 0] });
    let icon = decode_icon(&bytes, COLOR_MUTED).expect("decode");
    assert_eq!(icon.width, TRAY_ICON_SIZE);
    assert_eq!(icon.height, TRAY_ICON_SIZE);
    assert_eq!(icon.rgba.len(), (32 * 32 * 4) as usize);
    assert_eq!(&icon.rgba[0..3], &COLOR_MUTED);
    assert_ne!(icon.rgba[3], 0);
    for pixel in icon.rgba.chunks(4) {
        if pixel[3] != 0 {
            assert_eq!(&pixel[0..3], &COLOR_MUTED);
        }
    }
}

#[test]
fn undecodable_picture_is_an_error() {
    assert!(decode_icon(b"not a picture", COLOR_UNMUTED).is_err());
    assert!(load_icons(b"junk", b"junk").is_err());
}

#[test]
fn icons_follow_the_state() {
    let bytes = png(2, 2, |_, _| [9, 9, 9, 255]);
    let icons = load_icons(&bytes, &bytes);
    let muted = icon_for(&icons, Some(DeviceState { muted: true, locked: false }));
    assert_eq!(&muted.rgba[0..4], &[COLOR_MUTED[0], COLOR_MUTED[1], COLOR_MUTED[2], 255]);
    let live = icon_for(&icons, Some(DeviceState { muted: false, locked: true }));
    assert_eq!(&live.rgba[0..3], &COLOR_UNMUTED);
    let unknown = icon_for(&icons, None);
    assert_eq!(&unknown.rgba[0..3], &COLOR_UNKNOWN);
}

#[test]
fn fallback_square_when_pictures_are_missing() {
    let icons = load_icons(b"", b"");
    let icon = icon_for(&icons, Some(DeviceState { muted: true, locked: true }));
    assert_eq!(icon.width, 32);
    assert_eq!(icon.height, 32);
    assert_eq!(icon.rgba.len(), 4096);
    assert!(icon.rgba.chunks(4).all(|p| p == [0x5A, 0x5F, 0x66, 0xFF]));
    assert_eq!(fallback_icon().rgba, icon.rgba);
}

#[test]
fn pictures_keep_their_aspect_and_their_source() {
    let tall = png(2, 4, |_, _| [1, 2, 3, 255]);
    let wide = png(4, 2, |_, _| [1, 2, 3, 255]);
    let icons = load_icons(&tall, &wide).expect("decode");
    assert_eq!((icons.muted.width, icons.muted.height), (16, 32));
    assert_eq!((icons.unmuted.width, icons.unmuted.height), (32, 16));
    assert_eq!((icons.unknown.width, icons.unknown.height), (32, 16));
    assert_eq!(icons.muted.rgba.len(), 16 * 32 * 4);
    assert_eq!(&icons.unknown.rgba[0..3], &COLOR_UNKNOWN);
}
