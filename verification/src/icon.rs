//! The tray icon: microphone pictures tinted by state, and the plain square
//! shown when the pictures cannot be decoded.
use vstd::prelude::*;
use crate::command::DeviceState;

verus! {

/// Width and height of the tray icon, in pixels.
pub const TRAY_ICON_SIZE: u32 = 32;

/// Tint of the microphone when it is live.
pub const COLOR_UNMUTED: [u8; 3] = [0x14, 0x6C, 0x43];

/// Tint of the microphone when it is muted.
pub const COLOR_MUTED: [u8; 3] = [0x8E, 0x1B, 0x1B];

/// Tint of the microphone when its state is unknown.
pub const COLOR_UNKNOWN: [u8; 3] = [0x5A, 0x5F, 0x66];

/// An RGBA picture, four bytes per pixel, row by row.
pub struct IconImage {
    pub rgba: Vec<u8>,
    pub width: u32,
    pub height: u32,
}

impl View for IconImage {
    type V = (Seq<u8>, u32, u32);

    open spec fn view(&self) -> (Seq<u8>, u32, u32) {
        (self.rgba@, self.width, self.height)
    }
}

impl IconImage {
    /// A copy of this picture.
    pub fn copy(&self) -> (c: IconImage)
        ensures
            c@ == self@,
    {
        IconImage { rgba: self.rgba.clone(), width: self.width, height: self.height }
    }
}

/// The three tinted pictures of the tray.
pub struct LoadedIcons {
    pub muted: IconImage,
    pub unmuted: IconImage,
    pub unknown: IconImage,
}

/// Why the image file `bytes` cannot be decoded, or `None` when it can.
pub uninterp spec fn picture_load_error(bytes: Seq<u8>) -> Option<Seq<char>>;

/// The width and height that the picture of the image file `bytes` is
/// scaled to when it is made to fit `size` by `size` with its aspect ratio
/// kept (the `image` crate computes it from the decoded size alone).
pub uninterp spec fn scaled_size(bytes: Seq<u8>, size: u32) -> (u32, u32);

/// The resampling filters of the `image` crate.
#[derive(Clone, Copy, Debug, PartialEq, Eq, Structural)]
pub enum ScaleFilter {
    Nearest,
    Triangle,
    CatmullRom,
    Gaussian,
    Lanczos3,
}

/// The filter the tray scales its pictures with.
pub const ICON_FILTER: ScaleFilter = ScaleFilter::Lanczos3;

/// `image::load_from_memory`, then `DynamicImage::resize` to fit `size` by
/// `size` with `filter`, then `to_rgba8`. Whether decoding succeeds and its
/// error message are named as values of the bytes; so is the size of the
/// scaled picture, which the crate computes from the decoded size with
/// plain arithmetic, keeping the aspect ratio, each side at least 1 and
/// within the bounds; an RGBA buffer holds four bytes per pixel. The pixel
/// values are left unstated: the filters compute with floating point, whose
/// results the platform may vary.
#[verifier::external_body]
fn decode_scaled(bytes: &[u8], size: u32, filter: ScaleFilter) -> (r: Result<IconImage, String>)
    requires
        size >= 1,
    ensures
        match r {
            Ok(img) => {
                &&& picture_load_error(bytes@) is None
                &&& (img.width, img.height) == scaled_size(bytes@, size)
                &&& 1 <= img.width <= size
                &&& 1 <= img.height <= size
                &&& img.rgba@.len() == 4 * img.width * img.height
            },
            Err(e) => picture_load_error(bytes@) == Some(e@),
        },
{
    let filter = match filter {
        ScaleFilter::Nearest => image::imageops::FilterType::Nearest,
        ScaleFilter::Triangle => image::imageops::FilterType::Triangle,
        ScaleFilter::CatmullRom => image::imageops::FilterType::CatmullRom,
        ScaleFilter::Gaussian => image::imageops::FilterType::Gaussian,
        ScaleFilter::Lanczos3 => image::imageops::FilterType::Lanczos3,
    };
    let picture = image::load_from_memory(bytes).map_err(|error| error.to_string())?;
    let rgba = picture.resize(size, size, filter).to_rgba8();
    Ok(IconImage { width: rgba.width(), height: rgba.height(), rgba: rgba.into_raw() })
}

/// `new` is `old` with the colour of every visible pixel (alpha not zero)
/// replaced by `tint`; transparency, hidden pixels and a trailing partial
/// pixel are kept.
pub open spec fn tinted(old: Seq<u8>, new: Seq<u8>, tint: [u8; 3]) -> bool {
    &&& new.len() == old.len()
    &&& forall|q: int, c: int|
        0 <= q && 4 * q + 4 <= old.len() && 0 <= c < 4 ==> #[trigger] new[4 * q + c] == if c < 3
            && old[4 * q + 3] != 0 {
            tint@[c]
        } else {
            old[4 * q + c]
        }
    &&& forall|k: int| 4 * (old.len() / 4) <= k < old.len() ==> #[trigger] new[k] == old[k]
}

/// Tints the visible pixels of `rgba`.
pub fn tint_visible_pixels(rgba: &mut Vec<u8>, tint: [u8; 3])
    ensures
        tinted(old(rgba)@, final(rgba)@, tint),
{
    let len = rgba.len();
    let pixels = len / 4;
    let mut p: usize = 0;
    while p < pixels
        invariant
            len == old(rgba)@.len(),
            len == rgba@.len(),
            pixels == len / 4,
            p <= pixels,
            forall|q: int, c: int|
                0 <= q < p && 0 <= c < 4 ==> #[trigger] rgba@[4 * q + c] == if c < 3 && old(
                    rgba,
                )@[4 * q + 3] != 0 {
                    tint@[c]
                } else {
                    old(rgba)@[4 * q + c]
                },
            forall|k: int| 4 * p <= k < len ==> #[trigger] rgba@[k] == old(rgba)@[k],
        decreases pixels - p,
    {
        let base = 4 * p;
        if rgba[base + 3] != 0 {
            rgba.set(base, tint[0]);
            rgba.set(base + 1, tint[1]);
            rgba.set(base + 2, tint[2]);
        }
        proof {
            assert forall|q: int, c: int|
                0 <= q < p + 1 && 0 <= c < 4 implies #[trigger] rgba@[4 * q + c] == if c < 3
                && old(rgba)@[4 * q + 3] != 0 {
                tint@[c]
            } else {
                old(rgba)@[4 * q + c]
            } by {
                if q == p {
                    assert(4 * q + c == base + c);
                } else {
                    assert(4 * q + c < base);
                }
            }
        }
        p = p + 1;
    }
}

/// Every visible pixel (alpha not zero) of `rgba` has the colour `tint`.
pub open spec fn shows_tint(rgba: Seq<u8>, tint: [u8; 3]) -> bool {
    forall|q: int, c: int|
        0 <= q && 4 * q + 4 <= rgba.len() && 0 <= c < 3 && rgba[4 * q + 3] != 0 ==> #[trigger] rgba[4
            * q + c] == tint@[c]
}

/// What holds of every tray picture decoded from the image file `bytes`:
/// it has the size that picture is scaled to, which fits the tray icon; it
/// holds four bytes per pixel; and every visible pixel has the colour `tint`.
pub open spec fn tray_picture(img: IconImage, bytes: Seq<u8>, tint: [u8; 3]) -> bool {
    &&& (img.width, img.height) == scaled_size(bytes, TRAY_ICON_SIZE)
    &&& 1 <= img.width <= TRAY_ICON_SIZE
    &&& 1 <= img.height <= TRAY_ICON_SIZE
    &&& img.rgba@.len() == 4 * img.width * img.height
    &&& shows_tint(img.rgba@, tint)
}

/// A tinted picture shows its tint.
proof fn lemma_tinted_shows_tint(old: Seq<u8>, new: Seq<u8>, tint: [u8; 3])
    requires
        tinted(old, new, tint),
    ensures
        shows_tint(new, tint),
{
    assert forall|q: int, c: int|
        0 <= q && 4 * q + 4 <= new.len() && 0 <= c < 3 && new[4 * q + 3] != 0 implies #[trigger] new[4
        * q + c] == tint@[c] by {
        assert(new[4 * q + 3] == old[4 * q + 3]);
    }
}

/// Decodes an image file into a tray picture of the given tint, scaled with
/// [`ICON_FILTER`] to fit the tray icon.
pub fn decode_icon(bytes: &[u8], tint: [u8; 3]) -> (r: Result<IconImage, String>)
    ensures
        match picture_load_error(bytes@) {
            Some(e) => r matches Err(m) && m@ == e,
            None => r matches Ok(img) && tray_picture(img, bytes@, tint),
        },
{
    match decode_scaled(bytes, TRAY_ICON_SIZE, ICON_FILTER) {
        Err(e) => Err(e),
        Ok(img) => {
            let ghost scaled = img.rgba@;
            let mut rgba = img.rgba;
            tint_visible_pixels(&mut rgba, tint);
            proof {
                lemma_tinted_shows_tint(scaled, rgba@, tint);
            }
            Ok(IconImage { rgba, width: img.width, height: img.height })
        },
    }
}

/// Decodes the pictures of the tray: the muted picture in the muted tint,
/// and the live picture in the live tint and in the unknown-state tint. The
/// first picture that cannot be decoded fails the whole.
pub fn load_icons(muted_picture: &[u8], unmuted_picture: &[u8]) -> (r: Result<LoadedIcons, String>)
    ensures
        match (picture_load_error(muted_picture@), picture_load_error(unmuted_picture@)) {
            (Some(e), _) => r matches Err(m) && m@ == e,
            (None, Some(e)) => r matches Err(m) && m@ == e,
            (None, None) => r matches Ok(icons) && tray_picture(
                icons.muted,
                muted_picture@,
                COLOR_MUTED,
            ) && tray_picture(icons.unmuted, unmuted_picture@, COLOR_UNMUTED) && tray_picture(
                icons.unknown,
                unmuted_picture@,
                COLOR_UNKNOWN,
            ),
        },
{
    let muted = match decode_icon(muted_picture, COLOR_MUTED) {
        Ok(i) => i,
        Err(e) => return Err(e),
    };
    let unmuted = match decode_icon(unmuted_picture, COLOR_UNMUTED) {
        Ok(i) => i,
        Err(e) => return Err(e),
    };
    let unknown = match decode_icon(unmuted_picture, COLOR_UNKNOWN) {
        Ok(i) => i,
        Err(e) => return Err(e),
    };
    Ok(LoadedIcons { muted, unmuted, unknown })
}

/// Colour of the plain square shown when the pictures cannot be decoded.
pub const FALLBACK_PIXEL: [u8; 4] = [0x5A, 0x5F, 0x66, 0xFF];

/// The plain square: `TRAY_ICON_SIZE` by `TRAY_ICON_SIZE` opaque grey pixels.
pub open spec fn is_fallback_square(rgba: Seq<u8>) -> bool {
    &&& rgba.len() == 4 * TRAY_ICON_SIZE * TRAY_ICON_SIZE
    &&& forall|q: int, c: int|
        0 <= q < TRAY_ICON_SIZE * TRAY_ICON_SIZE && 0 <= c < 4 ==> #[trigger] rgba[4 * q + c]
            == FALLBACK_PIXEL@[c]
}

/// Builds the plain square.
pub fn fallback_icon() -> (img: IconImage)
    ensures
        is_fallback_square(img.rgba@),
        img.width == TRAY_ICON_SIZE,
        img.height == TRAY_ICON_SIZE,
{
    let count: usize = 1024;
    let mut rgba: Vec<u8> = Vec::new();
    let mut q: usize = 0;
    while q < count
        invariant
            count == TRAY_ICON_SIZE * TRAY_ICON_SIZE,
            q <= count,
            rgba@.len() == 4 * q,
            forall|p: int, c: int|
                0 <= p < q && 0 <= c < 4 ==> #[trigger] rgba@[4 * p + c] == FALLBACK_PIXEL@[c],
        decreases count - q,
    {
        rgba.push(FALLBACK_PIXEL[0]);
        rgba.push(FALLBACK_PIXEL[1]);
        rgba.push(FALLBACK_PIXEL[2]);
        rgba.push(FALLBACK_PIXEL[3]);
        proof {
            assert forall|p: int, c: int|
                0 <= p < q + 1 && 0 <= c < 4 implies #[trigger] rgba@[4 * p + c]
                == FALLBACK_PIXEL@[c] by {
                if p == q {
                    assert(4 * p + c == 4 * q + c);
                }
            }
        }
        q = q + 1;
    }
    IconImage { rgba, width: TRAY_ICON_SIZE, height: TRAY_ICON_SIZE }
}

/// The picture the tray shows for a state: the muted or live picture for a
/// known state, the unknown-state picture otherwise, and the plain square
/// when the pictures could not be decoded.
pub fn icon_for(icons: &Result<LoadedIcons, String>, state: Option<DeviceState>) -> (img: IconImage)
    ensures
        match icons {
            Ok(l) => match state {
                Some(s) => if s.muted {
                    img@ == l.muted@
                } else {
                    img@ == l.unmuted@
                },
                None => img@ == l.unknown@,
            },
            Err(_) => is_fallback_square(img.rgba@) && img.width == TRAY_ICON_SIZE && img.height
                == TRAY_ICON_SIZE,
        },
{
    match icons {
        Ok(l) => match state {
            Some(s) => if s.muted {
                l.muted.copy()
            } else {
                l.unmuted.copy()
            },
            None => l.unknown.copy(),
        },
        Err(_) => fallback_icon(),
    }
}

} // verus!
