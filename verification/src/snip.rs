//! Screen-snip sessions: which session is live, which monitor gets focus, how
//! a selection becomes a crop of the frozen frame, and what a crop yields
//! (barcode payloads, the PNG stored in history, the JPEG preview).
//!
//! At most one session is live at a time. Every late step of a session (frames
//! arriving, a failure being cleaned up) first checks that the live session is
//! still its own, so a stale step never touches a newer session.
use vstd::prelude::*;

use image::buffer::ConvertBuffer;
use image::ImageEncoder;

use crate::text::{barcode_text, spec_barcode_text};
use crate::window_state::MonitorArea;

verus! {

/// Selections smaller than this in either direction (physical pixels) count as
/// an accidental click and cancel the snip.
pub const MIN_SELECTION_PX: u32 = 4;

/// Why a snip step failed.
#[derive(Debug, Clone, Copy, PartialEq, Eq, Structural)]
pub enum SnipError {
    /// No snip session is live.
    NoActiveSession,
    /// The monitor index is not one of the captured frames.
    MonitorOutOfRange(usize),
    /// The image could not be encoded.
    EncodeFailed,
}

/// An RGBA image, four bytes per pixel, row by row.
pub struct RgbaFrame {
    width: u32,
    height: u32,
    pixels: Vec<u8>,
}

impl RgbaFrame {
    #[verifier::type_invariant]
    spec fn well_formed(self) -> bool {
        self.pixels@.len() == self.width * self.height * 4
    }

    /// Width in pixels.
    pub closed spec fn width(&self) -> u32 {
        self.width
    }

    /// Height in pixels.
    pub closed spec fn height(&self) -> u32 {
        self.height
    }

    /// The RGBA bytes, row by row.
    pub closed spec fn pixels(&self) -> Seq<u8> {
        self.pixels@
    }

    /// The image of `width` by `height` pixels held in `pixels`; `None` unless
    /// `pixels` has exactly four bytes per pixel.
    pub fn from_raw(width: u32, height: u32, pixels: Vec<u8>) -> (frame: Option<Self>)
        ensures
            frame matches Some(f) ==> f.width() == width && f.height() == height && f.pixels()
                == pixels@,
            frame is None <==> pixels@.len() != width * height * 4,
    {
        let w = width as u64;
        let h = height as u64;
        let n = pixels.len() as u64;
        assert(w * h <= u32::MAX * u32::MAX) by (nonlinear_arith)
            requires
                w <= u32::MAX,
                h <= u32::MAX,
        ;
        let area = w * h;
        if area <= u64::MAX / 4 && area * 4 == n {
            Some(RgbaFrame { width, height, pixels })
        } else {
            None
        }
    }

    /// A frame of `width` by `height` pixels, all of the colour `rgba`.
    pub fn filled(width: u32, height: u32, rgba: [u8; 4]) -> (frame: Option<Self>)
        ensures
            frame matches Some(f) ==> f.width() == width && f.height() == height
                && f.pixels().len() == width * height * 4 && (forall|i: int|
                0 <= i < f.pixels().len() ==> #[trigger] f.pixels()[i] == rgba[i % 4]),
            frame is None <==> width * height * 4 > usize::MAX,
    {
        let w = width as u64;
        let h = height as u64;
        assert(w * h <= u32::MAX * u32::MAX) by (nonlinear_arith)
            requires
                w <= u32::MAX,
                h <= u32::MAX,
        ;
        let area = w * h;
        if area > u64::MAX / 4 || area * 4 > usize::MAX as u64 {
            return None;
        }
        let total = (area * 4) as usize;
        let mut pixels: Vec<u8> = Vec::new();
        let mut i: usize = 0;
        while i < total
            invariant
                i <= total,
                pixels@.len() == i,
                forall|j: int| 0 <= j < i ==> #[trigger] pixels@[j] == rgba[j % 4],
            decreases total - i,
        {
            pixels.push(rgba[i % 4]);
            i = i + 1;
        }
        Some(RgbaFrame { width, height, pixels })
    }

    /// Width in pixels.
    pub fn width_px(&self) -> (w: u32)
        ensures
            w == self.width(),
    {
        self.width
    }

    /// Height in pixels.
    pub fn height_px(&self) -> (h: u32)
        ensures
            h == self.height(),
    {
        self.height
    }

    /// The RGBA bytes.
    pub fn as_raw(&self) -> (pixels: &Vec<u8>)
        ensures
            pixels@ == self.pixels(),
    {
        &self.pixels
    }
}

/// Byte offset of the pixel at column `x`, row `y` in an image `width` pixels wide.
pub open spec fn pixel_offset(width: u32, x: u32, y: u32) -> int {
    (y * width + x) * 4
}

/// The luminance image's value for one RGB pixel (sRGB weights, rounded down).
pub open spec fn luma_of(r: u8, g: u8, b: u8) -> u8 {
    ((2126 * r + 7152 * g + 722 * b) / 10000) as u8
}

/// The luminance of each pixel of `frame`, row by row.
pub open spec fn spec_luma(frame: RgbaFrame) -> Seq<u8> {
    Seq::new(
        (frame.width() * frame.height()) as nat,
        |i: int| luma_of(frame.pixels()[4 * i], frame.pixels()[4 * i + 1], frame.pixels()[4 * i + 2]),
    )
}

/// The PNG encoding of an RGBA image, or `None` when the encoder refuses it.
pub uninterp spec fn spec_png(pixels: Seq<u8>, width: u32, height: u32) -> Option<Seq<u8>>;

/// The JPEG encoding (quality 85) of the RGB part of an RGBA image, or `None`
/// when the encoder refuses it.
pub uninterp spec fn spec_jpeg_preview(pixels: Seq<u8>, width: u32, height: u32) -> Option<Seq<u8>>;

/// `image::imageops::grayscale`: the luminance of each pixel (alpha ignored),
/// computed with the sRGB weights 2126/7152/722 out of 10000, rounded down.
#[verifier::external_body]
fn grayscale(frame: &RgbaFrame) -> (luma: Vec<u8>)
    ensures
        luma@ == spec_luma(*frame),
{
    let image = image::RgbaImage::from_raw(frame.width, frame.height, frame.pixels.clone()).expect(
        "frame holds four bytes per pixel",
    );
    image::imageops::grayscale(&image).into_raw()
}

/// Image shapes the barcode reader is run on: any non-empty one (in rxing
/// 0.7.1 `Luma8LuminanceSource` reads the first row, so an empty image
/// panics).
pub open spec fn barcode_scannable(width: u32, height: u32) -> bool {
    width > 0 && height > 0
}

/// The barcode formats the reader is asked for, by the names rxing's
/// `BarcodeFormat::from(&str)` takes: every format its default scan tries (QR,
/// Micro QR, Data Matrix, Aztec, PDF417 and the 1D formats of `ONE_D_FORMATS`,
/// multi_use_multi_format_reader.rs:29 in rxing 0.7.1) except MaxiCode. The
/// MaxiCode bullseye scan (maxicode/detector.rs:393-437) loops for ever on a
/// tall image at most 12 pixels wide, and once it accepts a bullseye it
/// panics on an image under 33 pixels in either direction
/// (`calculate_simple_boundary`, detector.rs:749-756); that depends on the
/// pixels, also of the crops the reader takes, so no shape rules it out.
pub open spec fn spec_scan_formats() -> Seq<Seq<char>> {
    seq!["qr_code"@, "micro_qr_code"@, "data_matrix"@, "aztec"@, "pdf_417"@, "upc_a"@, "upc_e"@, "ean_13"@, "ean_8"@, "codabar"@, "code_39"@, "code_93"@, "code_128"@, "itf"@, "rss_14"@, "rss_expanded"@, "telepen"@]
}

/// The names of the barcode formats the reader is asked for.
pub fn scan_formats() -> (formats: Vec<&'static str>)
    ensures
        formats@.map_values(|name: &str| name@) == spec_scan_formats(),
{
    let mut formats: Vec<&'static str> = Vec::new();
    formats.push("qr_code");
    formats.push("micro_qr_code");
    formats.push("data_matrix");
    formats.push("aztec");
    formats.push("pdf_417");
    formats.push("upc_a");
    formats.push("upc_e");
    formats.push("ean_13");
    formats.push("ean_8");
    formats.push("codabar");
    formats.push("code_39");
    formats.push("code_93");
    formats.push("code_128");
    formats.push("itf");
    formats.push("rss_14");
    formats.push("rss_expanded");
    formats.push("telepen");
    assert(formats@.map_values(|name: &str| name@) =~= spec_scan_formats());
    formats
}

/// `rxing::helpers::detect_multiple_in_luma_with_hints` (helpers.rs:232),
/// with the formats named in `formats` (each turned into a `BarcodeFormat` by
/// its `From<&str>`): runs the multi-format reader over a luminance image,
/// again over the parts of the image beside each barcode it finds, and gives
/// each barcode found by its text; `None` when the reader fails.
///
/// Nothing is said of which payloads come back: the detectors sample the image
/// with floating-point geometry (`sin`, `cos`, `powf` in the QR detector), so
/// borderline results may differ from one machine to another, and the reader
/// tries the named 2D formats in the order of a `HashSet`. Nor is it said that
/// the call returns on every non-empty image: the readers left on were not
/// read in full; the tests run them over every shape up to 24 pixels a side
/// with several contents.
#[verifier::external_body]
fn detect_barcodes(luma: Vec<u8>, width: u32, height: u32, formats: &Vec<&str>) -> (payloads: Option<Vec<String>>)
    requires
        luma@.len() == width * height,
        barcode_scannable(width, height),
        forall|i: int| 0 <= i < formats@.len() ==> spec_scan_formats().contains(#[trigger] formats@[i]@),
{
    let mut hints = rxing::DecodeHints::default();
    hints.PossibleFormats = Some(formats.iter().map(|name| rxing::BarcodeFormat::from(*name)).collect());
    match rxing::helpers::detect_multiple_in_luma_with_hints(luma, width, height, &mut hints) {
        Ok(results) => Some(results.iter().map(|result| result.getText().to_owned()).collect()),
        Err(_) => None,
    }
}

/// `image::imageops::crop_imm`: the `width` by `height` block whose top-left
/// pixel is (`x`, `y`), copied pixel by pixel.
#[verifier::external_body]
fn crop_imm(frame: &RgbaFrame, x: u32, y: u32, width: u32, height: u32) -> (crop: RgbaFrame)
    requires
        x + width <= frame.width(),
        y + height <= frame.height(),
    ensures
        crop.width() == width,
        crop.height() == height,
        forall|col: u32, row: u32, c: int|
            col < width && row < height && 0 <= c < 4 ==> #[trigger] crop.pixels()[pixel_offset(
                width,
                col,
                row,
            ) + c] == frame.pixels()[pixel_offset(frame.width(), (x + col) as u32, (y + row) as u32) + c],
{
    let image = image::RgbaImage::from_raw(frame.width, frame.height, frame.pixels.clone()).expect(
        "frame holds four bytes per pixel",
    );
    let cropped = image::imageops::crop_imm(&image, x, y, width, height).to_image();
    RgbaFrame { width: cropped.width(), height: cropped.height(), pixels: cropped.into_raw() }
}

/// `image::codecs::png::PngEncoder::write_image` on the frame's RGBA bytes.
#[verifier::external_body]
fn png_encode(frame: &RgbaFrame) -> (png: Option<Vec<u8>>)
    ensures
        png matches Some(bytes) ==> spec_png(frame.pixels(), frame.width(), frame.height()) == Some(
            bytes@,
        ),
        png is None ==> spec_png(frame.pixels(), frame.width(), frame.height()) is None,
{
    let mut png = Vec::new();
    match image::codecs::png::PngEncoder::new(&mut png).write_image(
        &frame.pixels,
        frame.width,
        frame.height,
        image::ExtendedColorType::Rgba8,
    ) {
        Ok(()) => Some(png),
        Err(_) => None,
    }
}

/// `image::codecs::jpeg::JpegEncoder::encode_image` (quality 85) on the frame
/// converted to RGB (alpha dropped).
#[verifier::external_body]
fn jpeg_encode_preview(frame: &RgbaFrame) -> (jpeg: Option<Vec<u8>>)
    ensures
        jpeg matches Some(bytes) ==> spec_jpeg_preview(frame.pixels(), frame.width(), frame.height())
            == Some(bytes@),
        jpeg is None ==> spec_jpeg_preview(frame.pixels(), frame.width(), frame.height()) is None,
{
    let image = image::RgbaImage::from_raw(frame.width, frame.height, frame.pixels.clone()).expect(
        "frame holds four bytes per pixel",
    );
    let rgb: image::RgbImage = image.convert();
    let mut out = Vec::new();
    match image::codecs::jpeg::JpegEncoder::new_with_quality(&mut out, 85).encode_image(&rgb) {
        Ok(()) => Some(out),
        Err(_) => None,
    }
}

/// Whether `text` is what the barcode step can yield for some list of
/// decoded payloads: the payloads trimmed, without empty ones, one per line.
pub open spec fn is_barcode_text(text: Seq<char>) -> bool {
    exists|payloads: Seq<Seq<char>>| spec_barcode_text(payloads) == Some(text)
}

/// Whether the barcode reader can be run on `frame`.
pub fn can_scan_barcodes(frame: &RgbaFrame) -> (scannable: bool)
    ensures
        scannable == barcode_scannable(frame.width(), frame.height()),
{
    frame.width > 0 && frame.height > 0
}

/// Decodes the QR codes and barcodes in `frame`: the payloads the reader
/// finds in its luminance image, in the order found, joined by
/// [`barcode_text`]; `None` when the reader finds none or fails (the caller
/// then runs OCR).
pub fn decode_barcodes(frame: &RgbaFrame) -> (text: Option<String>)
    requires
        barcode_scannable(frame.width(), frame.height()),
    ensures
        text matches Some(t) ==> is_barcode_text(t@),
{
    let luma = grayscale(frame);
    let formats = scan_formats();
    assert forall|i: int| 0 <= i < formats@.len() implies spec_scan_formats().contains(
        #[trigger] formats@[i]@,
    ) by {
        assert(formats@.map_values(|name: &str| name@)[i] == formats@[i]@);
    }
    match detect_barcodes(luma, frame.width, frame.height, &formats) {
        Some(payloads) => {
            let text = barcode_text(&payloads);
            assert(text matches Some(t) ==> spec_barcode_text(payloads@.map_values(|p: String| p@))
                == Some(t@));
            text
        },
        None => None,
    }
}

/// The barcode text of a snipped block, tried before OCR: decoded when
/// barcode detection is `enabled` and the block has a shape the reader
/// handles; `None` sends the block to OCR.
pub fn scan_for_barcodes(frame: &RgbaFrame, enabled: bool) -> (text: Option<String>)
    ensures
        !(enabled && barcode_scannable(frame.width(), frame.height())) ==> text is None,
        text matches Some(t) ==> is_barcode_text(t@),
{
    scan_block(frame, enabled).0
}

/// The barcode step of a snipped block: whether the reader is run on it
/// (exactly when barcode detection is `enabled` and the block has a shape the
/// reader handles, whatever else the snip is set to do), and the text it
/// yields, as [`scan_for_barcodes`] gives it.
pub fn scan_block(frame: &RgbaFrame, enabled: bool) -> (result: (Option<String>, Ghost<bool>))
    ensures
        result.1@ == (enabled && barcode_scannable(frame.width(), frame.height())),
        !result.1@ ==> result.0 is None,
        result.0 matches Some(t) ==> is_barcode_text(t@),
{
    if enabled && can_scan_barcodes(frame) {
        (decode_barcodes(frame), Ghost(true))
    } else {
        (None, Ghost(false))
    }
}

/// Whether a re-snip of an image already in the history refreshes its search
/// text: only a deduplicated entry, and only with non-empty text, so an empty
/// result never wipes an existing index.
pub fn refreshes_search_text(deduplicated: bool, text: &str) -> (refresh: bool)
    ensures
        refresh == (deduplicated && text@.len() > 0),
{
    deduplicated && text.unicode_len() > 0
}

/// Whether the recognized text goes to the clipboard: when automatic copying
/// is on and there is text.
pub fn copies_to_clipboard(auto_copy: bool, text: &str) -> (copy: bool)
    ensures
        copy == (auto_copy && text@.len() > 0),
{
    auto_copy && text.unicode_len() > 0
}

/// Encodes the snipped image as PNG for the history entry.
pub fn encode_png(frame: &RgbaFrame) -> (png: Result<Vec<u8>, SnipError>)
    ensures
        png matches Ok(bytes) ==> spec_png(frame.pixels(), frame.width(), frame.height()) == Some(bytes@),
        png matches Err(e) ==> e == SnipError::EncodeFailed && spec_png(
            frame.pixels(),
            frame.width(),
            frame.height(),
        ) is None,
{
    match png_encode(frame) {
        Some(bytes) => Ok(bytes),
        None => Err(SnipError::EncodeFailed),
    }
}

/// Encodes a frozen frame as the JPEG that the overlay displays (RGB, quality 85).
pub fn encode_preview_jpeg(frame: &RgbaFrame) -> (jpeg: Result<Vec<u8>, SnipError>)
    ensures
        jpeg matches Ok(bytes) ==> spec_jpeg_preview(frame.pixels(), frame.width(), frame.height())
            == Some(bytes@),
        jpeg matches Err(e) ==> e == SnipError::EncodeFailed && spec_jpeg_preview(
            frame.pixels(),
            frame.width(),
            frame.height(),
        ) is None,
{
    match jpeg_encode_preview(frame) {
        Some(bytes) => Ok(bytes),
        None => Err(SnipError::EncodeFailed),
    }
}

/// A rectangle of a frame, in physical pixels.
#[derive(Debug, Clone, Copy, PartialEq, Eq, Structural)]
pub struct CropRect {
    pub x: u32,
    pub y: u32,
    pub width: u32,
    pub height: u32,
}

/// The crop a selection becomes: the corner clamped into the frame, the size
/// clamped to what is left of the frame; `None` when the result is smaller
/// than [`MIN_SELECTION_PX`] in either direction.
pub open spec fn spec_clamp_selection(x: u32, y: u32, width: u32, height: u32, frame_width: u32, frame_height: u32) -> Option<CropRect> {
    let last_x = if frame_width == 0 { 0 } else { frame_width - 1 };
    let last_y = if frame_height == 0 { 0 } else { frame_height - 1 };
    let cx = if x < last_x { x } else { last_x as u32 };
    let cy = if y < last_y { y } else { last_y as u32 };
    let cw = if width < frame_width - cx { width } else { (frame_width - cx) as u32 };
    let ch = if height < frame_height - cy { height } else { (frame_height - cy) as u32 };
    if cw < MIN_SELECTION_PX || ch < MIN_SELECTION_PX {
        None
    } else {
        Some(CropRect { x: cx, y: cy, width: cw, height: ch })
    }
}

/// Clamps a selection (already scaled to physical pixels) to a frame of
/// `frame_width` by `frame_height`; `None` when too little is left to be a
/// deliberate selection.
pub fn clamp_selection(x: u32, y: u32, width: u32, height: u32, frame_width: u32, frame_height: u32) -> (rect: Option<CropRect>)
    ensures
        rect == spec_clamp_selection(x, y, width, height, frame_width, frame_height),
        rect matches Some(r) ==> r.x + r.width <= frame_width && r.y + r.height <= frame_height
            && r.width >= MIN_SELECTION_PX && r.height >= MIN_SELECTION_PX,
{
    let last_x = frame_width.saturating_sub(1);
    let last_y = frame_height.saturating_sub(1);
    let cx = if x < last_x { x } else { last_x };
    let cy = if y < last_y { y } else { last_y };
    let room_x = frame_width - cx;
    let room_y = frame_height - cy;
    let cw = if width < room_x { width } else { room_x };
    let ch = if height < room_y { height } else { room_y };
    if cw < MIN_SELECTION_PX || ch < MIN_SELECTION_PX {
        None
    } else {
        Some(CropRect { x: cx, y: cy, width: cw, height: ch })
    }
}

/// Cuts the selection out of a frozen frame; `None` when the clamped
/// selection is too small (the snip is then treated as cancelled).
pub fn crop_selection(frame: &RgbaFrame, x: u32, y: u32, width: u32, height: u32) -> (crop: Option<RgbaFrame>)
    ensures
        match spec_clamp_selection(x, y, width, height, frame.width(), frame.height()) {
            None => crop is None,
            Some(r) => crop matches Some(c) && c.width() == r.width && c.height() == r.height && (forall|col: u32, row: u32, k: int|
                col < r.width && row < r.height && 0 <= k < 4 ==> #[trigger] c.pixels()[pixel_offset(
                    r.width,
                    col,
                    row,
                ) + k] == frame.pixels()[pixel_offset(frame.width(), (r.x + col) as u32, (r.y + row) as u32) + k]),
        },
{
    match clamp_selection(x, y, width, height, frame.width, frame.height) {
        None => None,
        Some(r) => Some(crop_imm(frame, r.x, r.y, r.width, r.height)),
    }
}

/// Whether the cursor position (rounded down to whole pixels) lies on `monitor`.
pub open spec fn cursor_on(monitor: MonitorArea, x: i64, y: i64) -> bool {
    &&& x >= monitor.x
    &&& x < monitor.x + monitor.width
    &&& y >= monitor.y
    &&& y < monitor.y + monitor.height
}

/// The monitor whose overlay gets the focus: the first one under the cursor
/// (given rounded down to whole pixels), or the first monitor when the cursor
/// is unknown or on none of them.
pub fn focused_monitor_index(cursor: Option<(i64, i64)>, monitors: &Vec<MonitorArea>) -> (index: usize)
    ensures
        cursor is None ==> index == 0,
        cursor matches Some((cx, cy)) ==> ({
            ||| (index < monitors@.len() && cursor_on(monitors@[index as int], cx, cy) && forall|j: int|
                0 <= j < index ==> !#[trigger] cursor_on(monitors@[j], cx, cy))
            ||| (index == 0 && forall|j: int|
                0 <= j < monitors@.len() ==> !#[trigger] cursor_on(monitors@[j], cx, cy))
        }),
{
    let (cx, cy) = match cursor {
        None => {
            return 0;
        },
        Some(position) => position,
    };
    let n = monitors.len();
    let mut i: usize = 0;
    while i < n
        invariant
            n == monitors@.len(),
            i <= n,
            cursor == Some((cx, cy)),
            forall|j: int| 0 <= j < i ==> !#[trigger] cursor_on(monitors@[j], cx, cy),
        decreases n - i,
    {
        let m = monitors[i];
        if cx >= m.x as i64 && cx < m.x as i64 + m.width as i64 && cy >= m.y as i64 && cy < m.y as i64
            + m.height as i64 {
            assert(cursor_on(monitors@[i as int], cx, cy));
            return i;
        }
        i = i + 1;
    }
    0
}

/// `uuid::Uuid::new_v4().to_string()`: a fresh random identifier in its
/// hyphenated form, 36 characters long.
#[verifier::external_body]
fn new_session_id() -> (id: String)
    ensures
        id@.len() == 36,
{
    uuid::Uuid::new_v4().to_string()
}

/// The live snip session: its identifier, the frozen frame of each monitor
/// (empty until the capture finishes) and the monitor to focus.
struct SnipSession<F> {
    id: String,
    frames: Vec<F>,
    focus_index: usize,
}

/// The snip session slot: empty, or the one live session.
pub struct SnipState<F> {
    session: Option<SnipSession<F>>,
}

/// What to do with an overlay that reports it has loaded its frame.
#[derive(Debug, Clone, Copy, PartialEq, Eq, Structural)]
pub enum OverlayAction {
    /// Its session is gone: destroy the overlay instead of showing it.
    Destroy,
    /// Show it, and give it the focus when `focus` is set.
    Show { focus: bool },
}

impl<F> SnipState<F> {
    /// A session is live.
    pub closed spec fn active(&self) -> bool {
        self.session is Some
    }

    /// The identifier of the live session.
    pub closed spec fn session_id(&self) -> Seq<char> {
        self.session->0.id@
    }

    /// The frozen frames of the live session.
    pub closed spec fn frames(&self) -> Seq<F> {
        self.session->0.frames@
    }

    /// The monitor whose overlay takes the focus.
    pub closed spec fn focus_index(&self) -> usize {
        self.session->0.focus_index
    }

    /// The live session is the one called `id`.
    pub open spec fn is_session(&self, id: Seq<char>) -> bool {
        self.active() && self.session_id() == id
    }

    /// No session is live.
    pub fn new() -> (state: Self)
        ensures
            !state.active(),
    {
        SnipState { session: None }
    }

    /// Opens a session with a fresh identifier and no frames yet, and returns
    /// the identifier; when a session is already live, nothing changes and the
    /// request is ignored (`None`).
    pub fn start_snip(&mut self) -> (id: Option<String>)
        ensures
            old(self).active() ==> id is None && *final(self) == *old(self),
            !old(self).active() ==> (id matches Some(i) && final(self).is_session(i@) && final(self).frames()
                == Seq::<F>::empty() && final(self).focus_index() == 0 && i@.len() == 36),
    {
        if self.session.is_some() {
            return None;
        }
        let id = new_session_id();
        self.session = Some(SnipSession { id: id.clone(), frames: Vec::new(), focus_index: 0 });
        Some(id)
    }

    /// Whether the live session is the one called `id`.
    pub fn is_current(&self, id: &str) -> (current: bool)
        ensures
            current == self.is_session(id@),
    {
        match &self.session {
            None => false,
            Some(s) => s.id == id.to_owned(),
        }
    }

    /// Hands the captured frames to session `id`; when that session is no
    /// longer live, nothing changes and `false` tells the caller to discard
    /// what it captured.
    pub fn install_frames(&mut self, id: &str, frames: Vec<F>, focus_index: usize) -> (installed: bool)
        ensures
            installed == old(self).is_session(id@),
            installed ==> final(self).is_session(id@) && final(self).frames() == frames@
                && final(self).focus_index() == focus_index,
            !installed ==> *final(self) == *old(self),
    {
        let current = self.is_current(id);
        if !current {
            return false;
        }
        match &mut self.session {
            Some(s) => {
                s.frames = frames;
                s.focus_index = focus_index;
            },
            None => {},
        }
        true
    }

    /// Ends session `id` if it is still the live one (returns whether it did);
    /// a stale request leaves a newer session alone.
    pub fn cancel_snip_if(&mut self, id: &str) -> (cancelled: bool)
        ensures
            cancelled == old(self).is_session(id@),
            cancelled ==> !final(self).active(),
            !cancelled ==> *final(self) == *old(self),
    {
        if self.is_current(id) {
            self.session = None;
            true
        } else {
            false
        }
    }

    /// Ends whatever session is live and returns its identifier (its temporary
    /// directory is to be removed).
    pub fn cancel_snip(&mut self) -> (ended: Option<String>)
        ensures
            !final(self).active(),
            old(self).active() ==> (ended matches Some(i) && i@ == old(self).session_id()),
            !old(self).active() ==> ended is None,
    {
        match self.session.take() {
            Some(s) => Some(s.id),
            None => None,
        }
    }

    /// What to do with the overlay of `monitor` once it has loaded its frame.
    pub fn overlay_ready(&self, monitor: usize) -> (action: OverlayAction)
        ensures
            !self.active() ==> action == OverlayAction::Destroy,
            self.active() ==> action == (OverlayAction::Show { focus: monitor == self.focus_index() }),
    {
        match &self.session {
            None => OverlayAction::Destroy,
            Some(s) => OverlayAction::Show { focus: monitor == s.focus_index },
        }
    }

    /// The frozen frame of `monitor` in the live session.
    pub fn frame_preview(&self, monitor: usize) -> (frame: Result<&F, SnipError>)
        ensures
            !self.active() ==> frame == Err::<&F, SnipError>(SnipError::NoActiveSession),
            self.active() && monitor >= self.frames().len() ==> frame == Err::<&F, SnipError>(
                SnipError::MonitorOutOfRange(monitor),
            ),
            self.active() && monitor < self.frames().len() ==> (frame matches Ok(f) && *f
                == self.frames()[monitor as int]),
    {
        match &self.session {
            None => Err(SnipError::NoActiveSession),
            Some(s) => {
                if monitor < s.frames.len() {
                    Ok(&s.frames[monitor])
                } else {
                    Err(SnipError::MonitorOutOfRange(monitor))
                }
            },
        }
    }

    /// A late failure of session `id` (capture or overlay setup): ends the
    /// session if it is still the live one and then gives the failure event
    /// carrying `message`; a failure of a session already cancelled or
    /// replaced changes nothing and gives no event.
    pub fn fail_session(&mut self, id: &str, message: String) -> (event: Option<SnipDone>)
        ensures
            old(self).is_session(id@) ==> !final(self).active() && (event matches Some(e) && e@
                == failure_event(message@)),
            !old(self).is_session(id@) ==> *final(self) == *old(self) && event is None,
    {
        if self.cancel_snip_if(id) {
            completion_event(SnipEnd::Failed(message))
        } else {
            None
        }
    }

    /// Ends the live session for a confirmed selection on `monitor`: returns
    /// the session's identifier and the frame of `monitor` (`None` when the
    /// index is out of range). Fails, changing nothing, when no session is live.
    pub fn take_for_confirm(&mut self, monitor: usize) -> (taken: Result<(String, Option<F>), SnipError>)
        ensures
            !old(self).active() ==> (taken matches Err(e) && e == SnipError::NoActiveSession && !final(self).active()),
            old(self).active() ==> !final(self).active() && (taken matches Ok((i, frame)) && i@ == old(self).session_id() && (monitor < old(self).frames().len() ==> frame == Some(
                old(self).frames()[monitor as int],
            )) && (monitor >= old(self).frames().len() ==> frame is None)),
    {
        match self.session.take() {
            None => Err(SnipError::NoActiveSession),
            Some(s) => {
                let SnipSession { id, frames, focus_index: _ } = s;
                let mut frames = frames;
                if monitor < frames.len() {
                    let frame = frames.swap_remove(monitor);
                    Ok((id, Some(frame)))
                } else {
                    Ok((id, None))
                }
            },
        }
    }
}

/// How a snip ended.
pub enum SnipEnd {
    /// The selection was smaller than [`MIN_SELECTION_PX`]: an accidental
    /// click, ended silently.
    TooSmall,
    /// The snip failed before producing text (no live session, monitor out of
    /// range, capture, recognition or encoding failed), with the reason.
    Failed(String),
    /// Text was recognized but copying it to the clipboard failed.
    CopyFailed { text: String, error: String },
    /// Text was recognized (and copied when that applies).
    Done { text: String },
}

/// The completion event of a snip: whether it succeeded, how many characters
/// were recognized, and the error, if any.
pub struct SnipDone {
    pub ok: bool,
    pub chars: usize,
    pub error: Option<String>,
}

/// The event of a snip that failed with `message`.
pub open spec fn failure_event(message: Seq<char>) -> (bool, nat, Option<Seq<char>>) {
    (false, 0, Some(message))
}

impl View for SnipDone {
    type V = (bool, nat, Option<Seq<char>>);

    open spec fn view(&self) -> (bool, nat, Option<Seq<char>>) {
        (
            self.ok,
            self.chars as nat,
            match self.error {
                Some(e) => Some(e@),
                None => None,
            },
        )
    }
}

/// The event a snip ending in `end` broadcasts: every end but a too-small
/// selection gives exactly one event (it is the only feedback once the overlay
/// is gone), counting the characters of the recognized text.
pub open spec fn spec_completion_event(end: SnipEnd) -> Option<(bool, nat, Option<Seq<char>>)> {
    match end {
        SnipEnd::TooSmall => None,
        SnipEnd::Failed(message) => Some(failure_event(message@)),
        SnipEnd::CopyFailed { text, error } => Some((false, text@.len(), Some(error@))),
        SnipEnd::Done { text } => Some((true, text@.len(), None)),
    }
}

/// The completion event for a snip that ended in `end`.
pub fn completion_event(end: SnipEnd) -> (event: Option<SnipDone>)
    ensures
        event matches Some(e) ==> spec_completion_event(end) == Some(e@),
        event is None ==> spec_completion_event(end) is None,
{
    match end {
        SnipEnd::TooSmall => None,
        SnipEnd::Failed(message) => Some(SnipDone { ok: false, chars: 0, error: Some(message) }),
        SnipEnd::CopyFailed { text, error } => {
            let chars = text.as_str().unicode_len();
            Some(SnipDone { ok: false, chars, error: Some(error) })
        },
        SnipEnd::Done { text } => {
            let chars = text.as_str().unicode_len();
            Some(SnipDone { ok: true, chars, error: None })
        },
    }
}

} // verus!
