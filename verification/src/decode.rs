//! The decode worker's computation: turning one file's bytes into either a
//! displayable pixel payload (normalized to RGBA8 or RGB8, with a diagnostic
//! label) or an opaque failure marker. The byte-level codec work is done by
//! the `image` crate behind a small trusted surface; everything around it is
//! verified.

use vstd::prelude::*;

use crate::text::dec_seq;
use crate::text::u64_to_string;

verus! {

/// Declares image::DynamicImage, the codec's in-memory bitmap. Opaque here:
/// everything read from it goes through the trusted functions below.
#[verifier::external_type_specification]
#[verifier::external_body]
pub struct ExDynamicImage(image::DynamicImage);

/// Declares image::ImageError, the codec's error. Opaque here: it only
/// marks a failed parse and carries no detail across this boundary.
#[verifier::external_type_specification]
#[verifier::external_body]
pub struct ExImageError(image::ImageError);

/// Relies on image::load_from_memory: sniffs the format of `buffer` and
/// decodes it into an in-memory bitmap, or reports an error for bytes it
/// cannot read. Nothing is stated about which outcome comes back: the sniff
/// and the decode consult process-global, runtime-mutable hook registries,
/// so the outcome is not a function of the bytes alone. Callers handle both
/// outcomes; `result_from_parse` states what each one becomes.
pub assume_specification[ image::load_from_memory ](buffer: &[u8]) -> Result<
    image::DynamicImage,
    image::ImageError,
>;

/// The native color type of a decoded bitmap, as the codec reports it.
/// `Other` stands for any variant the codec may add later.
#[derive(Clone, Copy, PartialEq, Eq, Structural, Debug)]
pub enum ColorKind {
    L8,
    La8,
    Rgb8,
    Rgba8,
    L16,
    La16,
    Rgb16,
    Rgba16,
    Rgb32F,
    Rgba32F,
    Other,
}

/// The name of a color kind, as it appears in the diagnostic label.
pub open spec fn color_name(kind: ColorKind) -> Seq<char> {
    match kind {
        ColorKind::L8 => "L8"@,
        ColorKind::La8 => "La8"@,
        ColorKind::Rgb8 => "Rgb8"@,
        ColorKind::Rgba8 => "Rgba8"@,
        ColorKind::L16 => "L16"@,
        ColorKind::La16 => "La16"@,
        ColorKind::Rgb16 => "Rgb16"@,
        ColorKind::Rgba16 => "Rgba16"@,
        ColorKind::Rgb32F => "Rgb32F"@,
        ColorKind::Rgba32F => "Rgba32F"@,
        ColorKind::Other => "Other"@,
    }
}

/// Renders the name of a color kind.
pub fn color_kind_name(kind: ColorKind) -> (r: &'static str)
    ensures
        r@ == color_name(kind),
{
    match kind {
        ColorKind::L8 => "L8",
        ColorKind::La8 => "La8",
        ColorKind::Rgb8 => "Rgb8",
        ColorKind::Rgba8 => "Rgba8",
        ColorKind::L16 => "L16",
        ColorKind::La16 => "La16",
        ColorKind::Rgb16 => "Rgb16",
        ColorKind::Rgba16 => "Rgba16",
        ColorKind::Rgb32F => "Rgb32F",
        ColorKind::Rgba32F => "Rgba32F",
        ColorKind::Other => "Other",
    }
}

/// Relies on DynamicImage::color: reports the native color type of the
/// decoded bitmap; this maps each of its variants to the kind of the same
/// name.
#[verifier::external_body]
fn native_color_kind(img: &image::DynamicImage) -> ColorKind {
    match img.color() {
        image::ColorType::L8 => ColorKind::L8,
        image::ColorType::La8 => ColorKind::La8,
        image::ColorType::Rgb8 => ColorKind::Rgb8,
        image::ColorType::Rgba8 => ColorKind::Rgba8,
        image::ColorType::L16 => ColorKind::L16,
        image::ColorType::La16 => ColorKind::La16,
        image::ColorType::Rgb16 => ColorKind::Rgb16,
        image::ColorType::Rgba16 => ColorKind::Rgba16,
        image::ColorType::Rgb32F => ColorKind::Rgb32F,
        image::ColorType::Rgba32F => ColorKind::Rgba32F,
        _ => ColorKind::Other,
    }
}

/// A tightly packed sample buffer handed back by the codec, with the
/// dimensions it reports for that buffer.
pub struct RawSamples {
    pub width: u32,
    pub height: u32,
    pub bytes: Vec<u8>,
}

/// Relies on DynamicImage::to_rgba8 (conversion to a non-premultiplied RGBA8
/// image of the same dimensions) and ImageBuffer::into_raw. Every bitmap
/// this runs on comes out of the codec's own decoder — this function is
/// private and reached only through `decode_image_bytes` — and of those,
/// decoding allocates the buffer at exactly width * height * channels
/// samples and conversion rebuilds it at that exact size, row-major, one
/// byte per channel, tightly packed. So the raw buffer returned here holds
/// exactly width * height * 4 bytes. (A bitmap assembled by hand through
/// ImageBuffer::from_raw could carry a longer container; none can reach
/// this function.)
#[verifier::external_body]
fn extract_rgba(img: &image::DynamicImage) -> (r: RawSamples)
    ensures
        r.bytes@.len() == r.width as int * r.height as int * 4,
{
    let buf = img.to_rgba8();
    let width = buf.width();
    let height = buf.height();
    RawSamples { width, height, bytes: buf.into_raw() }
}

/// Relies on DynamicImage::to_rgb8 (conversion to an RGB8 image of the same
/// dimensions) and ImageBuffer::into_raw: as for the RGBA8 case, every
/// bitmap this private function runs on is codec-produced, and its raw
/// buffer holds exactly width * height * 3 bytes, row-major, tightly
/// packed.
#[verifier::external_body]
fn extract_rgb(img: &image::DynamicImage) -> (r: RawSamples)
    ensures
        r.bytes@.len() == r.width as int * r.height as int * 3,
{
    let buf = img.to_rgb8();
    let width = buf.width();
    let height = buf.height();
    RawSamples { width, height, bytes: buf.into_raw() }
}

/// Whether a native color kind is 4-channel alpha-bearing. Such images are
/// normalized to non-premultiplied RGBA8; every other kind — including the
/// 2-channel gray-with-alpha kinds — is normalized to RGB8.
pub open spec fn alpha_bearing(kind: ColorKind) -> bool {
    kind == ColorKind::Rgba8 || kind == ColorKind::Rgba16 || kind == ColorKind::Rgba32F
}

/// Tests whether a native color kind is 4-channel alpha-bearing.
pub fn is_alpha_bearing(kind: ColorKind) -> (r: bool)
    ensures
        r == alpha_bearing(kind),
{
    kind == ColorKind::Rgba8 || kind == ColorKind::Rgba16 || kind == ColorKind::Rgba32F
}

/// How many bytes one pixel takes after normalization.
pub open spec fn channels_of(rgba: bool) -> int {
    if rgba {
        4
    } else {
        3
    }
}

/// The "WxH" dimension text of the diagnostic label.
pub open spec fn dims_seq(width: nat, height: nat) -> Seq<char> {
    dec_seq(width) + "x"@ + dec_seq(height)
}

/// Everything of the diagnostic label after the dimension text: the native
/// color type, the sample-buffer bounds (channels, width, height), and the
/// per-axis strides of the tightly packed layout (channel stride 1, width
/// stride `c`, height stride `c * width` for `c` channels).
pub open spec fn label_tail(width: nat, height: nat, kind: ColorKind) -> Seq<char> {
    let c: nat = if alpha_bearing(kind) {
        4
    } else {
        3
    };
    "\ncolorType: "@ + color_name(kind) + "\nbounds: ("@ + dec_seq(c) + ", "@ + dec_seq(width)
        + ", "@ + dec_seq(height) + ")"@ + "\nstrides_cwh: (1, "@ + dec_seq(c) + ", "@ + dec_seq(
        c * width,
    ) + ")"@ + "\nwidth_stride: "@ + dec_seq(c) + "\nheight_stride: "@ + dec_seq(c * width)
}

/// The whole diagnostic label that accompanies a decoded image.
pub open spec fn label_spec(width: nat, height: nat, kind: ColorKind) -> Seq<char> {
    "widthxheight="@ + dims_seq(width, height) + label_tail(width, height, kind)
}

/// Renders the "WxH" dimension text.
fn build_dims(width: u32, height: u32) -> (s: String)
    ensures
        s@ == dims_seq(width as nat, height as nat),
{
    let mut s = u64_to_string(width as u64);
    s.append("x");
    s.append(u64_to_string(height as u64).as_str());
    s
}

/// Renders everything of the diagnostic label after the dimension text.
fn build_tail(width: u32, height: u32, kind: ColorKind) -> (s: String)
    ensures
        s@ == label_tail(width as nat, height as nat, kind),
{
    let c: u64 = if is_alpha_bearing(kind) {
        4
    } else {
        3
    };
    let cw: u64 = c * (width as u64);
    let mut s = String::from_str("\ncolorType: ");
    s.append(color_kind_name(kind));
    s.append("\nbounds: (");
    s.append(u64_to_string(c).as_str());
    s.append(", ");
    s.append(u64_to_string(width as u64).as_str());
    s.append(", ");
    s.append(u64_to_string(height as u64).as_str());
    s.append(")");
    s.append("\nstrides_cwh: (1, ");
    s.append(u64_to_string(c).as_str());
    s.append(", ");
    s.append(u64_to_string(cw).as_str());
    s.append(")");
    s.append("\nwidth_stride: ");
    s.append(u64_to_string(c).as_str());
    s.append("\nheight_stride: ");
    s.append(u64_to_string(cw).as_str());
    s
}

/// Renders the whole diagnostic label.
pub fn build_label(width: u32, height: u32, kind: ColorKind) -> (s: String)
    ensures
        s@ == label_spec(width as nat, height as nat, kind),
{
    let mut s = String::from_str("widthxheight=");
    s.append(build_dims(width, height).as_str());
    s.append(build_tail(width, height, kind).as_str());
    s
}

/// One decoded image, ready to display: the normalized pixel buffer, its
/// dimensions, whether it carries an alpha channel, and the diagnostic
/// label. Never mutated after construction.
#[derive(Clone, Debug, PartialEq, Eq)]
pub struct ImagePayload {
    pub width: u32,
    pub height: u32,
    pub rgba: bool,
    pub label: String,
    pub pixels: Vec<u8>,
}

impl ImagePayload {
    /// The pixel buffer holds exactly one normalized pixel per coordinate,
    /// and the label is the diagnostic text for some native color kind that
    /// agrees with the normalization that was chosen.
    pub open spec fn wf(self) -> bool {
        &&& self.pixels@.len() == self.width as int * self.height as int * channels_of(self.rgba)
        &&& exists|kind: ColorKind|
            self.rgba == alpha_bearing(kind) && self.label@ == #[trigger] label_spec(
                self.width as nat,
                self.height as nat,
                kind,
            )
    }
}

/// What one decode request hands back: a displayable payload, or an opaque
/// failure marker. Exactly one of these travels per request.
#[derive(Clone, Debug, PartialEq, Eq)]
pub enum DecodeResult {
    Success(ImagePayload),
    Failure,
}

impl DecodeResult {
    /// Every payload that travels is well formed.
    pub open spec fn wf(self) -> bool {
        match self {
            DecodeResult::Success(payload) => payload.wf(),
            DecodeResult::Failure => true,
        }
    }
}

/// Assembles the payload from the raw samples the codec handed back and the
/// native color kind it reported.
pub fn build_payload(samples: RawSamples, kind: ColorKind) -> (p: ImagePayload)
    requires
        samples.bytes@.len() == samples.width as int * samples.height as int * channels_of(
            alpha_bearing(kind),
        ),
    ensures
        p.wf(),
        p.width == samples.width,
        p.height == samples.height,
        p.rgba == alpha_bearing(kind),
        p.pixels@ == samples.bytes@,
        p.label@ == label_spec(samples.width as nat, samples.height as nat, kind),
{
    let rgba = is_alpha_bearing(kind);
    let label = build_label(samples.width, samples.height, kind);
    let p = ImagePayload {
        width: samples.width,
        height: samples.height,
        rgba,
        label,
        pixels: samples.bytes,
    };
    proof {
        assert(p.rgba == alpha_bearing(kind) && p.label@ == label_spec(
            p.width as nat,
            p.height as nat,
            kind,
        ));
    }
    p
}

/// Decodes one in-memory bitmap into a payload: 4-channel alpha-bearing
/// images are normalized to non-premultiplied RGBA8, all others to RGB8,
/// and the diagnostic label is rendered from the dimensions and the native
/// color kind. Private, so the only bitmaps that reach the extractors are
/// the ones the codec's decoder produced.
fn payload_from_image(img: &image::DynamicImage) -> (p: ImagePayload)
    ensures
        p.wf(),
{
    let kind = native_color_kind(img);
    let samples = if is_alpha_bearing(kind) {
        extract_rgba(img)
    } else {
        extract_rgb(img)
    };
    build_payload(samples, kind)
}

/// Maps the codec's outcome to the decode result: a failed parse becomes
/// `Failure` and nothing else does, and a parsed bitmap becomes a well
/// formed payload.
fn result_from_parse(parsed: Result<image::DynamicImage, image::ImageError>) -> (r: DecodeResult)
    ensures
        r is Success <==> parsed is Ok,
        r.wf(),
{
    match parsed {
        Ok(img) => DecodeResult::Success(payload_from_image(&img)),
        Err(_) => DecodeResult::Failure,
    }
}

/// Turns one file's bytes into the decode outcome. Whatever the codec hands
/// back on this call, the result is a well formed payload when it decoded
/// the bytes and the opaque failure marker when it did not — that per-call
/// correspondence is the proved contract of `result_from_parse` — and this
/// never panics, whatever the bytes hold.
pub fn decode_image_bytes(bytes: &[u8]) -> (r: DecodeResult)
    ensures
        r.wf(),
{
    result_from_parse(image::load_from_memory(bytes))
}

/// Law: for any dimensions and any native color kind, the diagnostic label
/// contains the "WxH" dimension text as a contiguous piece.
pub proof fn lemma_label_contains_dims(width: nat, height: nat, kind: ColorKind)
    ensures
        exists|i: int|
            0 <= i && i + dims_seq(width, height).len() <= label_spec(width, height, kind).len()
                && #[trigger] label_spec(width, height, kind).subrange(
                i,
                i + dims_seq(width, height).len(),
            ) == dims_seq(width, height),
{
    reveal_strlit("widthxheight=");
    let dims = dims_seq(width, height);
    let lab = label_spec(width, height, kind);
    assert(lab.subrange(13, 13 + dims.len() as int) =~= dims);
    assert(0 <= 13 && 13 + dims.len() <= lab.len() && lab.subrange(13, 13 + dims.len() as int)
        == dims);
}

/// Law: the label of any well formed payload contains the "WxH" dimension
/// text of that payload's own dimensions.
pub proof fn lemma_payload_label_contains_dims(payload: ImagePayload)
    requires
        payload.wf(),
    ensures
        exists|i: int|
            0 <= i && i + dims_seq(payload.width as nat, payload.height as nat).len()
                <= payload.label@.len() && #[trigger] payload.label@.subrange(
                i,
                i + dims_seq(payload.width as nat, payload.height as nat).len(),
            ) == dims_seq(payload.width as nat, payload.height as nat),
{
    let kind = choose|kind: ColorKind|
        payload.rgba == alpha_bearing(kind) && payload.label@ == #[trigger] label_spec(
            payload.width as nat,
            payload.height as nat,
            kind,
        );
    lemma_label_contains_dims(payload.width as nat, payload.height as nat, kind);
}

} // verus!
