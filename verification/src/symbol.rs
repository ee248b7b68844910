//! The QR symbol of a payload and its PNG rendering. Both are computed by the
//! `fast_qr` crate; this module states what the library relies on.

use fast_qr::convert::image::{ImageBuilder, ImageError};
use fast_qr::convert::{Builder, Shape};
use fast_qr::qr::QRCodeError;
use fast_qr::{Module, QRBuilder, QRCode, Version, ECL};
use vstd::prelude::*;

verus! {

/// `fast_qr::QRCode`: a symbol, carried from the encoder to the renderer.
#[verifier::external_type_specification]
#[verifier::external_body]
pub struct ExQRCode(QRCode);

/// `fast_qr::Module`: one cell of a symbol. Nothing here handles one; the
/// symbol's index operator names the type.
#[verifier::external_type_specification]
#[verifier::external_body]
pub struct ExModule(Module);

/// `fast_qr::qr::QRCodeError`: why the encoder refused.
#[verifier::external_type_specification]
#[verifier::external_body]
pub struct ExQRCodeError(QRCodeError);

/// `fast_qr::convert::image::ImageError`: why the renderer failed.
#[verifier::external_type_specification]
#[verifier::external_body]
pub struct ExImageError(ImageError);

/// The three ways a symbol can hold its payload.
#[derive(Clone, Copy, Debug, PartialEq, Eq, Structural)]
pub enum EncodingMode {
    /// Decimal digits only.
    Numeric,
    /// Digits, upper-case letters and the nine marks ` $%*+-./:`.
    Alphanumeric,
    /// Any bytes.
    Byte,
}

/// Is `byte` an ASCII decimal digit?
pub open spec fn is_digit(byte: u8) -> bool {
    0x30 <= byte <= 0x39
}

/// Is `byte` in the alphanumeric set of the QR standard?
pub open spec fn is_alphanumeric(byte: u8) -> bool {
    ||| is_digit(byte)
    ||| 0x41 <= byte <= 0x5a
    ||| byte == 0x20
    ||| byte == 0x24
    ||| byte == 0x25
    ||| byte == 0x2a
    ||| byte == 0x2b
    ||| byte == 0x2d
    ||| byte == 0x2e
    ||| byte == 0x2f
    ||| byte == 0x3a
}

/// The densest mode that can hold every byte of `payload`.
pub open spec fn mode_of(payload: Seq<u8>) -> EncodingMode {
    if forall|i: int| 0 <= i < payload.len() ==> is_digit(#[trigger] payload[i]) {
        EncodingMode::Numeric
    } else if forall|i: int| 0 <= i < payload.len() ==> is_alphanumeric(#[trigger] payload[i]) {
        EncodingMode::Alphanumeric
    } else {
        EncodingMode::Byte
    }
}

/// How many payload bytes a version 10 symbol holds at error-correction
/// level H, by mode.
pub open spec fn capacity(mode: EncodingMode) -> nat {
    match mode {
        EncodingMode::Numeric => 288,
        EncodingMode::Alphanumeric => 174,
        EncodingMode::Byte => 119,
    }
}

/// Does `payload` fit a version 10 symbol at error-correction level H?
pub open spec fn fits_symbol(payload: Seq<u8>) -> bool {
    payload.len() <= capacity(mode_of(payload))
}

/// A payload of at most 119 bytes fits whatever it holds, and one of more
/// than 288 bytes never fits.
pub proof fn lemma_fits_by_length(payload: Seq<u8>)
    ensures
        payload.len() <= 119 ==> fits_symbol(payload),
        payload.len() > 288 ==> !fits_symbol(payload),
{
}

/// Finds the densest mode that can hold every byte of `payload`.
pub fn encoding_mode(payload: &[u8]) -> (mode: EncodingMode)
    ensures
        mode == mode_of(payload@),
{
    let n: usize = payload.len();
    let mut digits: bool = true;
    let mut i: usize = 0;
    while i < n
        invariant
            n == payload@.len(),
            i <= n,
            digits == (forall|j: int| 0 <= j < i ==> is_digit(#[trigger] payload@[j])),
            forall|j: int| 0 <= j < i ==> is_alphanumeric(#[trigger] payload@[j]),
        decreases n - i,
    {
        let byte: u8 = payload[i];
        let digit: bool = 0x30 <= byte && byte <= 0x39;
        let mark: bool = byte == 0x20 || byte == 0x24 || byte == 0x25 || byte == 0x2a || byte
            == 0x2b || byte == 0x2d || byte == 0x2e || byte == 0x2f || byte == 0x3a;
        if !digit && !mark && !(0x41 <= byte && byte <= 0x5a) {
            assert(!is_alphanumeric(payload@[i as int]));
            assert(!is_digit(payload@[i as int]));
            return EncodingMode::Byte;
        }
        if !digit {
            assert(!is_digit(payload@[i as int]));
            digits = false;
        }
        i = i + 1;
    }
    if digits {
        EncodingMode::Numeric
    } else {
        EncodingMode::Alphanumeric
    }
}

/// Does `payload` fit a version 10 symbol at error-correction level H?
pub fn payload_fits(payload: &[u8]) -> (fits: bool)
    ensures
        fits == fits_symbol(payload@),
{
    let limit: usize = match encoding_mode(payload) {
        EncodingMode::Numeric => 288,
        EncodingMode::Alphanumeric => 174,
        EncodingMode::Byte => 119,
    };
    payload.len() <= limit
}

/// The largest side, in pixels, of an image: four bytes for each pixel of a
/// row must fit 31 bits.
pub const MAX_SIDE: u32 = 536_870_911;

/// The side of the image that fits `width` by `height` pixels: the symbol is
/// square, so its image is a square on the smaller of the two.
pub open spec fn image_side(width: u32, height: u32) -> u32 {
    if width <= height {
        width
    } else {
        height
    }
}

/// Can an image be made to fit `width` by `height` pixels? Neither may be 0,
/// the side of the image may not exceed `MAX_SIDE`, and the length of its
/// pixel buffer, four bytes a pixel, must fit a `usize`.
pub open spec fn valid_dimensions(width: u32, height: u32) -> bool {
    &&& 1 <= image_side(width, height) <= MAX_SIDE
    &&& 4 * image_side(width, height) * image_side(width, height) <= usize::MAX
}

/// The number of modules along each side of a version 10 symbol.
pub const SYMBOL_SIZE: u32 = 57;

/// The modules of a symbol, row by row from the top left: one `bool` for each
/// of its size times size cells, `true` where the cell is dark.
pub uninterp spec fn symbol_modules(code: QRCode) -> Seq<bool>;

/// The modules of the version 10, level H symbol that encodes `payload`.
pub uninterp spec fn encoded_modules(payload: Seq<u8>) -> Seq<bool>;

/// The PNG file that shows `modules` as rounded squares on `background`
/// (red, green, blue, alpha), scaled to fit `width` by `height` pixels;
/// `None` where the image cannot be encoded.
pub uninterp spec fn png_rendering(
    modules: Seq<bool>,
    background: Seq<u8>,
    width: u32,
    height: u32,
) -> Option<Seq<u8>>;

/// Calls `fast_qr::QRBuilder::build` with error-correction level H and
/// version 10 forced. The contract claims that the call succeeds exactly on
/// the payloads that `fits_symbol` admits (the crate picks the smallest
/// version from the same capacity table and refuses when it exceeds the
/// forced one), that the symbol has 57 modules a side, and that its modules
/// depend on the payload alone.
#[verifier::external_body]
pub(crate) fn build_symbol(payload: Vec<u8>) -> (built: Result<QRCode, QRCodeError>)
    ensures
        built is Ok <==> fits_symbol(payload@),
        built matches Ok(code) ==> symbol_modules(code) == encoded_modules(payload@)
            && symbol_modules(code).len() == SYMBOL_SIZE * SYMBOL_SIZE,
{
    QRBuilder::new(payload).ecl(ECL::H).version(Version::V10).build()
}

/// Calls `fast_qr::convert::image::ImageBuilder::to_bytes` with the
/// rounded-square shape, the given background and both fit bounds set. The
/// call panics where a bound is 0, where the smaller bound is more than a
/// quarter of `i32::MAX`, and where the length of the pixel buffer does not
/// fit a `usize`, hence the `requires`; whether the machine has the memory
/// for the buffer is left aside. The contract claims that the bytes depend
/// only on the symbol's modules, the background and the bounds.
#[verifier::external_body]
pub(crate) fn render_png(code: &QRCode, background: [u8; 4], width: u32, height: u32) -> (image:
    Result<Vec<u8>, ImageError>)
    requires
        symbol_modules(*code).len() == SYMBOL_SIZE * SYMBOL_SIZE,
        valid_dimensions(width, height),
    ensures
        match image {
            Ok(png) => png_rendering(symbol_modules(*code), background@, width, height) == Some(
                png@,
            ),
            Err(_) => png_rendering(symbol_modules(*code), background@, width, height) is None,
        },
{
    ImageBuilder::default()
        .shape(Shape::RoundedSquare)
        .fit_height(height)
        .fit_width(width)
        .background_color(background)
        .to_bytes(code)
}

/// The two texts with which the encoder refuses a payload.
pub open spec fn is_encoder_refusal(words: Seq<char>) -> bool {
    words == "Data too big to be encoded"@ || words
        == "Specified version too low to contain data"@
}

/// Calls `to_string` on a `fast_qr::qr::QRCodeError`, which runs its
/// `Display::fmt`. The contract claims that the text is one of the two that
/// the crate writes for its two errors.
#[verifier::external_body]
pub(crate) fn encoder_words(error: &QRCodeError) -> (words: String)
    ensures
        is_encoder_refusal(words@),
{
    error.to_string()
}

/// Calls `to_string` on a `fast_qr::convert::image::ImageError`, which runs
/// its `Display::fmt`. The text is that of the error inside; nothing is
/// claimed of it.
#[verifier::external_body]
pub(crate) fn renderer_words(error: &ImageError) -> (words: String) {
    error.to_string()
}

} // verus!
