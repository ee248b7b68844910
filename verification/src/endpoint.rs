//! The two image endpoints: from content strings and optional dimensions to a
//! data URL, or to the one error that callers are shown.

use crate::data_url::{base64_len, data_url_text, fits_data_url, vec_to_data_url};
use crate::payload::{concat_contents, payload_bytes, texts};
use crate::symbol::{
    build_symbol, encoded_modules, encoder_words, fits_symbol, image_side, is_encoder_refusal,
    png_rendering, render_png, renderer_words, valid_dimensions, MAX_SIDE,
};
use vstd::prelude::*;

verus! {

/// The width and the height of an image where the request names none.
pub const DEFAULT_DIMENSION: u32 = 512;

/// The content of the fixed endpoint's symbol.
pub const FIXED_CONTENT: &'static str = "https://example12374547.com/";

/// The MIME type of every image.
pub const IMAGE_MIME: &'static str = "image/png";

/// The message of every error.
pub const FAILURE_MESSAGE: &'static str = "Error with the title or post!";

/// Why no image was made.
#[derive(Clone, Copy, Debug, PartialEq, Eq, Structural)]
pub enum Failure {
    /// The payload does not fit the symbol.
    Encoding,
    /// The symbol could not be turned into an image of the asked size.
    Rasterization,
}

/// What went wrong, in full: for the log of the server, not for the caller.
#[derive(Clone, Debug, PartialEq, Eq)]
pub enum Cause {
    /// The encoder refused the payload; its own words.
    Encoder(String),
    /// No image can be made to fit these dimensions.
    Dimensions { width: u32, height: u32 },
    /// The renderer failed; its own words.
    Renderer(String),
    /// The image has this many bytes, too many for a data URL on this
    /// machine.
    Length(usize),
}

/// The kind of failure that `cause` belongs to.
pub open spec fn failure_of(cause: Cause) -> Failure {
    match cause {
        Cause::Encoder(_) => Failure::Encoding,
        _ => Failure::Rasterization,
    }
}

impl Cause {
    /// The kind of failure that the cause belongs to.
    pub fn failure(&self) -> (failure: Failure)
        ensures
            failure == failure_of(*self),
    {
        match self {
            Cause::Encoder(_) => Failure::Encoding,
            _ => Failure::Rasterization,
        }
    }
}

/// The error of both endpoints. It carries the same message whatever went
/// wrong.
#[derive(Clone, Debug, PartialEq, Eq)]
pub struct QrError {
    pub message: String,
}

impl View for QrError {
    type V = Seq<char>;

    open spec fn view(&self) -> Seq<char> {
        self.message@
    }
}

/// A response together with what the server is to log: the cause, where the
/// response is the error.
#[derive(Debug, PartialEq, Eq)]
pub struct Outcome {
    pub response: Result<String, QrError>,
    pub cause: Option<Cause>,
}

/// What a form submits: the content strings in display order and the
/// dimensions, where given.
#[derive(Clone, Debug)]
pub struct QRInfoType {
    pub contents: Vec<String>,
    pub width: Option<u32>,
    pub height: Option<u32>,
}

/// A request as a mathematical value.
pub struct RequestModel {
    pub contents: Seq<Seq<char>>,
    pub width: Option<u32>,
    pub height: Option<u32>,
}

impl View for QRInfoType {
    type V = RequestModel;

    open spec fn view(&self) -> RequestModel {
        RequestModel { contents: texts(self.contents@), width: self.width, height: self.height }
    }
}

impl Default for QRInfoType {
    /// The request with no contents and no dimensions.
    fn default() -> (request: Self)
        ensures
            request@ == (RequestModel { contents: Seq::empty(), width: None, height: None }),
    {
        let request = QRInfoType { contents: Vec::new(), width: None, height: None };
        assert(texts(request.contents@) =~= Seq::<Seq<char>>::empty());
        request
    }
}

/// The background of every image: opaque white, as red, green, blue, alpha.
pub const BACKGROUND: [u8; 4] = [255, 255, 255, 255];

/// A dimension as asked for, or the default.
pub open spec fn dimension_or_default(dimension: Option<u32>) -> u32 {
    match dimension {
        Some(pixels) => pixels,
        None => DEFAULT_DIMENSION,
    }
}

/// The PNG image of `payload` at `width` by `height`, or why there is none.
pub open spec fn image_outcome(payload: Seq<u8>, width: u32, height: u32) -> Result<
    Seq<u8>,
    Failure,
> {
    if !fits_symbol(payload) {
        Err(Failure::Encoding)
    } else if !valid_dimensions(width, height) {
        Err(Failure::Rasterization)
    } else {
        match png_rendering(encoded_modules(payload), BACKGROUND@, width, height) {
            Some(png) => Ok(png),
            None => Err(Failure::Rasterization),
        }
    }
}

/// Is `cause` what keeps `payload` from becoming a data URL at `width` by
/// `height`? The renderer's words are its own and are not held to anything.
pub open spec fn explains(cause: Cause, payload: Seq<u8>, width: u32, height: u32) -> bool {
    match cause {
        Cause::Encoder(words) => !fits_symbol(payload) && is_encoder_refusal(words@),
        Cause::Dimensions { width: asked_width, height: asked_height } => {
            &&& fits_symbol(payload)
            &&& !valid_dimensions(width, height)
            &&& asked_width == width
            &&& asked_height == height
        },
        Cause::Renderer(_) => {
            &&& fits_symbol(payload)
            &&& valid_dimensions(width, height)
            &&& png_rendering(encoded_modules(payload), BACKGROUND@, width, height) is None
        },
        Cause::Length(len) => {
            &&& fits_symbol(payload)
            &&& valid_dimensions(width, height)
            &&& png_rendering(encoded_modules(payload), BACKGROUND@, width, height) matches Some(
                png,
            )
            &&& png.len() == len
            &&& base64_len(png.len()) > usize::MAX
        },
    }
}

/// The response for an image or a failure: the data URL of the image
/// (`Ok`), or the fixed message (`Err`).
pub open spec fn response_text(image: Result<Seq<u8>, Failure>) -> Result<Seq<char>, Seq<char>> {
    match image {
        Ok(png) => if base64_len(png.len()) <= usize::MAX {
            Ok(data_url_text(IMAGE_MIME@, png))
        } else {
            Err(FAILURE_MESSAGE@)
        },
        Err(_) => Err(FAILURE_MESSAGE@),
    }
}

/// The response to a request with the given texts and dimensions.
pub open spec fn post_response(
    contents: Seq<Seq<char>>,
    width: Option<u32>,
    height: Option<u32>,
) -> Result<Seq<char>, Seq<char>> {
    response_text(
        image_outcome(
            payload_bytes(contents),
            dimension_or_default(width),
            dimension_or_default(height),
        ),
    )
}

/// The response of the fixed endpoint.
pub open spec fn fixed_response() -> Result<Seq<char>, Seq<char>> {
    post_response(seq![FIXED_CONTENT@], None, None)
}

/// A response as text: the URL, or the error's message.
pub open spec fn response_view(response: Result<String, QrError>) -> Result<Seq<char>, Seq<char>> {
    match response {
        Ok(url) => Ok(url@),
        Err(error) => Err(error@),
    }
}

/// Can an image be made to fit `width` by `height` pixels?
pub fn dimensions_valid(width: u32, height: u32) -> (valid: bool)
    ensures
        valid == valid_dimensions(width, height),
{
    let side: u32 = if width <= height {
        width
    } else {
        height
    };
    if side == 0 || side > MAX_SIDE {
        return false;
    }
    let side: u64 = side as u64;
    assert(side * side <= 536_870_911 * 536_870_911) by (nonlinear_arith)
        requires
            0 <= side <= 536_870_911,
    ;
    assert(4 * image_side(width, height) * image_side(width, height) == 4 * (side * side))
        by (nonlinear_arith)
        requires
            image_side(width, height) == side,
    ;
    4 * (side * side) <= usize::MAX as u64
}

/// Encodes `payload` as a version 10, level H symbol and renders it as a PNG
/// that fits `width` by `height` pixels, with rounded modules on opaque
/// white. Where there is no image, the cause says why.
pub fn render_payload(payload: Vec<u8>, width: u32, height: u32) -> (image: Result<Vec<u8>, Cause>)
    ensures
        match image {
            Ok(png) => image_outcome(payload@, width, height) == Ok::<Seq<u8>, Failure>(png@),
            Err(cause) => {
                &&& explains(cause, payload@, width, height)
                &&& !(cause is Length)
                &&& image_outcome(payload@, width, height) == Err::<Seq<u8>, Failure>(
                    failure_of(cause),
                )
            },
        },
{
    match build_symbol(payload) {
        Err(error) => Err(Cause::Encoder(encoder_words(&error))),
        Ok(code) => {
            if !dimensions_valid(width, height) {
                Err(Cause::Dimensions { width, height })
            } else {
                match render_png(&code, BACKGROUND, width, height) {
                    Ok(png) => Ok(png),
                    Err(error) => Err(Cause::Renderer(renderer_words(&error))),
                }
            }
        },
    }
}

/// Turns the outcome of rendering into the endpoint's response: a data URL
/// for an image, the fixed message for any failure. An image too long for a
/// data URL on this machine counts as a failure. The cause goes along, for
/// the log.
pub fn respond(image: Result<Vec<u8>, Cause>) -> (outcome: Outcome)
    ensures
        response_view(outcome.response) == response_text(
            match image {
                Ok(png) => Ok(png@),
                Err(cause) => Err(failure_of(cause)),
            },
        ),
        outcome.cause == match image {
            Ok(png) => if base64_len(png@.len()) <= usize::MAX {
                None
            } else {
                Some(Cause::Length(png.len()))
            },
            Err(cause) => Some(cause),
        },
{
    match image {
        Ok(png) => {
            let len: usize = png.len();
            if fits_data_url(len) {
                Outcome { response: Ok(vec_to_data_url(png, IMAGE_MIME)), cause: None }
            } else {
                Outcome {
                    response: Err(QrError { message: FAILURE_MESSAGE.to_owned() }),
                    cause: Some(Cause::Length(len)),
                }
            }
        },
        Err(cause) => Outcome {
            response: Err(QrError { message: FAILURE_MESSAGE.to_owned() }),
            cause: Some(cause),
        },
    }
}

/// The fixed endpoint with the cause of a failure beside the response.
pub fn qr_code_get_with_cause() -> (outcome: Outcome)
    ensures
        response_view(outcome.response) == fixed_response(),
        outcome.cause is None <==> outcome.response is Ok,
        outcome.cause matches Some(cause) ==> explains(
            cause,
            payload_bytes(seq![FIXED_CONTENT@]),
            DEFAULT_DIMENSION,
            DEFAULT_DIMENSION,
        ),
{
    let mut contents: Vec<String> = Vec::new();
    contents.push(FIXED_CONTENT.to_owned());
    assert(texts(contents@) =~= seq![FIXED_CONTENT@]);
    qr_code_post_with_cause(contents, None, None)
}

/// The parameterized endpoint with the cause of a failure beside the
/// response.
pub fn qr_code_post_with_cause(
    contents: Vec<String>,
    width: Option<u32>,
    height: Option<u32>,
) -> (outcome: Outcome)
    ensures
        response_view(outcome.response) == post_response(texts(contents@), width, height),
        outcome.cause is None <==> outcome.response is Ok,
        outcome.cause matches Some(cause) ==> explains(
            cause,
            payload_bytes(texts(contents@)),
            dimension_or_default(width),
            dimension_or_default(height),
        ),
{
    let payload: Vec<u8> = concat_contents(&contents);
    let width: u32 = match width {
        Some(pixels) => pixels,
        None => DEFAULT_DIMENSION,
    };
    let height: u32 = match height {
        Some(pixels) => pixels,
        None => DEFAULT_DIMENSION,
    };
    respond(render_payload(payload, width, height))
}

/// The fixed endpoint: the image of one fixed URL at the default size. Every
/// call gives the same response.
pub fn qr_code_get() -> (response: Result<String, QrError>)
    ensures
        response_view(response) == fixed_response(),
{
    qr_code_get_with_cause().response
}

/// The parameterized endpoint: the image of the joined `contents`, made to
/// fit `width` by `height` pixels, each 512 where `None`.
pub fn qr_code_post(contents: Vec<String>, width: Option<u32>, height: Option<u32>) -> (response:
    Result<String, QrError>)
    ensures
        response_view(response) == post_response(texts(contents@), width, height),
{
    qr_code_post_with_cause(contents, width, height).response
}

/// No response depends on how the text is cut into content strings: lists
/// that join to the same text get the same response.
pub proof fn lemma_response_ignores_cuts(
    first: Seq<Seq<char>>,
    second: Seq<Seq<char>>,
    width: Option<u32>,
    height: Option<u32>,
)
    requires
        first.flatten() == second.flatten(),
    ensures
        payload_bytes(first) == payload_bytes(second),
        post_response(first, width, height) == post_response(second, width, height),
{
}

/// A dimension left out counts as 512.
pub proof fn lemma_default_dimensions(
    contents: Seq<Seq<char>>,
    width: Option<u32>,
    height: Option<u32>,
)
    ensures
        post_response(contents, None, height) == post_response(contents, Some(512), height),
        post_response(contents, width, None) == post_response(contents, width, Some(512)),
        post_response(contents, None, None) == post_response(contents, Some(512), Some(512)),
{
}

/// A payload that does not fit the symbol gets the error, whatever the
/// dimensions.
pub proof fn lemma_oversized_payload_fails(
    contents: Seq<Seq<char>>,
    width: Option<u32>,
    height: Option<u32>,
)
    requires
        !fits_symbol(payload_bytes(contents)),
    ensures
        post_response(contents, width, height) == Err::<Seq<char>, Seq<char>>(FAILURE_MESSAGE@),
{
}

/// A payload that fits the symbol gets a data URL that begins with
/// `data:image/png;base64,`, at any dimensions that an image can be made to
/// fit, provided the renderer produces an image and the image can be carried
/// in a data URL.
pub proof fn lemma_fitting_payload_succeeds(
    contents: Seq<Seq<char>>,
    width: Option<u32>,
    height: Option<u32>,
)
    requires
        fits_symbol(payload_bytes(contents)),
        valid_dimensions(dimension_or_default(width), dimension_or_default(height)),
        png_rendering(
            encoded_modules(payload_bytes(contents)),
            BACKGROUND@,
            dimension_or_default(width),
            dimension_or_default(height),
        ) matches Some(png) && base64_len(png.len()) <= usize::MAX,
    ensures
        post_response(contents, width, height) matches Ok(url)
            && "data:image/png;base64,"@.is_prefix_of(url),
{
    reveal_strlit("data:");
    reveal_strlit("image/png");
    reveal_strlit(";base64,");
    reveal_strlit("data:image/png;base64,");
    let url = post_response(contents, width, height)->Ok_0;
    assert("data:image/png;base64,"@ =~= "data:"@ + IMAGE_MIME@ + ";base64,"@);
    assert(url.subrange(0, 22) =~= "data:image/png;base64,"@);
}

} // verus!
