//! Data URLs: a MIME type and the base64 text of some bytes in one string.

use base64::engine::general_purpose::STANDARD;
use base64::Engine;
use vstd::prelude::*;
use vstd::string::StringExecFns;

verus! {

/// The character that stands for `sextet` (0 to 63) in the standard base64
/// alphabet: `A`-`Z`, `a`-`z`, `0`-`9`, `+`, `/`.
pub open spec fn base64_char(sextet: int) -> char {
    if sextet < 26 {
        (0x41 + sextet) as char
    } else if sextet < 52 {
        (0x61 + sextet - 26) as char
    } else if sextet < 62 {
        (0x30 + sextet - 52) as char
    } else if sextet == 62 {
        '+'
    } else {
        '/'
    }
}

/// The standard base64 text of `data`, padded with `=` to a multiple of four
/// characters: every three bytes give four characters of six bits each.
pub open spec fn base64_text(data: Seq<u8>) -> Seq<char>
    decreases data.len(),
{
    if data.len() == 0 {
        seq![]
    } else if data.len() == 1 {
        let a = data[0] as int;
        seq![base64_char(a / 4), base64_char(a % 4 * 16), '=', '=']
    } else if data.len() == 2 {
        let a = data[0] as int;
        let b = data[1] as int;
        seq![base64_char(a / 4), base64_char(a % 4 * 16 + b / 16), base64_char(b % 16 * 4), '=']
    } else {
        let a = data[0] as int;
        let b = data[1] as int;
        let c = data[2] as int;
        seq![
            base64_char(a / 4),
            base64_char(a % 4 * 16 + b / 16),
            base64_char(b % 16 * 4 + c / 64),
            base64_char(c % 64),
        ] + base64_text(data.skip(3))
    }
}

/// The length of the base64 text of `len` bytes.
pub open spec fn base64_len(len: nat) -> nat {
    4 * ((len + 2) / 3) as nat
}

/// The data URL that carries `data` under the MIME type `mime`.
pub open spec fn data_url_text(mime: Seq<char>, data: Seq<u8>) -> Seq<char> {
    "data:"@ + mime + ";base64,"@ + base64_text(data)
}

/// Is `c` a character of the standard base64 alphabet?
pub open spec fn in_base64_alphabet(c: char) -> bool {
    ||| 'A' <= c <= 'Z'
    ||| 'a' <= c <= 'z'
    ||| '0' <= c <= '9'
    ||| c == '+'
    ||| c == '/'
}

/// The base64 text of `data` has `base64_len` characters, each from the
/// alphabet or the padding `=`.
pub proof fn lemma_base64_text_shape(data: Seq<u8>)
    ensures
        base64_text(data).len() == base64_len(data.len()),
        forall|i: int|
            0 <= i < base64_text(data).len() ==> in_base64_alphabet(#[trigger] base64_text(data)[i])
                || base64_text(data)[i] == '=',
    decreases data.len(),
{
    assert forall|sextet: int| 0 <= sextet < 64 implies in_base64_alphabet(
        #[trigger] base64_char(sextet),
    ) by {}
    if data.len() >= 3 {
        lemma_base64_text_shape(data.skip(3));
    }
}

/// A data URL begins with `data:`, the MIME type and `;base64,`; the base64
/// text of its bytes follows.
pub proof fn lemma_data_url_shape(mime: Seq<char>, data: Seq<u8>)
    ensures
        ("data:"@ + mime + ";base64,"@).is_prefix_of(data_url_text(mime, data)),
        data_url_text(mime, data).len() == 13 + mime.len() + base64_len(data.len()),
        data_url_text(mime, data).skip(13 + mime.len() as int) == base64_text(data),
{
    reveal_strlit("data:");
    reveal_strlit(";base64,");
    lemma_base64_text_shape(data);
    let head = "data:"@ + mime + ";base64,"@;
    assert(data_url_text(mime, data).subrange(0, head.len() as int) =~= head);
    assert(data_url_text(mime, data).skip(13 + mime.len() as int) =~= base64_text(data));
}

/// Calls `base64::Engine::encode` on the `STANDARD` engine. The contract
/// claims that the result is the padded base64 text of RFC 4648 in the
/// standard alphabet. The call panics where the text's length does not fit a
/// `usize`, hence the `requires`.
#[verifier::external_body]
pub(crate) fn encode_base64(data: &[u8]) -> (text: String)
    requires
        base64_len(data@.len()) <= usize::MAX,
    ensures
        text@ == base64_text(data@),
{
    STANDARD.encode(data)
}

/// Can `len` bytes be carried in a data URL on this machine?
pub fn fits_data_url(len: usize) -> (fits: bool)
    ensures
        fits == (base64_len(len as nat) <= usize::MAX),
{
    let groups: usize = if len % 3 == 0 {
        len / 3
    } else {
        len / 3 + 1
    };
    groups <= usize::MAX / 4
}

/// Builds the data URL `data:<mime_type>;base64,<base64 of image_data>`.
pub fn vec_to_data_url(image_data: Vec<u8>, mime_type: &str) -> (url: String)
    requires
        base64_len(image_data@.len()) <= usize::MAX,
    ensures
        url@ == data_url_text(mime_type@, image_data@),
{
    let encoded: String = encode_base64(image_data.as_slice());
    let mut url: String = String::from_str("data:");
    url.append(mime_type);
    url.append(";base64,");
    url.append(encoded.as_str());
    url
}

} // verus!
