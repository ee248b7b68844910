//! The byte payload of a submission: every content text, in order, encoded as
//! UTF-8 and joined with nothing in between.

use vstd::prelude::*;
use vstd::string::StrSliceExecFns;
use vstd::utf8::encode_utf8;

verus! {

/// The texts of a content list, in order.
pub open spec fn texts(contents: Seq<String>) -> Seq<Seq<char>> {
    contents.map_values(|s: String| s@)
}

/// The payload of a list of texts: the UTF-8 encoding of the texts joined
/// without any separator.
pub open spec fn payload_bytes(texts: Seq<Seq<char>>) -> Seq<u8> {
    encode_utf8(texts.flatten())
}

/// UTF-8 encoding distributes over concatenation.
pub proof fn lemma_encode_utf8_concat(a: Seq<char>, b: Seq<char>)
    ensures
        encode_utf8(a + b) == encode_utf8(a) + encode_utf8(b),
    decreases a.len(),
{
    if a.len() == 0 {
        assert(a + b =~= b);
        assert(encode_utf8(a) =~= Seq::<u8>::empty());
    } else {
        assert((a + b).drop_first() =~= a.drop_first() + b);
        assert((a + b)[0] == a[0]);
        lemma_encode_utf8_concat(a.drop_first(), b);
    }
}

/// The payload of two content lists, one after the other, is the payload of
/// the first followed by the payload of the second.
pub proof fn lemma_payload_concat(first: Seq<Seq<char>>, second: Seq<Seq<char>>)
    ensures
        payload_bytes(first + second) == payload_bytes(first) + payload_bytes(second),
{
    vstd::seq_lib::lemma_flatten_concat(first, second);
    lemma_encode_utf8_concat(first.flatten(), second.flatten());
}

/// Where a text is cut into fields does not show in the payload: two texts
/// in two fields give the bytes of the joined text in one field.
pub proof fn lemma_payload_ignores_cut(first: Seq<char>, second: Seq<char>)
    ensures
        payload_bytes(seq![first, second]) == payload_bytes(seq![first + second]),
        payload_bytes(seq![first, second]) == encode_utf8(first) + encode_utf8(second),
{
    seq![first].lemma_flatten_push(second);
    assert(seq![first].push(second) =~= seq![first, second]);
    seq![first].lemma_flatten_singleton();
    seq![first + second].lemma_flatten_singleton();
    lemma_encode_utf8_concat(first, second);
}

/// Joins the UTF-8 bytes of every string of `contents`, in order.
pub fn concat_contents(contents: &Vec<String>) -> (payload: Vec<u8>)
    ensures
        payload@ == payload_bytes(texts(contents@)),
{
    let mut payload: Vec<u8> = Vec::new();
    let n: usize = contents.len();
    let mut i: usize = 0;
    assert(texts(contents@).take(0) =~= Seq::<Seq<char>>::empty());
    while i < n
        invariant
            n == contents@.len(),
            i <= n,
            payload@ == payload_bytes(texts(contents@).take(i as int)),
        decreases n - i,
    {
        let mut part: Vec<u8> = contents[i].as_str().as_bytes_vec();
        proof {
            let all = texts(contents@);
            let done = all.take(i as int);
            assert(all.take(i + 1) =~= done.push(all[i as int]));
            done.lemma_flatten_push(all[i as int]);
            lemma_encode_utf8_concat(done.flatten(), all[i as int]);
        }
        payload.append(&mut part);
        i = i + 1;
    }
    assert(texts(contents@).take(n as int) =~= texts(contents@));
    payload
}

} // verus!
