//! Turning raw stream bytes into text and back.

use vstd::prelude::*;
use vstd::string::StrSliceExecFns;
use vstd::string::StringSliceAdditionalSpecFns;
use vstd::utf8::decode_utf8;
use vstd::utf8::decode_utf8_encode_utf8;
use vstd::utf8::encode_utf8;
use vstd::utf8::encode_utf8_decode_utf8;
use vstd::utf8::valid_utf8;
use vstd::utf8::valid_utf8_concat;

verus! {

/// What one drain of an output stream yields for the host.
#[derive(Debug, PartialEq, Eq)]
pub enum Drained {
    /// No byte arrived since the previous drain.
    Nothing,
    /// The bytes formed valid UTF-8 text, which is carried here.
    Text(String),
    /// The bytes were not valid UTF-8; they are dropped and only their
    /// count is reported.
    Malformed(usize),
}

/// `d` is the outcome of draining exactly the bytes `b`.
pub open spec fn drained_from(d: Drained, b: Seq<u8>) -> bool {
    match d {
        Drained::Nothing => b.len() == 0,
        Drained::Text(s) => b.len() > 0 && valid_utf8(b) && s@ == decode_utf8(b),
        Drained::Malformed(n) => !valid_utf8(b) && n == b.len(),
    }
}

/// The text that the host receives from one drain; none for a malformed
/// chunk.
pub open spec fn drained_text(d: Drained) -> Seq<char> {
    match d {
        Drained::Text(s) => s@,
        _ => Seq::empty(),
    }
}

/// Relies on `String::from_utf8`: it succeeds exactly on valid UTF-8, and the
/// string it returns holds the given bytes.
#[verifier::external_body]
fn utf8_to_string(bytes: Vec<u8>) -> (r: Option<String>)
    ensures
        match r {
            Some(s) => valid_utf8(bytes@) && s@ == decode_utf8(bytes@),
            None => !valid_utf8(bytes@),
        },
{
    String::from_utf8(bytes).ok()
}

/// Classifies the bytes drained from one stream: nothing, text, or a
/// malformed chunk that is dropped.
pub fn decode_chunk(bytes: Vec<u8>) -> (r: Drained)
    ensures
        drained_from(r, bytes@),
{
    let n = bytes.len();
    if n == 0 {
        return Drained::Nothing;
    }
    match utf8_to_string(bytes) {
        Some(s) => Drained::Text(s),
        None => Drained::Malformed(n),
    }
}

/// The bytes that writing `text` to a child's standard input sends.
pub fn encode_text(text: &str) -> (r: Vec<u8>)
    ensures
        r@ == encode_utf8(text@),
{
    text.as_bytes_vec()
}

/// Encoding distributes over concatenation of text.
pub proof fn lemma_encode_concat(a: Seq<char>, b: Seq<char>)
    ensures
        encode_utf8(a + b) == encode_utf8(a) + encode_utf8(b),
    decreases a.len(),
{
    if a.len() == 0 {
        assert(a + b =~= b);
        assert(encode_utf8(a) + encode_utf8(b) =~= encode_utf8(b));
    } else {
        lemma_encode_concat(a.drop_first(), b);
        assert((a + b).drop_first() =~= a.drop_first() + b);
        assert((a + b)[0] == a[0]);
        assert(encode_utf8(a + b) =~= encode_utf8(a) + encode_utf8(b));
    }
}

/// Successive writes forward their bytes in order, with nothing lost or
/// repeated: the bytes sent for the texts one after another are the bytes
/// of their concatenation.
pub proof fn lemma_writes_forward_in_order(texts: Seq<Seq<char>>)
    ensures
        texts.map_values(|t: Seq<char>| encode_utf8(t)).flatten() == encode_utf8(texts.flatten()),
    decreases texts.len(),
{
    let enc = texts.map_values(|t: Seq<char>| encode_utf8(t));
    if texts.len() == 0 {
        assert(enc.flatten() =~= encode_utf8(texts.flatten()));
    } else {
        let rest = texts.drop_first();
        lemma_writes_forward_in_order(rest);
        lemma_encode_concat(texts.first(), rest.flatten());
        assert(enc.drop_first() =~= rest.map_values(|t: Seq<char>| encode_utf8(t)));
    }
}

/// Draining a stream several times loses and repeats nothing: when each
/// drained chunk is valid text, the texts decoded chunk by chunk, put end to
/// end, are the text of the whole stream.
pub proof fn lemma_drained_text_reassembles(chunks: Seq<Seq<u8>>)
    requires
        forall|i: int| 0 <= i < chunks.len() ==> valid_utf8(#[trigger] chunks[i]),
    ensures
        valid_utf8(chunks.flatten()),
        chunks.map_values(|c: Seq<u8>| decode_utf8(c)).flatten() == decode_utf8(chunks.flatten()),
    decreases chunks.len(),
{
    let dec = chunks.map_values(|c: Seq<u8>| decode_utf8(c));
    if chunks.len() == 0 {
        assert(dec.flatten() =~= decode_utf8(chunks.flatten()));
    } else {
        let first = chunks.first();
        let rest = chunks.drop_first();
        assert forall|i: int| 0 <= i < rest.len() implies valid_utf8(#[trigger] rest[i]) by {
            assert(rest[i] == chunks[i + 1]);
        }
        lemma_drained_text_reassembles(rest);
        assert(valid_utf8(first));
        valid_utf8_concat(first, rest.flatten());
        assert(dec.drop_first() =~= rest.map_values(|c: Seq<u8>| decode_utf8(c)));
        let d0 = decode_utf8(first);
        let dr = decode_utf8(rest.flatten());
        decode_utf8_encode_utf8(first);
        decode_utf8_encode_utf8(rest.flatten());
        lemma_encode_concat(d0, dr);
        encode_utf8_decode_utf8(d0 + dr);
    }
}

/// What the host receives over successive drains of one stream is that
/// stream, each byte once and in order: when no drain was malformed, the
/// texts received, put end to end, are the decoding of all the bytes
/// drained.
pub proof fn lemma_drains_deliver_stream(ds: Seq<Drained>, chunks: Seq<Seq<u8>>)
    requires
        ds.len() == chunks.len(),
        forall|i: int| 0 <= i < ds.len() ==> drained_from(#[trigger] ds[i], chunks[i]),
        forall|i: int| 0 <= i < ds.len() ==> !(#[trigger] ds[i] is Malformed),
    ensures
        valid_utf8(chunks.flatten()),
        ds.map_values(|d: Drained| drained_text(d)).flatten() == decode_utf8(chunks.flatten()),
{
    let texts = ds.map_values(|d: Drained| drained_text(d));
    let dec = chunks.map_values(|c: Seq<u8>| decode_utf8(c));
    assert forall|i: int| 0 <= i < chunks.len() implies valid_utf8(#[trigger] chunks[i]) by {
        assert(drained_from(ds[i], chunks[i]));
        assert(!(ds[i] is Malformed));
    }
    assert forall|i: int| 0 <= i < ds.len() implies #[trigger] texts[i] == dec[i] by {
        assert(drained_from(ds[i], chunks[i]));
        if ds[i] is Nothing {
            assert(chunks[i] =~= Seq::<u8>::empty());
        }
    }
    assert(texts =~= dec);
    lemma_drained_text_reassembles(chunks);
}

} // verus!
