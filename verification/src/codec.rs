//! Global identifier codec.
//!
//! A global identifier is the URL-safe base64 encoding (with padding) of the
//! UTF-8 bytes of the payload text `type_tag + ":" + local_key`. Encoding
//! never fails; decoding reverses it exactly and reports malformed input.
//! Only the first colon of the payload separates the type tag from the local
//! key, so a local key may itself contain colons.

use base64::Engine;
use vstd::prelude::*;
use vstd::utf8::{encode_utf8, valid_utf8};

verus! {

/// Why a global identifier failed to decode.
#[derive(Clone, Copy, Debug, PartialEq, Eq, Structural)]
pub enum DecodeError {
    /// The input is not URL-safe base64, or its payload is not UTF-8 text.
    InvalidEncoding,
    /// The payload is text but holds no colon separator.
    MalformedId,
}

/// The URL-safe base64 encoding, with padding, of a byte sequence.
pub uninterp spec fn base64_url_of(bytes: Seq<u8>) -> Seq<char>;

/// The payload text from which a global identifier is built.
pub open spec fn payload_of(type_tag: Seq<char>, local_key: Seq<char>) -> Seq<char> {
    type_tag + seq![':'] + local_key
}

/// The global identifier whose payload is the given text.
pub open spec fn global_id_chars(payload: Seq<char>) -> Seq<char> {
    base64_url_of(encode_utf8(payload))
}

/// The global identifier of a (type tag, local key) pair.
pub open spec fn global_id_of(type_tag: Seq<char>, local_key: Seq<char>) -> Seq<char> {
    global_id_chars(payload_of(type_tag, local_key))
}

/// The payload splits as `tag + ":" + key` at its first colon: the tag is
/// everything before the first colon, the key everything after it.
pub open spec fn splits_first(payload: Seq<char>, tag: Seq<char>, key: Seq<char>) -> bool {
    payload == payload_of(tag, key) && !tag.contains(':')
}

/// Relies on base64's `URL_SAFE` engine (`Engine::encode`): it returns the
/// URL-safe base64 encoding, with padding, of the given bytes.
#[verifier::external_body]
fn base64_encode(bytes: &[u8]) -> (r: String)
    ensures
        r@ == base64_url_of(bytes@),
{
    base64::engine::general_purpose::URL_SAFE.encode(bytes)
}

/// Relies on base64's `URL_SAFE` engine (`Engine::decode`): the engine
/// requires canonical padding and refuses trailing bits, so decoding succeeds
/// exactly on the canonical encodings and inverts them.
#[verifier::external_body]
fn base64_decode(encoded: &str) -> (r: Option<Vec<u8>>)
    ensures
        (r matches Some(v) ==> encoded@ == base64_url_of(v@)),
        (r matches Some(v) ==> forall|b: Seq<u8>| encoded@ == #[trigger] base64_url_of(b)
            ==> v@ == b),
        (r is None ==> forall|b: Seq<u8>| encoded@ != #[trigger] base64_url_of(b)),
{
    base64::engine::general_purpose::URL_SAFE.decode(encoded).ok()
}

/// Relies on `String::from_utf8`: it succeeds exactly on valid UTF-8 input
/// and returns the string whose bytes are that input.
#[verifier::external_body]
fn string_from_utf8(bytes: Vec<u8>) -> (r: Option<String>)
    ensures
        (r matches Some(s) ==> bytes@ == encode_utf8(s@)),
        r is Some <==> valid_utf8(bytes@),
{
    String::from_utf8(bytes).ok()
}

/// Encodes a (type tag, local key) pair as a global identifier. Pure and
/// total: any two strings produce a valid identifier.
pub fn encode(type_tag: &str, local_key: &str) -> (r: String)
    ensures
        r@ == global_id_of(type_tag@, local_key@),
{
    let mut payload = type_tag.to_owned();
    payload.append(":");
    payload.append(local_key);
    proof {
        reveal_strlit(":");
        assert(payload@ =~= payload_of(type_tag@, local_key@));
    }
    base64_encode(payload.as_str().as_bytes())
}

/// UTF-8 encoding distinguishes distinct texts.
proof fn lemma_utf8_injective(a: Seq<char>, b: Seq<char>)
    requires
        encode_utf8(a) == encode_utf8(b),
    ensures
        a == b,
{
    vstd::utf8::encode_utf8_decode_utf8(a);
    vstd::utf8::encode_utf8_decode_utf8(b);
}

/// The payload of any pair holds a colon.
proof fn lemma_payload_has_colon(tag: Seq<char>, key: Seq<char>)
    ensures
        payload_of(tag, key).contains(':'),
{
    assert(payload_of(tag, key)[tag.len() as int] == ':');
}

/// Cutting a text at its first colon is a first-colon split.
proof fn lemma_split_at_first_colon(p: Seq<char>, i: int)
    requires
        0 <= i < p.len(),
        p[i] == ':',
        forall|j: int| 0 <= j < i ==> p[j] != ':',
    ensures
        splits_first(p, p.take(i), p.skip(i + 1)),
{
    assert(p =~= p.take(i) + seq![':'] + p.skip(i + 1));
    if p.take(i).contains(':') {
        let j = choose|j: int| 0 <= j < p.take(i).len() && p.take(i)[j] == ':';
        assert(p[j] == ':');
    }
}

/// A text splits at its first colon in only one way.
proof fn lemma_splits_first_unique(
    p: Seq<char>,
    tag1: Seq<char>,
    key1: Seq<char>,
    tag2: Seq<char>,
    key2: Seq<char>,
)
    requires
        splits_first(p, tag1, key1),
        splits_first(p, tag2, key2),
    ensures
        tag1 == tag2,
        key1 == key2,
{
    let l1 = tag1.len() as int;
    let l2 = tag2.len() as int;
    assert(p.len() == l1 + 1 + key1.len());
    assert(p.len() == l2 + 1 + key2.len());
    assert(p[l1] == ':');
    assert(p[l2] == ':');
    if l1 < l2 {
        assert(tag2[l1] == (tag2 + seq![':'] + key2)[l1]);
        assert(tag2.contains(':'));
    }
    if l2 < l1 {
        assert(tag1[l2] == (tag1 + seq![':'] + key1)[l2]);
        assert(tag1.contains(':'));
    }
    assert(l1 == l2);
    assert forall|j: int| 0 <= j < l1 implies tag1[j] == tag2[j] by {
        assert(tag1[j] == (tag1 + seq![':'] + key1)[j]);
        assert(tag2[j] == (tag2 + seq![':'] + key2)[j]);
    }
    assert(tag1 =~= tag2);
    assert forall|j: int| 0 <= j < key1.len() implies key1[j] == key2[j] by {
        assert(key1[j] == (tag1 + seq![':'] + key1)[j + l1 + 1]);
        assert(key2[j] == (tag2 + seq![':'] + key2)[j + l2 + 1]);
    }
    assert(key1 =~= key2);
}

/// Position of the first colon in the text, if any.
fn find_first_colon(s: &str) -> (r: Option<usize>)
    ensures
        (r matches Some(i) ==> i < s@.len() && s@[i as int] == ':' && (forall|j: int|
            0 <= j < i ==> s@[j] != ':')),
        (r is None ==> forall|j: int| 0 <= j < s@.len() ==> s@[j] != ':'),
{
    let n = s.unicode_len();
    let mut i: usize = 0;
    while i < n
        invariant
            i <= n,
            n == s@.len(),
            forall|j: int| 0 <= j < i ==> s@[j] != ':',
        decreases n - i,
    {
        if s.get_char(i) == ':' {
            return Some(i);
        }
        i = i + 1;
    }
    None
}

/// Everything `decode` promises of its result, as a relation between the
/// input identifier and the result.
pub open spec fn decode_post(gid: Seq<char>, r: Result<(String, String), DecodeError>) -> bool {
    &&& (forall|p: Seq<char>| gid == #[trigger] global_id_chars(p) && p.contains(':')
        ==> (r matches Ok(pair) && splits_first(p, pair.0@, pair.1@)))
    &&& (forall|p: Seq<char>| gid == #[trigger] global_id_chars(p) && !p.contains(':')
        ==> r == Err::<(String, String), DecodeError>(DecodeError::MalformedId))
    &&& (forall|tag: Seq<char>, key: Seq<char>|
        gid == #[trigger] global_id_of(tag, key) && !tag.contains(':')
        ==> (r matches Ok(pair) && pair.0@ == tag && pair.1@ == key))
    &&& (r matches Ok(pair) ==> gid == global_id_of(pair.0@, pair.1@) && !pair.0@.contains(':'))
    &&& ((forall|b: Seq<u8>| gid != #[trigger] base64_url_of(b))
        ==> r == Err::<(String, String), DecodeError>(DecodeError::InvalidEncoding))
    &&& (forall|b: Seq<u8>| gid == #[trigger] base64_url_of(b) && !valid_utf8(b)
        ==> r == Err::<(String, String), DecodeError>(DecodeError::InvalidEncoding))
}

/// Decodes a global identifier back into its (type tag, local key) pair.
///
/// Fails with [`DecodeError::InvalidEncoding`] when the input is not
/// URL-safe base64 or its payload is not UTF-8 text, and with
/// [`DecodeError::MalformedId`] when the payload holds no colon. On success
/// the tag is everything before the payload's first colon and the key
/// everything after it, further colons preserved. An empty tag or key is
/// legal.
pub fn decode(global_id: &str) -> (r: Result<(String, String), DecodeError>)
    ensures
        decode_post(global_id@, r),
{
    let ghost gid = global_id@;
    let bytes_opt = base64_decode(global_id);
    let bytes = match bytes_opt {
        Some(b) => b,
        None => {
            proof {
                assert forall|p: Seq<char>| gid != #[trigger] global_id_chars(p) by {
                    assert(gid != base64_url_of(encode_utf8(p)));
                }
            }
            return Err(DecodeError::InvalidEncoding);
        },
    };
    let ghost bs = bytes@;
    proof {
        assert(gid == base64_url_of(bs));
    }
    let text_opt = string_from_utf8(bytes);
    let text = match text_opt {
        Some(t) => t,
        None => {
            proof {
                assert(!valid_utf8(bs));
                assert forall|p: Seq<char>| gid != #[trigger] global_id_chars(p) by {
                    if gid == global_id_chars(p) {
                        assert(bs == encode_utf8(p));
                        vstd::utf8::encode_utf8_valid_utf8(p);
                    }
                }
            }
            return Err(DecodeError::InvalidEncoding);
        },
    };
    let ghost ts = text@;
    proof {
        assert(bs == encode_utf8(ts));
        assert(valid_utf8(bs));
        assert forall|p: Seq<char>| gid == #[trigger] global_id_chars(p) implies p == ts by {
            assert(bs == encode_utf8(p));
            lemma_utf8_injective(p, ts);
        }
    }
    let n = text.as_str().unicode_len();
    match find_first_colon(text.as_str()) {
        None => {
            proof {
                assert forall|tag: Seq<char>, key: Seq<char>|
                    gid != #[trigger] global_id_of(tag, key) by {
                    if gid == global_id_of(tag, key) {
                        assert(payload_of(tag, key) == ts);
                        lemma_payload_has_colon(tag, key);
                        let j = choose|j: int|
                            0 <= j < ts.len() && ts[j] == ':';
                        assert(ts[j] == ':');
                    }
                }
                assert forall|p: Seq<char>|
                    gid == #[trigger] global_id_chars(p) implies !p.contains(':') by {
                    if p.contains(':') {
                        let j = choose|j: int| 0 <= j < p.len() && p[j] == ':';
                        assert(ts[j] == ':');
                    }
                }
            }
            Err(DecodeError::MalformedId)
        },
        Some(i) => {
            let tag = text.as_str().substring_char(0, i).to_owned();
            let key = text.as_str().substring_char(i + 1, n).to_owned();
            proof {
                assert(tag@ =~= ts.take(i as int));
                assert(key@ =~= ts.skip(i as int + 1));
                lemma_split_at_first_colon(ts, i as int);
                assert(ts.contains(':')) by {
                    assert(ts[i as int] == ':');
                }
                assert forall|tag0: Seq<char>, key0: Seq<char>|
                    gid == #[trigger] global_id_of(tag0, key0) && !tag0.contains(':')
                    implies tag0 == tag@ && key0 == key@ by {
                    assert(payload_of(tag0, key0) == ts);
                    lemma_splits_first_unique(ts, tag0, key0, tag@, key@);
                }
                assert(gid == global_id_of(tag@, key@)) by {
                    assert(ts == payload_of(tag@, key@));
                }
            }
            Ok((tag, key))
        },
    }
}

/// Law: decoding an encoded identifier returns the original pair. For every
/// type tag without a colon and every local key (colons allowed), a result
/// that satisfies `decode`'s contract on `encode`'s output is exactly the
/// original pair.
pub proof fn lemma_encode_decode_round_trip(
    tag: Seq<char>,
    key: Seq<char>,
    r: Result<(String, String), DecodeError>,
)
    requires
        !tag.contains(':'),
        decode_post(global_id_of(tag, key), r),
    ensures
        r matches Ok(pair) && pair.0@ == tag && pair.1@ == key,
{
}

} // verus!
