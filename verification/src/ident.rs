//! Artifact identifiers: random (version 4) UUIDs in hyphenated text form.
use vstd::prelude::*;
use crate::text::opt_chars;
use crate::hex::{hex_digit, hex_lower, is_lower_hex_char, lemma_hex_digit_at, lemma_hex_injective, lemma_hex_shape};

verus! {

/// Whether `s` is the hyphenated lower-case text of a version-4 UUID:
/// 36 characters, hyphens at 8, 13, 18 and 23, lower-case hex digits
/// elsewhere, the version digit `4` at 14 and a variant digit `8`-`b` at 19.
pub open spec fn is_uuid_v4_text(s: Seq<char>) -> bool {
    &&& s.len() == 36
    &&& forall|i: int|
        0 <= i < 36 ==> if i == 8 || i == 13 || i == 18 || i == 23 {
            #[trigger] s[i] == '-'
        } else {
            is_lower_hex_char(s[i])
        }
    &&& s[14] == '4'
    &&& (s[19] == '8' || s[19] == '9' || s[19] == 'a' || s[19] == 'b')
}

/// The bytes of the version-4 UUID built from 16 random bytes: the high
/// nibble of byte 6 becomes the version 4, and the top two bits of byte 8
/// become `10` (the RFC 4122 variant).
pub open spec fn uuid_v4_bytes(b: Seq<u8>) -> Seq<u8> {
    b.update(6, (b[6] & 0x0f) | 0x40).update(8, (b[8] & 0x3f) | 0x80)
}

/// 32 hex digits grouped 8-4-4-4-12 with hyphens.
pub open spec fn hyphenated(h: Seq<char>) -> Seq<char> {
    h.subrange(0, 8) + seq!['-'] + h.subrange(8, 12) + seq!['-'] + h.subrange(12, 16) + seq!['-']
        + h.subrange(16, 20) + seq!['-'] + h.subrange(20, 32)
}

/// The hyphenated lower-case text of the version-4 UUID built from `bytes`.
pub open spec fn uuid_v4_text_of(bytes: Seq<u8>) -> Seq<char> {
    hyphenated(hex_lower(uuid_v4_bytes(bytes)))
}

/// The text of a version-4 UUID built from 16 bytes has the version-4 shape.
pub proof fn lemma_uuid_v4_text_shape(bytes: Seq<u8>)
    requires
        bytes.len() == 16,
    ensures
        is_uuid_v4_text(uuid_v4_text_of(bytes)),
{
    let b = uuid_v4_bytes(bytes);
    let h = hex_lower(b);
    let s = uuid_v4_text_of(bytes);
    lemma_hex_shape(b);
    let v6 = (bytes[6] & 0x0f) | 0x40;
    let v8 = (bytes[8] & 0x3f) | 0x80;
    let x6 = bytes[6];
    let x8 = bytes[8];
    assert(((x6 & 0x0f) | 0x40) / 16 == 4) by (bit_vector);
    assert(8 <= ((x8 & 0x3f) | 0x80) / 16 <= 11) by (bit_vector);
    assert(b[6] == v6);
    assert(b[8] == v8);
    lemma_hex_digit_at(b, 6);
    lemma_hex_digit_at(b, 8);
    assert(h[12] == hex_digit(4));
    assert(s.len() == 36);
    assert forall|i: int| 0 <= i < 36 implies (if i == 8 || i == 13 || i == 18 || i == 23 {
        #[trigger] s[i] == '-'
    } else {
        is_lower_hex_char(s[i])
    }) by {
        if i < 8 {
            assert(s[i] == h[i]);
        } else if 8 < i < 13 {
            assert(s[i] == h[i - 1]);
        } else if 13 < i < 18 {
            assert(s[i] == h[i - 2]);
        } else if 18 < i < 23 {
            assert(s[i] == h[i - 3]);
        } else if 23 < i {
            assert(s[i] == h[i - 4]);
        }
    }
    assert(s[14] == h[12]);
    assert(s[19] == h[16]);
}

/// Calls `getrandom::fill` on a 16-byte buffer. `None` when the operating
/// system refuses random bytes. The bytes themselves are random and not
/// stated.
#[verifier::external_body]
fn random_bytes() -> (r: Option<[u8; 16]>) {
    let mut bytes = [0u8; 16];
    match getrandom::fill(&mut bytes) {
        Ok(()) => Some(bytes),
        Err(_) => None,
    }
}

/// Calls `uuid::Builder::from_random_bytes` and renders the UUID with
/// `to_string`. Trusted: `from_random_bytes` sets the version and variant bits
/// of bytes 6 and 8 (`with_version`, `with_variant`) and keeps the rest, and
/// the `Display` impl of `Uuid` writes the 16 bytes in order as lower-case
/// hex grouped 8-4-4-4-12 with hyphens.
#[verifier::external_body]
fn uuid_v4_text(bytes: [u8; 16]) -> (s: String)
    ensures
        s@ == uuid_v4_text_of(bytes@),
{
    uuid::Builder::from_random_bytes(bytes).into_uuid().to_string()
}

/// Whether `r` is an outcome that the random source returned on some call.
pub closed spec fn is_random_draw(r: Option<[u8; 16]>) -> bool {
    call_ensures(random_bytes, (), r)
}

/// The identifier made from an outcome of the random source: the UUID text of
/// the 16 bytes drawn, or `None` when none could be drawn.
pub open spec fn id_of_draw(r: Option<[u8; 16]>) -> Option<Seq<char>> {
    match r {
        Some(b) => Some(uuid_v4_text_of(b@)),
        None => None,
    }
}

/// A fresh random identifier for an artifact; `None` when no random bytes can
/// be had. The identifier is made from all 16 bytes that one call of the
/// random source returned.
pub fn new_artifact_id() -> (id: Option<String>)
    ensures
        id matches Some(s) ==> is_uuid_v4_text(s@),
        exists|r: Option<[u8; 16]>| #[trigger] is_random_draw(r) && opt_chars(id) == id_of_draw(r),
{
    let draw = random_bytes;
    let r = draw();
    assert(is_random_draw(r));
    match r {
        Some(bytes) => Some(artifact_id_from_bytes(bytes)),
        None => None,
    }
}

/// The identifier made from the given 16 random bytes.
pub fn artifact_id_from_bytes(bytes: [u8; 16]) -> (id: String)
    ensures
        id@ == uuid_v4_text_of(bytes@),
        is_uuid_v4_text(id@),
{
    proof {
        lemma_uuid_v4_text_shape(bytes@);
    }
    uuid_v4_text(bytes)
}

proof fn lemma_hyphenated_injective(h: Seq<char>, g: Seq<char>)
    requires
        h.len() == 32,
        g.len() == 32,
        hyphenated(h) == hyphenated(g),
    ensures
        h == g,
{
    assert forall|i: int| 0 <= i < 32 implies h[i] == g[i] by {
        let j = if i < 8 {
            i
        } else if i < 12 {
            i + 1
        } else if i < 16 {
            i + 2
        } else if i < 20 {
            i + 3
        } else {
            i + 4
        };
        assert(hyphenated(h)[j] == h[i]);
        assert(hyphenated(g)[j] == g[i]);
    }
    assert(h =~= g);
}

/// The identifier keeps every random bit of the draw: all bytes but 6 and 8
/// unchanged, the low four bits of byte 6 and the low six bits of byte 8
/// unchanged (122 bits in all); only the version and variant bits are set.
pub proof fn lemma_uuid_keeps_random_bits(b: Seq<u8>)
    requires
        b.len() == 16,
    ensures
        uuid_v4_bytes(b).len() == 16,
        forall|i: int| 0 <= i < 16 && i != 6 && i != 8 ==> #[trigger] uuid_v4_bytes(b)[i] == b[i],
        uuid_v4_bytes(b)[6] & 0x0f == b[6] & 0x0f,
        uuid_v4_bytes(b)[8] & 0x3f == b[8] & 0x3f,
{
    let x6 = b[6];
    let x8 = b[8];
    assert(((x6 & 0x0f) | 0x40) & 0x0f == x6 & 0x0f) by (bit_vector);
    assert(((x8 & 0x3f) | 0x80) & 0x3f == x8 & 0x3f) by (bit_vector);
}

/// Draws that differ in any random bit give different identifiers: the
/// identifier text determines the UUID bytes it was made from.
pub proof fn lemma_distinct_draws_distinct_ids(a: Seq<u8>, b: Seq<u8>)
    requires
        a.len() == 16,
        b.len() == 16,
        uuid_v4_bytes(a) != uuid_v4_bytes(b),
    ensures
        uuid_v4_text_of(a) != uuid_v4_text_of(b),
{
    if uuid_v4_text_of(a) == uuid_v4_text_of(b) {
        lemma_hex_shape(uuid_v4_bytes(a));
        lemma_hex_shape(uuid_v4_bytes(b));
        lemma_hyphenated_injective(hex_lower(uuid_v4_bytes(a)), hex_lower(uuid_v4_bytes(b)));
        lemma_hex_injective(uuid_v4_bytes(a), uuid_v4_bytes(b));
    }
}

} // verus!
