//! Lower-case hexadecimal rendering of byte strings, as `{:x}` prints a digest.
use vstd::prelude::*;
use crate::text::push_char;

verus! {

/// The lower-case hexadecimal digit for a nibble `n < 16`.
pub open spec fn hex_digit(n: int) -> char {
    if n < 10 {
        (48 + n) as char
    } else {
        (87 + n) as char
    }
}

/// Whether `c` is one of `0-9` or `a-f`.
pub open spec fn is_lower_hex_char(c: char) -> bool {
    ('0' <= c && c <= '9') || ('a' <= c && c <= 'f')
}

/// Two digits per byte, high nibble first, in byte order.
pub open spec fn hex_lower(data: Seq<u8>) -> Seq<char>
    decreases data.len(),
{
    if data.len() == 0 {
        Seq::empty()
    } else {
        hex_lower(data.drop_last()) + seq![
            hex_digit(data.last() as int / 16),
            hex_digit(data.last() as int % 16),
        ]
    }
}

fn nibble_char(n: u8) -> (c: char)
    requires
        n < 16,
    ensures
        c == hex_digit(n as int),
{
    if n < 10 {
        (48u8 + n) as char
    } else {
        (87u8 + n) as char
    }
}

/// Renders `data` as lower-case hexadecimal text, two digits per byte.
pub fn to_hex_lower(data: &[u8]) -> (res: String)
    ensures
        res@ == hex_lower(data@),
{
    let mut res = String::new();
    let n = data.len();
    let mut i: usize = 0;
    assert(data@.take(0) =~= Seq::<u8>::empty());
    while i < n
        invariant
            n == data@.len(),
            i <= n,
            res@ == hex_lower(data@.take(i as int)),
        decreases n - i,
    {
        let b = data[i];
        assert(data@.take(i + 1).drop_last() =~= data@.take(i as int));
        push_char(&mut res, nibble_char(b / 16));
        push_char(&mut res, nibble_char(b % 16));
        i = i + 1;
    }
    assert(data@.take(n as int) =~= data@);
    res
}

/// The hex text of a byte string is twice as long and made of lower-case
/// hex digits only.
pub proof fn lemma_hex_shape(data: Seq<u8>)
    ensures
        hex_lower(data).len() == 2 * data.len(),
        forall|i: int| 0 <= i < hex_lower(data).len() ==> is_lower_hex_char(#[trigger] hex_lower(data)[i]),
    decreases data.len(),
{
    if data.len() > 0 {
        lemma_hex_shape(data.drop_last());
    }
}

/// Distinct byte strings have distinct hex texts.
pub proof fn lemma_hex_injective(a: Seq<u8>, b: Seq<u8>)
    requires
        hex_lower(a) == hex_lower(b),
    ensures
        a == b,
    decreases a.len(),
{
    lemma_hex_shape(a);
    lemma_hex_shape(b);
    if a.len() > 0 {
        let ha = hex_lower(a);
        let hb = hex_lower(b);
        let k = ha.len() - 2;
        assert(ha.take(k) =~= hex_lower(a.drop_last()));
        assert(hb.take(k) =~= hex_lower(b.drop_last()));
        lemma_hex_injective(a.drop_last(), b.drop_last());
        let x = a.last() as int;
        let y = b.last() as int;
        assert(ha[k] == hex_digit(x / 16));
        assert(hb[k] == hex_digit(y / 16));
        assert(ha[k + 1] == hex_digit(x % 16));
        assert(hb[k + 1] == hex_digit(y % 16));
        assert(x / 16 == y / 16);
        assert(x % 16 == y % 16);
        assert(a =~= a.drop_last().push(a.last()));
        assert(b =~= b.drop_last().push(b.last()));
    }
}

/// Byte `j` of `data` gives digits `2j` (high nibble) and `2j + 1` (low
/// nibble) of its hex text.
pub proof fn lemma_hex_digit_at(data: Seq<u8>, j: int)
    requires
        0 <= j < data.len(),
    ensures
        hex_lower(data).len() == 2 * data.len(),
        hex_lower(data)[2 * j] == hex_digit(data[j] as int / 16),
        hex_lower(data)[2 * j + 1] == hex_digit(data[j] as int % 16),
    decreases data.len(),
{
    lemma_hex_shape(data);
    lemma_hex_shape(data.drop_last());
    if j < data.len() - 1 {
        lemma_hex_digit_at(data.drop_last(), j);
    }
}

} // verus!
