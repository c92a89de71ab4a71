//! Lowercase hex encoding of byte strings, as used for the persisted keys
//! and values: the specification says what the encoding is, and the one
//! executable entry point is the outside encoder held to that specification.

use vstd::prelude::*;

verus! {

/// The lowercase hex digit for a nibble value below 16: `0`-`9` then `a`-`f`.
pub open spec fn hex_digit_char(n: u8) -> char
    recommends
        n < 16,
{
    if n < 10 {
        ((n + 48) as u8) as char
    } else {
        ((n + 87) as u8) as char
    }
}

/// The lowercase hex encoding of a byte sequence: two digits per byte,
/// high nibble first.
pub open spec fn hex_of(bytes: Seq<u8>) -> Seq<char>
    decreases bytes.len(),
{
    if bytes.len() == 0 {
        Seq::empty()
    } else {
        seq![hex_digit_char(bytes.first() / 16), hex_digit_char(bytes.first() % 16)]
            + hex_of(bytes.drop_first())
    }
}

/// The hex encoding of a sequence is twice as long as the sequence.
pub proof fn lemma_hex_of_len(bytes: Seq<u8>)
    ensures
        hex_of(bytes).len() == 2 * bytes.len(),
    decreases bytes.len(),
{
    if bytes.len() != 0 {
        lemma_hex_of_len(bytes.drop_first());
    }
}

/// Distinct nibble values have distinct hex digits.
pub proof fn lemma_hex_digit_char_injective(x: u8, y: u8)
    requires
        x < 16,
        y < 16,
        hex_digit_char(x) == hex_digit_char(y),
    ensures
        x == y,
{
    assert(hex_digit_char(x) as u32 == if x < 10 { x + 48 } else { x + 87 });
    assert(hex_digit_char(y) as u32 == if y < 10 { y + 48 } else { y + 87 });
}

/// Hex encoding is injective: distinct byte sequences have distinct
/// encodings.
pub proof fn lemma_hex_of_injective(a: Seq<u8>, b: Seq<u8>)
    requires
        hex_of(a) == hex_of(b),
    ensures
        a == b,
    decreases a.len(),
{
    lemma_hex_of_len(a);
    lemma_hex_of_len(b);
    if a.len() == 0 {
        assert(a =~= b);
    } else {
        assert(hex_of(a)[0] == hex_digit_char(a.first() / 16));
        assert(hex_of(a)[1] == hex_digit_char(a.first() % 16));
        assert(hex_of(b)[0] == hex_digit_char(b.first() / 16));
        assert(hex_of(b)[1] == hex_digit_char(b.first() % 16));
        lemma_hex_digit_char_injective(a.first() / 16, b.first() / 16);
        lemma_hex_digit_char_injective(a.first() % 16, b.first() % 16);
        assert(a.first() == b.first());
        assert(hex_of(a.drop_first()) =~= hex_of(b.drop_first())) by {
            assert forall|i: int| 0 <= i < hex_of(a.drop_first()).len() implies hex_of(
                a.drop_first(),
            )[i] == hex_of(b.drop_first())[i] by {
                assert(hex_of(a)[i + 2] == hex_of(a.drop_first())[i]);
                assert(hex_of(b)[i + 2] == hex_of(b.drop_first())[i]);
            }
        }
        lemma_hex_of_injective(a.drop_first(), b.drop_first());
        assert forall|i: int| 0 <= i < a.len() implies a[i] == b[i] by {
            if i == 0 {
                assert(a[0] == a.first());
                assert(b[0] == b.first());
            } else {
                assert(a.drop_first()[i - 1] == a[i]);
                assert(b.drop_first()[i - 1] == b[i]);
            }
        }
        assert(a =~= b);
    }
}

/// Relies on hex::encode: it returns the lowercase hex encoding of its
/// input, two digits per byte, high nibble first.
#[verifier::external_body]
pub(crate) fn encode_hex(bytes: &[u8]) -> (r: String)
    requires
        bytes@.len() * 2 <= usize::MAX,
    ensures
        r@ == hex_of(bytes@),
{
    hex::encode(bytes)
}

} // verus!
