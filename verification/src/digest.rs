//! BLAKE3 digests and their lower-case hexadecimal form.

use vstd::prelude::*;
use vstd::string::StringExecFns;

verus! {

/// The 32-byte BLAKE3 digest of a byte string.
pub uninterp spec fn spec_blake3(input: Seq<u8>) -> Seq<u8>;

/// Feeds `first` and then `second` to a fresh `blake3::Hasher` and copies the
/// digest out of the `Hash` that `finalize` returns. Hashing in pieces gives
/// the digest of the pieces joined, so the result is the BLAKE3 digest of
/// `first` followed by `second`.
#[verifier::external_body]
pub(crate) fn blake3_of_pair(first: &[u8], second: &[u8]) -> (digest: [u8; 32])
    ensures
        digest@ == spec_blake3(first@ + second@),
{
    let mut hasher = blake3::Hasher::new();
    hasher.update(first);
    hasher.update(second);
    *hasher.finalize().as_bytes()
}

/// The hexadecimal digit for a value below sixteen.
pub open spec fn spec_hex_digit(nibble: u8) -> char {
    if nibble == 0 {
        '0'
    } else if nibble == 1 {
        '1'
    } else if nibble == 2 {
        '2'
    } else if nibble == 3 {
        '3'
    } else if nibble == 4 {
        '4'
    } else if nibble == 5 {
        '5'
    } else if nibble == 6 {
        '6'
    } else if nibble == 7 {
        '7'
    } else if nibble == 8 {
        '8'
    } else if nibble == 9 {
        '9'
    } else if nibble == 10 {
        'a'
    } else if nibble == 11 {
        'b'
    } else if nibble == 12 {
        'c'
    } else if nibble == 13 {
        'd'
    } else if nibble == 14 {
        'e'
    } else {
        'f'
    }
}

/// Two digits for every byte, the high half first.
pub open spec fn spec_lower_hex(bytes: Seq<u8>) -> Seq<char>
    decreases bytes.len(),
{
    if bytes.len() == 0 {
        Seq::empty()
    } else {
        spec_lower_hex(bytes.drop_last()).push(spec_hex_digit(bytes.last() / 16)).push(
            spec_hex_digit(bytes.last() % 16),
        )
    }
}

/// The hexadecimal form has two characters for each byte.
pub proof fn lemma_lower_hex_len(bytes: Seq<u8>)
    ensures
        spec_lower_hex(bytes).len() == 2 * bytes.len(),
    decreases bytes.len(),
{
    if bytes.len() > 0 {
        lemma_lower_hex_len(bytes.drop_last());
    }
}

/// Different digits stand for different values.
pub proof fn lemma_hex_digit_injective(a: u8, b: u8)
    requires
        a < 16,
        b < 16,
        spec_hex_digit(a) == spec_hex_digit(b),
    ensures
        a == b,
{
}

/// Byte strings with the same hexadecimal form are equal.
pub proof fn lemma_lower_hex_injective(a: Seq<u8>, b: Seq<u8>)
    requires
        spec_lower_hex(a) == spec_lower_hex(b),
    ensures
        a == b,
    decreases a.len(),
{
    lemma_lower_hex_len(a);
    lemma_lower_hex_len(b);
    if a.len() > 0 {
        let ha = spec_lower_hex(a.drop_last());
        let hb = spec_lower_hex(b.drop_last());
        lemma_lower_hex_len(a.drop_last());
        lemma_lower_hex_len(b.drop_last());
        let full_a = spec_lower_hex(a);
        let full_b = spec_lower_hex(b);
        let n = ha.len() as int;
        assert(full_a[n] == spec_hex_digit(a.last() / 16));
        assert(full_b[n] == spec_hex_digit(b.last() / 16));
        assert(full_a[n + 1] == spec_hex_digit(a.last() % 16));
        assert(full_b[n + 1] == spec_hex_digit(b.last() % 16));
        lemma_hex_digit_injective(a.last() / 16, b.last() / 16);
        lemma_hex_digit_injective(a.last() % 16, b.last() % 16);
        assert(a.last() == b.last());
        assert forall|i: int| 0 <= i < n implies ha[i] == hb[i] by {
            assert(full_a[i] == ha[i]);
            assert(full_b[i] == hb[i]);
        }
        assert(ha =~= hb);
        lemma_lower_hex_injective(a.drop_last(), b.drop_last());
        assert(a =~= a.drop_last().push(a.last()));
        assert(b =~= b.drop_last().push(b.last()));
    } else {
        assert(a =~= b);
    }
}

pub(crate) fn hex_digit(nibble: u8) -> (digit: &'static str)
    requires
        nibble < 16,
    ensures
        digit@ == seq![spec_hex_digit(nibble)],
{
    proof {
        reveal_strlit("0");
        reveal_strlit("1");
        reveal_strlit("2");
        reveal_strlit("3");
        reveal_strlit("4");
        reveal_strlit("5");
        reveal_strlit("6");
        reveal_strlit("7");
        reveal_strlit("8");
        reveal_strlit("9");
        reveal_strlit("a");
        reveal_strlit("b");
        reveal_strlit("c");
        reveal_strlit("d");
        reveal_strlit("e");
        reveal_strlit("f");
    }
    let digit = match nibble {
        0 => "0",
        1 => "1",
        2 => "2",
        3 => "3",
        4 => "4",
        5 => "5",
        6 => "6",
        7 => "7",
        8 => "8",
        9 => "9",
        10 => "a",
        11 => "b",
        12 => "c",
        13 => "d",
        14 => "e",
        _ => "f",
    };
    assert(digit@ =~= seq![spec_hex_digit(nibble)]);
    digit
}

/// Writes a byte string in lower-case hexadecimal.
pub fn to_lower_hex(bytes: &[u8]) -> (hex: String)
    ensures
        hex@ == spec_lower_hex(bytes@),
        hex@.len() == 2 * bytes@.len(),
{
    let mut hex = String::new();
    let n = bytes.len();
    let mut i: usize = 0;
    assert(bytes@.take(0) =~= Seq::<u8>::empty());
    while i < n
        invariant
            n == bytes@.len(),
            i <= n,
            hex@ == spec_lower_hex(bytes@.take(i as int)),
        decreases n - i,
    {
        let byte = bytes[i];
        hex.append(hex_digit(byte / 16));
        hex.append(hex_digit(byte % 16));
        proof {
            let next = bytes@.take(i + 1);
            assert(next.drop_last() =~= bytes@.take(i as int));
            assert(next.last() == byte);
            assert(hex@ =~= spec_lower_hex(next));
        }
        i += 1;
    }
    proof {
        assert(bytes@.take(n as int) =~= bytes@);
        lemma_lower_hex_len(bytes@);
    }
    hex
}

} // verus!
