//! Textual rendering of the encoded values: lowercase hex strings with a
//! `0x` prefix and decimal strings, as the contract template expects them.
//!
//! All string contents are specified over ASCII byte sequences and lifted
//! to character sequences with [`ascii_str`].

use vstd::prelude::*;
use vstd::string::StringExecFns;

verus! {

/// The characters of an ASCII byte sequence, one char per byte.
pub open spec fn ascii_str(s: Seq<u8>) -> Seq<char> {
    s.map_values(|b: u8| b as char)
}

/// The lowercase hex digit for a nibble.
pub open spec fn hex_digit(n: u8) -> u8 {
    if n < 10 {
        (48 + n) as u8
    } else {
        (87 + n) as u8
    }
}

/// The lowercase hex digits of a byte sequence: two digits per byte, high
/// nibble first, in input order.
pub open spec fn hex_bytes(s: Seq<u8>) -> Seq<u8>
    decreases s.len(),
{
    if s.len() == 0 {
        Seq::empty()
    } else {
        hex_bytes(s.drop_last()) + seq![
            hex_digit((s.last() / 16) as u8),
            hex_digit((s.last() % 16) as u8),
        ]
    }
}

/// A rendered hex value: `0x` followed by the digits of every input byte,
/// zero-padded by construction, never minimal-width.
pub open spec fn hex_render(b: Seq<u8>) -> Seq<char> {
    "0x"@ + ascii_str(hex_bytes(b))
}

/// The decimal digits of a number, most significant first, no sign and no
/// leading zero (a single `0` for zero).
pub open spec fn dec_bytes(n: nat) -> Seq<u8>
    decreases n,
{
    if n < 10 {
        seq![(48 + n) as u8]
    } else {
        dec_bytes(n / 10) + seq![(48 + n % 10) as u8]
    }
}

/// A rendered decimal value.
pub open spec fn dec_render(n: nat) -> Seq<char> {
    ascii_str(dec_bytes(n))
}

/// Relies on `hex::encode`: each byte becomes two lowercase hex digits,
/// high nibble first, in input order.
#[verifier::external_body]
pub(crate) fn hex_lower(b: &Vec<u8>) -> (r: String)
    ensures
        r@ == ascii_str(hex_bytes(b@)),
{
    hex::encode(b.as_slice())
}

/// Relies on `String::from_utf8`: bytes below 128 are valid UTF-8 and
/// decode to the characters of the same code points.
#[verifier::external_body]
pub(crate) fn ascii_bytes_to_string(b: Vec<u8>) -> (r: String)
    requires
        forall|i: int| 0 <= i < b@.len() ==> b@[i] < 128,
    ensures
        r@ == ascii_str(b@),
{
    match String::from_utf8(b) {
        Ok(s) => s,
        Err(_) => String::new(),
    }
}

/// Renders a byte vector as a `0x`-prefixed lowercase hex string.
pub fn hex_string(b: &Vec<u8>) -> (r: String)
    ensures
        r@ == hex_render(b@),
{
    let hexpart = hex_lower(b);
    let mut s = String::from_str("0x");
    s.append(hexpart.as_str());
    s
}

/// Builds the decimal digit bytes of a number.
fn dec_digits(n: u64) -> (r: Vec<u8>)
    ensures
        r@ == dec_bytes(n as nat),
    decreases n,
{
    if n < 10 {
        let mut v: Vec<u8> = Vec::new();
        v.push(48 + (n as u8));
        proof {
            assert(v@ =~= dec_bytes(n as nat));
        }
        v
    } else {
        let mut v = dec_digits(n / 10);
        v.push(48 + ((n % 10) as u8));
        proof {
            assert(v@ =~= dec_bytes(n as nat));
        }
        v
    }
}

/// All decimal digit bytes are ASCII digits.
pub proof fn lemma_dec_bytes_ascii(n: nat)
    ensures
        forall|i: int| 0 <= i < dec_bytes(n).len() ==> 48 <= #[trigger] dec_bytes(n)[i] < 58,
    decreases n,
{
    if n >= 10 {
        lemma_dec_bytes_ascii(n / 10);
        assert forall|i: int| 0 <= i < dec_bytes(n).len() implies 48 <= #[trigger] dec_bytes(
            n,
        )[i] < 58 by {
            if i < dec_bytes(n / 10).len() {
                assert(dec_bytes(n)[i] == dec_bytes(n / 10)[i]);
            } else {
                assert(dec_bytes(n)[i] == (48 + n % 10) as u8);
            }
        }
    }
}

/// Renders a number as a decimal string.
pub fn dec_string(n: u64) -> (r: String)
    ensures
        r@ == dec_render(n as nat),
{
    let digits = dec_digits(n);
    proof {
        lemma_dec_bytes_ascii(n as nat);
    }
    ascii_bytes_to_string(digits)
}

/// There are two hex digits for every input byte.
pub proof fn lemma_hex_bytes_len(s: Seq<u8>)
    ensures
        hex_bytes(s).len() == 2 * s.len(),
    decreases s.len(),
{
    if s.len() > 0 {
        lemma_hex_bytes_len(s.drop_last());
    }
}

/// Law: the hex digits determine the byte sequence — equal-length byte
/// sequences with the same hex rendering are the same sequence.
pub proof fn lemma_hex_bytes_injective(s1: Seq<u8>, s2: Seq<u8>)
    requires
        s1.len() == s2.len(),
        hex_bytes(s1) == hex_bytes(s2),
    ensures
        s1 == s2,
    decreases s1.len(),
{
    if s1.len() == 0 {
        assert(s1 =~= s2);
    } else {
        lemma_hex_bytes_len(s1.drop_last());
        lemma_hex_bytes_len(s2.drop_last());
        let a1 = hex_bytes(s1.drop_last());
        let a2 = hex_bytes(s2.drop_last());
        let l = a1.len() as int;
        assert(hex_bytes(s1)[l] == hex_digit((s1.last() / 16) as u8));
        assert(hex_bytes(s1)[l + 1] == hex_digit((s1.last() % 16) as u8));
        assert(hex_bytes(s2)[l] == hex_digit((s2.last() / 16) as u8));
        assert(hex_bytes(s2)[l + 1] == hex_digit((s2.last() % 16) as u8));
        assert(s1.last() / 16 == s2.last() / 16);
        assert(s1.last() % 16 == s2.last() % 16);
        vstd::arithmetic::div_mod::lemma_fundamental_div_mod(s1.last() as int, 16);
        vstd::arithmetic::div_mod::lemma_fundamental_div_mod(s2.last() as int, 16);
        assert(s1.last() == s2.last());
        assert(a1 =~= hex_bytes(s1).subrange(0, l));
        assert(a2 =~= hex_bytes(s2).subrange(0, l));
        lemma_hex_bytes_injective(s1.drop_last(), s2.drop_last());
        assert(s1 =~= s1.drop_last().push(s1.last()));
        assert(s2 =~= s2.drop_last().push(s2.last()));
    }
}

/// All hex digit bytes are ASCII and below 128.
pub proof fn lemma_hex_bytes_ascii(s: Seq<u8>)
    ensures
        forall|i: int| 0 <= i < hex_bytes(s).len() ==> #[trigger] hex_bytes(s)[i] < 128,
    decreases s.len(),
{
    if s.len() > 0 {
        lemma_hex_bytes_ascii(s.drop_last());
        lemma_hex_bytes_len(s.drop_last());
        assert forall|i: int| 0 <= i < hex_bytes(s).len() implies #[trigger] hex_bytes(s)[i]
            < 128 by {
            if i < hex_bytes(s.drop_last()).len() {
                assert(hex_bytes(s)[i] == hex_bytes(s.drop_last())[i]);
            }
        }
    }
}

/// Law: hex rendering is injective on equal-length byte sequences.
pub proof fn lemma_hex_render_injective(b1: Seq<u8>, b2: Seq<u8>)
    requires
        b1.len() == b2.len(),
        hex_render(b1) == hex_render(b2),
    ensures
        b1 == b2,
{
    lemma_hex_bytes_len(b1);
    lemma_hex_bytes_len(b2);
    let p = "0x"@.len() as int;
    let h1 = hex_bytes(b1);
    let h2 = hex_bytes(b2);
    assert forall|i: int| 0 <= i < h1.len() implies #[trigger] h1[i] == h2[i] by {
        assert(hex_render(b1)[p + i] == ascii_str(h1)[i]);
        assert(hex_render(b2)[p + i] == ascii_str(h2)[i]);
        assert(ascii_str(h1)[i] == h1[i] as char);
        assert(ascii_str(h2)[i] == h2[i] as char);
        lemma_hex_bytes_ascii(b1);
        lemma_hex_bytes_ascii(b2);
        lemma_ascii_char_injective(h1[i], h2[i]);
    }
    assert(h1 =~= h2);
    lemma_hex_bytes_injective(b1, b2);
}

/// Distinct bytes below 128 are distinct characters.
pub proof fn lemma_ascii_char_injective(a: u8, b: u8)
    requires
        a < 128,
        b < 128,
        (a as char) == (b as char),
    ensures
        a == b,
{
    assert((a as char) as u32 == a as u32);
    assert((b as char) as u32 == b as u32);
}

} // verus!
