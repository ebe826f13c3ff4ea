//! Hexadecimal encoding and decoding of byte strings.
use vstd::prelude::*;
use vstd::utf8::*;
use vstd::string::StringSliceAdditionalSpecFns;
use crate::shared::text::string_from_chars;

verus! {

/// The value of one hexadecimal digit, given as its ASCII byte.
pub open spec fn hex_digit_value(b: u8) -> Option<u8> {
    if 48 <= b <= 57 {
        Some((b - 48) as u8)
    } else if 97 <= b <= 102 {
        Some((b - 87) as u8)
    } else if 65 <= b <= 70 {
        Some((b - 55) as u8)
    } else {
        None
    }
}

/// The byte that a two-byte chunk denotes when read as a base-16 number,
/// as `u8::from_str_radix(chunk, 16)` reads it: two hex digits, or a `+`
/// sign followed by one hex digit.
pub open spec fn pair_value(b0: u8, b1: u8) -> Option<u8> {
    if b0 == 43 {
        hex_digit_value(b1)
    } else {
        match (hex_digit_value(b0), hex_digit_value(b1)) {
            (Some(h), Some(l)) => Some((h * 16 + l) as u8),
            _ => None,
        }
    }
}

/// Decodes consecutive two-byte chunks; `None` at the first chunk that is not a number.
pub open spec fn decode_pairs(b: Seq<u8>) -> Option<Seq<u8>>
    decreases b.len(),
{
    if b.len() < 2 {
        Some(seq![])
    } else {
        match pair_value(b[0], b[1]) {
            None => None,
            Some(v) => match decode_pairs(b.subrange(2, b.len() as int)) {
                None => None,
                Some(rest) => Some(seq![v] + rest),
            },
        }
    }
}

/// Whether decoding the chunks would slice the text inside a character: the chunk's
/// end falls on a UTF-8 continuation byte before any earlier chunk failed to parse.
pub open spec fn pairs_split_a_char(b: Seq<u8>) -> bool
    decreases b.len(),
{
    if b.len() < 2 {
        false
    } else if b.len() > 2 && is_continuation_byte(b[2]) {
        true
    } else {
        match pair_value(b[0], b[1]) {
            None => false,
            Some(_) => pairs_split_a_char(b.subrange(2, b.len() as int)),
        }
    }
}

/// What `decode_hex` gives for the UTF-8 bytes of its input.
pub open spec fn decode_hex_spec(b: Seq<u8>) -> Option<Seq<u8>> {
    if b.len() % 2 != 0 {
        None
    } else {
        decode_pairs(b)
    }
}

/// The inputs on which decoding would slice a string inside a character.
pub open spec fn decode_hex_splits_a_char(b: Seq<u8>) -> bool {
    b.len() % 2 == 0 && pairs_split_a_char(b)
}

fn digit_value(b: u8) -> (r: Option<u8>)
    ensures
        r == hex_digit_value(b),
{
    if 48 <= b && b <= 57 {
        Some(b - 48)
    } else if 97 <= b && b <= 102 {
        Some(b - 87)
    } else if 65 <= b && b <= 70 {
        Some(b - 55)
    } else {
        None
    }
}

fn chunk_value(b0: u8, b1: u8) -> (r: Option<u8>)
    ensures
        r == pair_value(b0, b1),
{
    if b0 == 43 {
        digit_value(b1)
    } else {
        match (digit_value(b0), digit_value(b1)) {
            (Some(h), Some(l)) => Some(h * 16 + l),
            _ => None,
        }
    }
}

proof fn lemma_decode_pairs_step(b: Seq<u8>, i: int, acc: Seq<u8>)
    requires
        0 <= i,
        i + 2 <= b.len(),
        pair_value(b[i], b[i + 1]) is Some,
    ensures
        decode_pairs(b.subrange(i, b.len() as int)) == match decode_pairs(
            b.subrange(i + 2, b.len() as int),
        ) {
            None => None::<Seq<u8>>,
            Some(rest) => Some(seq![pair_value(b[i], b[i + 1])->0] + rest),
        },
        !pairs_split_a_char(b.subrange(i, b.len() as int)) && !(i + 2 < b.len()
            && is_continuation_byte(b[i + 2])) ==> !pairs_split_a_char(
            b.subrange(i + 2, b.len() as int),
        ),
{
    let s = b.subrange(i, b.len() as int);
    assert(s.subrange(2, s.len() as int) =~= b.subrange(i + 2, b.len() as int));
    assert(s[0] == b[i] && s[1] == b[i + 1]);
}

/// Decodes a string of hexadecimal digit pairs into bytes; `None` when the length
/// is odd or some pair is not a number.
pub fn decode_hex(s: &str) -> (r: Option<Vec<u8>>)
    requires
        !decode_hex_splits_a_char(s.spec_bytes()),
    ensures
        r matches Some(v) ==> decode_hex_spec(s.spec_bytes()) == Some(v@),
        r is None ==> decode_hex_spec(s.spec_bytes()) is None,
{
    let bytes = s.as_bytes();
    assert(bytes@.subrange(0, bytes@.len() as int) =~= s.spec_bytes());
    decode_hex_bytes(bytes, 0)
}

/// Decodes the hex digit pairs of `b` from byte offset `start` on.
pub fn decode_hex_bytes(b: &[u8], start: usize) -> (r: Option<Vec<u8>>)
    requires
        start <= b@.len(),
        (b@.len() - start) % 2 == 0 ==> !pairs_split_a_char(b@.subrange(start as int, b@.len() as int)),
    ensures
        r matches Some(v) ==> decode_hex_spec(b@.subrange(start as int, b@.len() as int)) == Some(v@),
        r is None ==> decode_hex_spec(b@.subrange(start as int, b@.len() as int)) is None,
{
    let n = b.len();
    if (n - start) % 2 != 0 {
        return None;
    }
    let ghost whole = b@.subrange(start as int, n as int);
    let mut out: Vec<u8> = Vec::new();
    let mut i: usize = start;
    while i < n
        invariant
            n == b@.len(),
            start <= i <= n,
            (n - i) % 2 == 0,
            whole == b@.subrange(start as int, n as int),
            !pairs_split_a_char(b@.subrange(i as int, n as int)),
            decode_pairs(whole) == match decode_pairs(b@.subrange(i as int, n as int)) {
                None => None::<Seq<u8>>,
                Some(rest) => Some(out@ + rest),
            },
        decreases n - i,
    {
        let v = chunk_value(b[i], b[i + 1]);
        match v {
            None => {
                let ghost s = b@.subrange(i as int, n as int);
                assert(s[0] == b@[i as int] && s[1] == b@[i + 1]);
                return None;
            },
            Some(x) => {
                proof {
                    lemma_decode_pairs_step(b@, i as int, out@);
                    let s = b@.subrange(i as int, n as int);
                    assert(s[0] == b@[i as int] && s[1] == b@[i + 1]);
                    if i + 2 < n {
                        assert(s[2] == b@[i + 2]);
                    }
                    match decode_pairs(b@.subrange(i + 2, n as int)) {
                        None => {},
                        Some(rest) => {
                            assert(out@.push(x) + rest =~= out@ + (seq![x] + rest));
                        },
                    }
                }
                out.push(x);
                i = i + 2;
            },
        }
    }
    proof {
        assert(b@.subrange(i as int, n as int) =~= Seq::<u8>::empty());
        assert(out@ + Seq::<u8>::empty() =~= out@);
    }
    Some(out)
}

/// The lowercase hexadecimal digit for a value below sixteen.
pub open spec fn hex_char(d: u8) -> char {
    if d < 10 {
        (d + 48) as char
    } else {
        (d + 87) as char
    }
}

/// The lowercase hexadecimal text of a byte string, two digits per byte.
pub open spec fn hex_text(b: Seq<u8>) -> Seq<char>
    decreases b.len(),
{
    if b.len() == 0 {
        seq![]
    } else {
        seq![hex_char(b[0] / 16), hex_char(b[0] % 16)] + hex_text(b.drop_first())
    }
}

fn digit_char(d: u8) -> (c: char)
    requires
        d < 16,
    ensures
        c == hex_char(d),
{
    if d < 10 {
        (d + 48) as char
    } else {
        (d + 87) as char
    }
}

proof fn lemma_hex_text_push(b: Seq<u8>, x: u8)
    ensures
        hex_text(b.push(x)) == hex_text(b) + seq![hex_char(x / 16), hex_char(x % 16)],
    decreases b.len(),
{
    if b.len() == 0 {
        assert(b.push(x).drop_first() =~= Seq::<u8>::empty());
        assert(hex_text(Seq::<u8>::empty()) =~= Seq::<char>::empty());
    } else {
        assert(b.push(x).drop_first() =~= b.drop_first().push(x));
        lemma_hex_text_push(b.drop_first(), x);
    }
}

/// Writes bytes as lowercase hexadecimal, two digits per byte (as `{:02x}` does).
pub fn encode_hex(bytes: &[u8]) -> (r: String)
    ensures
        r@ == hex_text(bytes@),
{
    let mut chars: Vec<char> = Vec::new();
    let mut i: usize = 0;
    while i < bytes.len()
        invariant
            i <= bytes@.len(),
            chars@ == hex_text(bytes@.subrange(0, i as int)),
        decreases bytes@.len() - i,
    {
        let x = bytes[i];
        proof {
            assert(bytes@.subrange(0, i + 1) =~= bytes@.subrange(0, i as int).push(x));
            lemma_hex_text_push(bytes@.subrange(0, i as int), x);
        }
        chars.push(digit_char(x / 16));
        chars.push(digit_char(x % 16));
        proof {
            assert(chars@ =~= hex_text(bytes@.subrange(0, i as int)) + seq![
                hex_char(x / 16),
                hex_char(x % 16),
            ]);
        }
        i = i + 1;
    }
    assert(bytes@.subrange(0, i as int) =~= bytes@);
    string_from_chars(&chars)
}

/// The ASCII bytes of `hex_text(b)`.
pub open spec fn hex_bytes(b: Seq<u8>) -> Seq<u8>
    decreases b.len(),
{
    if b.len() == 0 {
        seq![]
    } else {
        seq![hex_char(b[0] / 16) as u8, hex_char(b[0] % 16) as u8] + hex_bytes(b.drop_first())
    }
}

proof fn lemma_hex_text_ascii(b: Seq<u8>)
    ensures
        is_ascii_chars(hex_text(b)),
        hex_text(b).len() == hex_bytes(b).len(),
        forall|i: int| 0 <= i < hex_text(b).len() ==> #[trigger] hex_text(b)[i] as u8 == hex_bytes(b)[i],
    decreases b.len(),
{
    if b.len() > 0 {
        lemma_hex_text_ascii(b.drop_first());
        let head = seq![hex_char(b[0] / 16), hex_char(b[0] % 16)];
        let t = hex_text(b.drop_first());
        assert forall|i: int| 0 <= i < hex_text(b).len() implies '\0' <= #[trigger] hex_text(b)[i] <= '\u{7f}' by {
            if i >= 2 {
                assert(hex_text(b)[i] == t[i - 2]);
            }
        }
        assert forall|i: int| 0 <= i < hex_text(b).len() implies #[trigger] hex_text(b)[i] as u8 == hex_bytes(b)[i] by {
            if i >= 2 {
                assert(hex_text(b)[i] == t[i - 2]);
                assert(hex_bytes(b)[i] == hex_bytes(b.drop_first())[i - 2]);
            }
        }
    }
}

proof fn lemma_hex_bytes_decode(b: Seq<u8>)
    ensures
        hex_bytes(b).len() == 2 * b.len(),
        decode_pairs(hex_bytes(b)) == Some(b),
        !pairs_split_a_char(hex_bytes(b)),
    decreases b.len(),
{
    if b.len() == 0 {
        assert(b =~= Seq::<u8>::empty());
    } else {
        let h = hex_bytes(b);
        let t = hex_bytes(b.drop_first());
        lemma_hex_bytes_decode(b.drop_first());
        assert(h.subrange(2, h.len() as int) =~= t);
        let x = b[0];
        assert(pair_value(h[0], h[1]) == Some(x));
        assert(seq![x] + b.drop_first() =~= b);
        if h.len() > 2 {
            assert(h[2] == t[0]);
            assert(t[0] == hex_char(b.drop_first()[0] / 16) as u8);
        }
    }
}

/// Decoding the hexadecimal text of any byte string gives the bytes back, and
/// never slices inside a character.
pub proof fn law_decode_hex_inverts_encode_hex(b: Seq<u8>)
    ensures
        !decode_hex_splits_a_char(encode_utf8(hex_text(b))),
        decode_hex_spec(encode_utf8(hex_text(b))) == Some(b),
{
    lemma_hex_text_ascii(b);
    is_ascii_chars_encode_utf8(hex_text(b));
    lemma_hex_bytes_decode(b);
    assert(encode_utf8(hex_text(b)) =~= hex_bytes(b));
}

} // verus!
