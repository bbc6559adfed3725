//! Percent-encoding of path segments and query values.
//!
//! Names and descriptions chosen by users or by the daemon may hold arbitrary
//! text; every path segment and query value is therefore percent-encoded.
//! The encoding keeps the unreserved bytes (letters, digits, `-`, `.`, `_`,
//! `~`) and writes every other byte of the text's UTF-8 form as `%XX`.
//! Decoding an encoded string yields exactly the original bytes
//! ([`lemma_pct_roundtrip`]), and an encoded string never holds a query
//! delimiter ([`lemma_pct_no_delimiters`]), so parameters survive the trip
//! into a query string unchanged.
use vstd::prelude::*;
use crate::json::hex_digit_val;

verus! {

/// A byte the encoding keeps as itself.
pub open spec fn is_unreserved(b: u8) -> bool {
    (0x41 <= b && b <= 0x5A) || (0x61 <= b && b <= 0x7A) || (0x30 <= b && b <= 0x39) || b == 0x2D
        || b == 0x2E || b == 0x5F || b == 0x7E
}

/// The uppercase hexadecimal digit for a value below 16.
pub open spec fn hex_char_of(n: u8) -> char {
    if n < 10 {
        (0x30 + n) as char
    } else {
        (0x37 + n) as char
    }
}

/// The encoding of one byte.
pub open spec fn pct_byte(b: u8) -> Seq<char> {
    if is_unreserved(b) {
        seq![b as char]
    } else {
        seq!['%', hex_char_of(b / 16), hex_char_of(b % 16)]
    }
}

/// The encoding of a byte string.
pub open spec fn pct(bs: Seq<u8>) -> Seq<char>
    decreases bs.len(),
{
    if bs.len() == 0 {
        Seq::<char>::empty()
    } else {
        pct_byte(bs[0]) + pct(bs.drop_first())
    }
}

/// The encoding of a character string: its UTF-8 bytes, percent-encoded.
pub open spec fn pct_text(s: Seq<char>) -> Seq<char> {
    pct(vstd::utf8::encode_utf8(s))
}

/// Percent-decoding, back to bytes: `%XX` becomes the byte `XX`, any other
/// ASCII character its own code; ill-formed input yields `None`.
pub open spec fn pct_decode(q: Seq<char>) -> Option<Seq<u8>>
    decreases q.len(),
{
    if q.len() == 0 {
        Some(Seq::<u8>::empty())
    } else if q[0] == '%' {
        if q.len() >= 3 && hex_digit_val(q[1]) < 16 && hex_digit_val(q[2]) < 16 {
            match pct_decode(q.skip(3)) {
                Some(rest) => Some(
                    seq![(16 * hex_digit_val(q[1]) + hex_digit_val(q[2])) as u8] + rest,
                ),
                None => None,
            }
        } else {
            None
        }
    } else if (q[0] as u32) < 128 {
        match pct_decode(q.skip(1)) {
            Some(rest) => Some(seq![(q[0] as u32) as u8] + rest),
            None => None,
        }
    } else {
        None
    }
}

/// Decoding inverts encoding: whatever bytes are encoded, decoding the
/// encoded text yields exactly those bytes.
pub proof fn lemma_pct_roundtrip(bs: Seq<u8>)
    ensures
        pct_decode(pct(bs)) == Some(bs),
    decreases bs.len(),
{
    if bs.len() == 0 {
    } else {
        let b = bs[0];
        let rest = bs.drop_first();
        lemma_pct_roundtrip(rest);
        let q = pct(bs);
        if is_unreserved(b) {
            assert(q.skip(1) =~= pct(rest));
            assert(seq![b] + rest =~= bs);
        } else {
            assert(hex_digit_val(hex_char_of(b / 16)) == b / 16);
            assert(hex_digit_val(hex_char_of(b % 16)) == b % 16);
            assert(q.skip(3) =~= pct(rest));
            assert(seq![b] + rest =~= bs);
        }
    }
}

/// A character that delimits query parameters or terminates a query.
pub open spec fn is_query_delimiter(c: char) -> bool {
    c == '&' || c == '=' || c == '?' || c == '#' || c == '/' || c == '+'
}

/// An encoded string never holds a query delimiter, so an encoded value
/// never bleeds into the surrounding query syntax.
pub proof fn lemma_pct_no_delimiters(bs: Seq<u8>)
    ensures
        forall|i: int| 0 <= i < pct(bs).len() ==> !is_query_delimiter(#[trigger] pct(bs)[i]),
    decreases bs.len(),
{
    if bs.len() > 0 {
        let b = bs[0];
        let rest = bs.drop_first();
        lemma_pct_no_delimiters(rest);
        assert forall|i: int| 0 <= i < pct(bs).len() implies !is_query_delimiter(
            #[trigger] pct(bs)[i],
        ) by {
            if i < pct_byte(b).len() {
                assert(pct(bs)[i] == pct_byte(b)[i]);
            } else {
                assert(pct(bs)[i] == pct(rest)[i - pct_byte(b).len()]);
            }
        }
    }
}

/// Percent-encodes a string: its UTF-8 bytes, with unreserved bytes kept
/// and every other byte written as `%XX`.
pub fn encode_component(s: &str) -> (r: String)
    ensures
        r@ == pct_text(s@),
{
    let bytes = s.as_bytes();
    let mut out = String::new();
    let mut i: usize = 0;
    while i < bytes.len()
        invariant
            i <= bytes.len(),
            bytes@ == vstd::utf8::encode_utf8(s@),
            out@ == pct(bytes@.take(i as int)),
        decreases bytes.len() - i,
    {
        let b = bytes[i];
        proof {
            lemma_pct_snoc(bytes@.take(i as int), b);
            assert(bytes@.take(i as int).push(b) =~= bytes@.take(i as int + 1));
        }
        if (0x41 <= b && b <= 0x5A) || (0x61 <= b && b <= 0x7A) || (0x30 <= b && b <= 0x39) || b
            == 0x2D || b == 0x2E || b == 0x5F || b == 0x7E {
            out.push(b as char);
        } else {
            out.push('%');
            let hi = b / 16;
            let lo = b % 16;
            out.push(if hi < 10 {
                (0x30 + hi) as char
            } else {
                (0x37 + hi) as char
            });
            out.push(if lo < 10 {
                (0x30 + lo) as char
            } else {
                (0x37 + lo) as char
            });
        }
        i = i + 1;
    }
    proof {
        assert(bytes@.take(bytes@.len() as int) =~= bytes@);
    }
    out
}

/// Encoding one more byte appends that byte's encoding.
proof fn lemma_pct_snoc(bs: Seq<u8>, b: u8)
    ensures
        pct(bs.push(b)) == pct(bs) + pct_byte(b),
    decreases bs.len(),
{
    if bs.len() == 0 {
        assert(bs.push(b)[0] == b);
        assert(bs.push(b).drop_first() =~= Seq::<u8>::empty());
        assert(pct(Seq::<u8>::empty()) =~= Seq::<char>::empty());
        assert(pct_byte(b) + Seq::<char>::empty() =~= pct_byte(b));
        assert(pct(bs.push(b)) =~= pct_byte(b));
        assert(pct(bs) + pct_byte(b) =~= pct_byte(b));
    } else {
        assert(bs.push(b)[0] == bs[0]);
        assert(bs.push(b).drop_first() =~= bs.drop_first().push(b));
        lemma_pct_snoc(bs.drop_first(), b);
        assert(pct_byte(bs[0]) + (pct(bs.drop_first()) + pct_byte(b)) =~= (pct_byte(bs[0]) + pct(
            bs.drop_first(),
        )) + pct_byte(b));
    }
}


/// The first position at or after `i` holding this character, or the length
/// if there is none.
pub open spec fn find_char(q: Seq<char>, c: char, i: int) -> int
    decreases q.len() - i,
{
    if !(0 <= i && i < q.len()) {
        q.len() as int
    } else if q[i] == c {
        i
    } else {
        find_char(q, c, i + 1)
    }
}

/// One `key=value` query parameter: the key before the first `=`, the value
/// after it, percent-decoded.
pub open spec fn pair_of(piece: Seq<char>) -> Option<(Seq<char>, Seq<u8>)> {
    let e = find_char(piece, '=', 0);
    if e == piece.len() {
        None
    } else {
        match pct_decode(piece.skip(e + 1)) {
            Some(v) => Some((piece.take(e), v)),
            None => None,
        }
    }
}

/// A query of exactly two parameters separated by one `&`.
pub open spec fn two_params(q: Seq<char>) -> Option<((Seq<char>, Seq<u8>), (Seq<char>, Seq<u8>))> {
    let a = find_char(q, '&', 0);
    if a == q.len() {
        None
    } else {
        match (pair_of(q.take(a)), pair_of(q.skip(a + 1))) {
            (Some(p1), Some(p2)) => if find_char(q.skip(a + 1), '&', 0) == q.skip(a + 1).len() {
                Some((p1, p2))
            } else {
                None
            },
            _ => None,
        }
    }
}

/// `find_char` lands on the first occurrence.
pub proof fn lemma_find_char_at(q: Seq<char>, c: char, i: int, m: int)
    requires
        0 <= i <= m < q.len(),
        q[m] == c,
        forall|k: int| i <= k < m ==> q[k] != c,
    ensures
        find_char(q, c, i) == m,
    decreases m - i,
{
    if i < m {
        lemma_find_char_at(q, c, i + 1, m);
    }
}

/// `find_char` runs to the end when the character does not occur.
pub proof fn lemma_find_char_none(q: Seq<char>, c: char, i: int)
    requires
        0 <= i <= q.len(),
        forall|k: int| i <= k < q.len() ==> q[k] != c,
    ensures
        find_char(q, c, i) == q.len(),
    decreases q.len() - i,
{
    if i < q.len() {
        lemma_find_char_none(q, c, i + 1);
    }
}

} // verus!
