//! JSON values and a verified parser for them.
//!
//! The daemon frames every response as JSON text. This module defines the
//! subset of JSON values the client models, a mathematical parsing function
//! over character sequences that serves as the definition of the accepted
//! grammar, and an executable parser proved to return exactly what that
//! definition says.
//!
//! Numbers with a fraction or an exponent, and integers beyond the `i64`
//! range, are syntactically accepted but carry no information the envelope
//! model uses; they parse to [`JsonValue::OtherNum`].
use vstd::prelude::*;

verus! {

broadcast use vstd::std_specs::vec::group_vec_axioms;

/// A JSON value, in the subset this client models.
#[derive(Debug)]
pub enum JsonValue {
    Null,
    Bool(bool),
    Int(i64),
    Str(String),
    Arr(Vec<JsonValue>),
    Obj(Vec<(String, JsonValue)>),
    /// A syntactically valid JSON number outside the modeled range.
    OtherNum,
}

/// Mathematical model of a [`JsonValue`].
pub enum JsonData {
    Null,
    Bool(bool),
    Int(i64),
    Str(Seq<char>),
    Arr(Seq<JsonData>),
    Obj(Seq<(Seq<char>, JsonData)>),
    OtherNum,
}

/// Models of the elements of an array.
pub open spec fn arr_model(elems: Seq<JsonValue>) -> Seq<JsonData>
    decreases elems,
{
    Seq::new(elems.len(), |i: int| if 0 <= i < elems.len() { elems[i].model() } else { JsonData::Null })
}

/// Models of the members of an object.
pub open spec fn obj_model(members: Seq<(String, JsonValue)>) -> Seq<(Seq<char>, JsonData)>
    decreases members,
{
    Seq::new(
        members.len(),
        |i: int| if 0 <= i < members.len() { (members[i].0@, members[i].1.model()) } else {
            (Seq::<char>::empty(), JsonData::Null)
        },
    )
}

impl JsonValue {
    /// The mathematical value this executable value stands for.
    pub open spec fn model(self) -> JsonData
        decreases self,
    {
        match self {
            JsonValue::Null => JsonData::Null,
            JsonValue::Bool(b) => JsonData::Bool(b),
            JsonValue::Int(i) => JsonData::Int(i),
            JsonValue::Str(s) => JsonData::Str(s@),
            JsonValue::Arr(elems) => JsonData::Arr(arr_model(elems@)),
            JsonValue::Obj(members) => JsonData::Obj(obj_model(members@)),
            JsonValue::OtherNum => JsonData::OtherNum,
        }
    }
}

/// The model of an optional value, for relating parser results.
pub open spec fn model_opt(r: Option<JsonValue>) -> Option<JsonData> {
    match r {
        Some(v) => Some(v.model()),
        None => None,
    }
}

/// JSON insignificant whitespace.
pub open spec fn is_ws(c: char) -> bool {
    c == ' ' || c == '\t' || c == '\n' || c == '\r'
}

/// An ASCII decimal digit.
pub open spec fn is_digit(c: char) -> bool {
    '0' <= c && c <= '9'
}

/// The value of a decimal digit.
pub open spec fn digit_val(c: char) -> int {
    c as int - '0' as int
}

/// The value of a hexadecimal digit, or 16 if the character is none.
pub open spec fn hex_digit_val(c: char) -> int {
    if '0' <= c && c <= '9' {
        c as int - '0' as int
    } else if 'a' <= c && c <= 'f' {
        c as int - 'a' as int + 10
    } else if 'A' <= c && c <= 'F' {
        c as int - 'A' as int + 10
    } else {
        16
    }
}

/// The first position at or after `i` holding no whitespace.
pub open spec fn skip_ws(s: Seq<char>, i: int) -> int
    decreases s.len() - i,
{
    if 0 <= i && i < s.len() && is_ws(s[i]) {
        skip_ws(s, i + 1)
    } else {
        i
    }
}

/// The first position at or after `i` holding no digit.
pub open spec fn scan_digits(s: Seq<char>, i: int) -> int
    decreases s.len() - i,
{
    if 0 <= i && i < s.len() && is_digit(s[i]) {
        scan_digits(s, i + 1)
    } else {
        i
    }
}

/// The value of the decimal digits between `i` and `j`.
pub open spec fn digits_val(s: Seq<char>, i: int, j: int) -> int
    decreases j - i,
{
    if j <= i {
        0
    } else {
        10 * digits_val(s, i, j - 1) + digit_val(s[j - 1])
    }
}

/// The four hexadecimal digits starting at `i`, as a number, if present.
pub open spec fn hex4(s: Seq<char>, i: int) -> Option<u32> {
    if 0 <= i && i + 4 <= s.len() && hex_digit_val(s[i]) < 16 && hex_digit_val(s[i + 1]) < 16
        && hex_digit_val(s[i + 2]) < 16 && hex_digit_val(s[i + 3]) < 16 {
        Some(
            (4096 * hex_digit_val(s[i]) + 256 * hex_digit_val(s[i + 1]) + 16 * hex_digit_val(
                s[i + 2],
            ) + hex_digit_val(s[i + 3])) as u32,
        )
    } else {
        None
    }
}

/// The character a short escape letter stands for, or `None`.
pub open spec fn short_escape(c: char) -> Option<char> {
    if c == '"' {
        Some('"')
    } else if c == '\\' {
        Some('\\')
    } else if c == '/' {
        Some('/')
    } else if c == 'b' {
        Some('\u{0008}')
    } else if c == 'f' {
        Some('\u{000C}')
    } else if c == 'n' {
        Some('\n')
    } else if c == 'r' {
        Some('\r')
    } else if c == 't' {
        Some('\t')
    } else {
        None
    }
}

/// Parses the contents of a string literal starting at `i` (just after the
/// opening quote), up to and including the closing quote. Returns the decoded
/// characters and the position after the closing quote.
pub open spec fn parse_string_chars(s: Seq<char>, i: int) -> Option<(Seq<char>, int)>
    decreases s.len() - i,
{
    if !(0 <= i && i < s.len()) {
        None
    } else if s[i] == '"' {
        Some((Seq::<char>::empty(), i + 1))
    } else if s[i] == '\\' {
        if i + 1 < s.len() {
            let e = s[i + 1];
            if short_escape(e) is Some {
                match parse_string_chars(s, i + 2) {
                    Some((rest, j)) => Some((seq![short_escape(e)->Some_0] + rest, j)),
                    None => None,
                }
            } else if e == 'u' {
                match hex4(s, i + 2) {
                    Some(v) => if 0xD800 <= v && v < 0xDC00 {
                        // high surrogate: a low surrogate must follow
                        if i + 8 <= s.len() && s[i + 6] == '\\' && s[i + 7] == 'u' {
                            match hex4(s, i + 8) {
                                Some(w) => if 0xDC00 <= w && w < 0xE000 {
                                    let cp = (0x10000 + (v - 0xD800) * 0x400 + (w
                                        - 0xDC00)) as u32;
                                    match parse_string_chars(s, i + 12) {
                                        Some((rest, j)) => Some((seq![cp as char] + rest, j)),
                                        None => None,
                                    }
                                } else {
                                    None
                                },
                                None => None,
                            }
                        } else {
                            None
                        }
                    } else if 0xDC00 <= v && v < 0xE000 {
                        // lone low surrogate
                        None
                    } else {
                        match parse_string_chars(s, i + 6) {
                            Some((rest, j)) => Some((seq![v as char] + rest, j)),
                            None => None,
                        }
                    },
                    None => None,
                }
            } else {
                None
            }
        } else {
            None
        }
    } else if (s[i] as u32) < 0x20 {
        // raw control characters are not allowed inside strings
        None
    } else {
        match parse_string_chars(s, i + 1) {
            Some((rest, j)) => Some((seq![s[i]] + rest, j)),
            None => None,
        }
    }
}

/// The position after an optional fraction part at `p`, or `None` if a
/// fraction starts there but is malformed.
pub open spec fn frac_end(s: Seq<char>, p: int) -> Option<int> {
    if 0 <= p && p < s.len() && s[p] == '.' {
        if scan_digits(s, p + 1) == p + 1 {
            None
        } else {
            Some(scan_digits(s, p + 1))
        }
    } else {
        Some(p)
    }
}

/// The position after an optional exponent part at `p`, or `None` if an
/// exponent starts there but is malformed.
pub open spec fn exp_end(s: Seq<char>, p: int) -> Option<int> {
    if 0 <= p && p < s.len() && (s[p] == 'e' || s[p] == 'E') {
        let q = if p + 1 < s.len() && (s[p + 1] == '+' || s[p + 1] == '-') {
            p + 2
        } else {
            p + 1
        };
        if scan_digits(s, q) == q {
            None
        } else {
            Some(scan_digits(s, q))
        }
    } else {
        Some(p)
    }
}

/// Parses a number starting at `i`. An integer in the `i64` range parses to
/// [`JsonData::Int`]; any other well-formed number to [`JsonData::OtherNum`].
pub open spec fn parse_number(s: Seq<char>, i: int) -> Option<(JsonData, int)> {
    if !(0 <= i && i < s.len()) {
        None
    } else {
        let neg = s[i] == '-';
        let d0 = if neg {
            i + 1
        } else {
            i
        };
        if !(d0 < s.len() && is_digit(s[d0])) {
            None
        } else if s[d0] == '0' && scan_digits(s, d0) != d0 + 1 {
            // no leading zeros
            None
        } else {
            let dend = scan_digits(s, d0);
            match frac_end(s, dend) {
                None => None,
                Some(p1) => match exp_end(s, p1) {
                    None => None,
                    Some(p2) => if p1 != dend || p2 != p1 {
                        Some((JsonData::OtherNum, p2))
                    } else {
                        let mag = digits_val(s, d0, dend);
                        if neg && mag <= 0x8000_0000_0000_0000 {
                            Some((JsonData::Int((-mag) as i64), p2))
                        } else if !neg && mag <= 0x7fff_ffff_ffff_ffff {
                            Some((JsonData::Int(mag as i64), p2))
                        } else {
                            Some((JsonData::OtherNum, p2))
                        }
                    },
                },
            }
        }
    }
}

/// Parses a value starting exactly at `i` (no leading whitespace). Returns
/// the value and the position just after it. The fuel bounds the recursion;
/// [`json_parse`] supplies more than any input can consume.
pub open spec fn parse_value(s: Seq<char>, i: int, fuel: nat) -> Option<(JsonData, int)>
    decreases fuel,
{
    if fuel == 0 {
        None
    } else if !(0 <= i && i < s.len()) {
        None
    } else {
        let f = (fuel - 1) as nat;
        let c = s[i];
        if c == 'n' {
            if s.len() - i > 3 && s[i + 1] == 'u' && s[i + 2] == 'l' && s[i + 3] == 'l' {
                Some((JsonData::Null, i + 4))
            } else {
                None
            }
        } else if c == 't' {
            if s.len() - i > 3 && s[i + 1] == 'r' && s[i + 2] == 'u' && s[i + 3] == 'e' {
                Some((JsonData::Bool(true), i + 4))
            } else {
                None
            }
        } else if c == 'f' {
            if s.len() - i > 4 && s[i + 1] == 'a' && s[i + 2] == 'l' && s[i + 3] == 's' && s[i + 4]
                == 'e' {
                Some((JsonData::Bool(false), i + 5))
            } else {
                None
            }
        } else if c == '"' {
            match parse_string_chars(s, i + 1) {
                Some((cs, j)) => Some((JsonData::Str(cs), j)),
                None => None,
            }
        } else if c == '-' || is_digit(c) {
            parse_number(s, i)
        } else if c == '[' {
            let j = skip_ws(s, i + 1);
            if j < s.len() && s[j] == ']' {
                Some((JsonData::Arr(Seq::empty()), j + 1))
            } else {
                match parse_elements(s, i + 1, f) {
                    Some((elems, k)) => Some((JsonData::Arr(elems), k)),
                    None => None,
                }
            }
        } else if c == '{' {
            let j = skip_ws(s, i + 1);
            if j < s.len() && s[j] == '}' {
                Some((JsonData::Obj(Seq::empty()), j + 1))
            } else {
                match parse_members(s, i + 1, f) {
                    Some((members, k)) => Some((JsonData::Obj(members), k)),
                    None => None,
                }
            }
        } else {
            None
        }
    }
}

/// Parses the elements of a non-empty array from `i` up to and including the
/// closing bracket.
pub open spec fn parse_elements(s: Seq<char>, i: int, fuel: nat) -> Option<(Seq<JsonData>, int)>
    decreases fuel,
{
    if fuel == 0 {
        None
    } else {
        let f = (fuel - 1) as nat;
        match parse_value(s, skip_ws(s, i), f) {
            None => None,
            Some((v, j)) => {
                let j1 = skip_ws(s, j);
                if j1 < s.len() && s[j1] == ',' {
                    match parse_elements(s, j1 + 1, f) {
                        Some((rest, k)) => Some((seq![v] + rest, k)),
                        None => None,
                    }
                } else if j1 < s.len() && s[j1] == ']' {
                    Some((seq![v], j1 + 1))
                } else {
                    None
                }
            },
        }
    }
}

/// Parses the members of a non-empty object from `i` up to and including the
/// closing brace.
pub open spec fn parse_members(s: Seq<char>, i: int, fuel: nat) -> Option<
    (Seq<(Seq<char>, JsonData)>, int),
>
    decreases fuel,
{
    if fuel == 0 {
        None
    } else {
        let f = (fuel - 1) as nat;
        let i1 = skip_ws(s, i);
        if i1 < s.len() && s[i1] == '"' {
            match parse_string_chars(s, i1 + 1) {
                None => None,
                Some((key, j)) => {
                    let j1 = skip_ws(s, j);
                    if j1 < s.len() && s[j1] == ':' {
                        match parse_value(s, skip_ws(s, j1 + 1), f) {
                            None => None,
                            Some((v, k)) => {
                                let k1 = skip_ws(s, k);
                                if k1 < s.len() && s[k1] == ',' {
                                    match parse_members(s, k1 + 1, f) {
                                        Some((rest, m)) => Some((seq![(key, v)] + rest, m)),
                                        None => None,
                                    }
                                } else if k1 < s.len() && s[k1] == '}' {
                                    Some((seq![(key, v)], k1 + 1))
                                } else {
                                    None
                                }
                            },
                        }
                    } else {
                        None
                    }
                },
            }
        } else {
            None
        }
    }
}

/// What a complete JSON text denotes: a single value, with insignificant
/// whitespace around it, spanning the whole text. This function is the
/// definition of the grammar this crate accepts.
pub open spec fn json_parse(s: Seq<char>) -> Option<JsonData> {
    match parse_value(s, skip_ws(s, 0), 2 * s.len() + 4) {
        Some((v, j)) => if skip_ws(s, j) == s.len() {
            Some(v)
        } else {
            None
        },
        None => None,
    }
}

/// `skip_ws` stays between its argument and the end of the text.
pub proof fn lemma_skip_ws_bounds(s: Seq<char>, i: int)
    requires
        0 <= i <= s.len(),
    ensures
        i <= skip_ws(s, i) <= s.len(),
    decreases s.len() - i,
{
    if i < s.len() && is_ws(s[i]) {
        lemma_skip_ws_bounds(s, i + 1);
    }
}

/// `scan_digits` stays in range, scans digits only, and stops at the first
/// position holding none.
pub proof fn lemma_scan_digits_facts(s: Seq<char>, i: int)
    requires
        0 <= i <= s.len(),
    ensures
        i <= scan_digits(s, i) <= s.len(),
        forall|k: int| i <= k < scan_digits(s, i) ==> is_digit(#[trigger] s[k]),
        scan_digits(s, i) < s.len() ==> !is_digit(s[scan_digits(s, i)]),
    decreases s.len() - i,
{
    if i < s.len() && is_digit(s[i]) {
        lemma_scan_digits_facts(s, i + 1);
    }
}

/// A digit string has a nonnegative value.
pub proof fn lemma_digits_val_nonneg(s: Seq<char>, i: int, j: int)
    requires
        forall|k: int| i <= k < j ==> is_digit(#[trigger] s[k]),
    ensures
        digits_val(s, i, j) >= 0,
    decreases j - i,
{
    if j > i {
        lemma_digits_val_nonneg(s, i, j - 1);
    }
}

/// Reading more digits never shrinks the value.
pub proof fn lemma_digits_val_mono(s: Seq<char>, i: int, j: int, k: int)
    requires
        i <= j <= k,
        forall|m: int| i <= m < k ==> is_digit(#[trigger] s[m]),
    ensures
        digits_val(s, i, j) <= digits_val(s, i, k),
    decreases k - j,
{
    if j < k {
        lemma_digits_val_mono(s, i, j, k - 1);
        lemma_digits_val_nonneg(s, i, k - 1);
    }
}

/// Skips insignificant whitespace, returning the first position at or after
/// `i` that holds none.
fn skip_ws_exec(s: &Vec<char>, i: usize) -> (r: usize)
    requires
        i <= s.len(),
    ensures
        r as int == skip_ws(s@, i as int),
        i <= r <= s.len(),
{
    let mut cur: usize = i;
    while cur < s.len() && (s[cur] == ' ' || s[cur] == '\t' || s[cur] == '\n' || s[cur] == '\r')
        invariant
            i <= cur <= s.len(),
            skip_ws(s@, i as int) == skip_ws(s@, cur as int),
        decreases s.len() - cur,
    {
        cur = cur + 1;
    }
    proof {
        assert(skip_ws(s@, cur as int) == cur as int);
    }
    cur
}

/// Returns the first position at or after `i` that holds no decimal digit.
fn scan_digits_exec(s: &Vec<char>, i: usize) -> (r: usize)
    requires
        i <= s.len(),
    ensures
        r as int == scan_digits(s@, i as int),
        i <= r <= s.len(),
{
    let mut cur: usize = i;
    while cur < s.len() && '0' <= s[cur] && s[cur] <= '9'
        invariant
            i <= cur <= s.len(),
            scan_digits(s@, i as int) == scan_digits(s@, cur as int),
        decreases s.len() - cur,
    {
        cur = cur + 1;
    }
    proof {
        assert(scan_digits(s@, cur as int) == cur as int);
    }
    cur
}

/// The value of the digits between `start` and `end`, or `None` when it
/// exceeds `u64::MAX`.
fn digits_to_u64(s: &Vec<char>, start: usize, end: usize) -> (r: Option<u64>)
    requires
        start <= end <= s.len(),
        forall|k: int| start <= k < end ==> is_digit(#[trigger] s@[k]),
    ensures
        r matches Some(v) ==> v as int == digits_val(s@, start as int, end as int),
        r is None ==> digits_val(s@, start as int, end as int) > u64::MAX,
{
    let mut acc: u128 = 0;
    let mut j: usize = start;
    while j < end
        invariant
            start <= j <= end <= s.len(),
            forall|k: int| start <= k < end ==> is_digit(#[trigger] s@[k]),
            acc as int == digits_val(s@, start as int, j as int),
            acc <= u64::MAX,
        decreases end - j,
    {
        let c = s[j];
        let d: u128 = (c as u32 as u128) - ('0' as u32 as u128);
        acc = acc * 10 + d;
        j = j + 1;
        if acc > u64::MAX as u128 {
            proof {
                lemma_digits_val_mono(s@, start as int, j as int, end as int);
            }
            return None;
        }
    }
    Some(acc as u64)
}

/// Reads the four hexadecimal digits starting at `i`, if present.
fn hex4_exec(s: &Vec<char>, i: usize) -> (r: Option<u32>)
    requires
        i <= s.len(),
    ensures
        r == hex4(s@, i as int),
{
    if s.len() - i >= 4 {
        let h0 = hex_digit_exec(s[i]);
        let h1 = hex_digit_exec(s[i + 1]);
        let h2 = hex_digit_exec(s[i + 2]);
        let h3 = hex_digit_exec(s[i + 3]);
        if h0 < 16 && h1 < 16 && h2 < 16 && h3 < 16 {
            Some(4096 * h0 + 256 * h1 + 16 * h2 + h3)
        } else {
            None
        }
    } else {
        None
    }
}

/// The value of a hexadecimal digit, or 16 if the character is none.
fn hex_digit_exec(c: char) -> (r: u32)
    ensures
        r as int == hex_digit_val(c),
{
    if '0' <= c && c <= '9' {
        c as u32 - '0' as u32
    } else if 'a' <= c && c <= 'f' {
        c as u32 - 'a' as u32 + 10
    } else if 'A' <= c && c <= 'F' {
        c as u32 - 'A' as u32 + 10
    } else {
        16
    }
}

/// The result of parsing string contents, with a prefix already decoded.
pub open spec fn prepend_chars(prefix: Seq<char>, r: Option<(Seq<char>, int)>) -> Option<
    (Seq<char>, int),
> {
    match r {
        Some((cs, j)) => Some((prefix + cs, j)),
        None => None,
    }
}

proof fn lemma_prepend_assoc(prefix: Seq<char>, c: char, r: Option<(Seq<char>, int)>)
    ensures
        prepend_chars(prefix, prepend_chars(seq![c], r)) == prepend_chars(prefix.push(c), r),
{
    match r {
        Some((cs, j)) => {
            assert(prefix + (seq![c] + cs) =~= prefix.push(c) + cs);
        },
        None => {},
    }
}

/// Decodes the contents of a string literal starting at `start` (just after
/// the opening quote), up to and including the closing quote.
fn parse_string_body(s: &Vec<char>, start: usize) -> (r: Option<(String, usize)>)
    requires
        start <= s.len(),
    ensures
        r matches Some(p) ==> parse_string_chars(s@, start as int) == Some((p.0@, p.1 as int))
            && p.1 <= s.len(),
        r is None ==> parse_string_chars(s@, start as int) is None,
{
    let mut acc = String::new();
    let mut cur: usize = start;
    loop
        invariant
            start <= cur <= s.len(),
            parse_string_chars(s@, start as int) == prepend_chars(
                acc@,
                parse_string_chars(s@, cur as int),
            ),
        decreases s.len() - cur,
    {
        if cur == s.len() {
            return None;
        }
        let c = s[cur];
        if c == '"' {
            proof {
                assert(acc@ + Seq::<char>::empty() =~= acc@);
            }
            return Some((acc, cur + 1));
        }
        if c == '\\' {
            if s.len() - cur < 2 {
                return None;
            }
            let e = s[cur + 1];
            let short = short_escape_exec(e);
            match short {
                Some(t) => {
                    proof {
                        lemma_prepend_assoc(acc@, t, parse_string_chars(s@, cur as int + 2));
                    }
                    acc.push(t);
                    cur = cur + 2;
                },
                None => {
                    if e == 'u' {
                        let h = hex4_exec(s, cur + 2);
                        match h {
                            Some(v) => {
                                if 0xD800 <= v && v < 0xDC00 {
                                    if s.len() - cur >= 8 && s[cur + 6] == '\\' && s[cur + 7]
                                        == 'u' {
                                        let h2 = hex4_exec(s, cur + 8);
                                        match h2 {
                                            Some(w) => {
                                                if 0xDC00 <= w && w < 0xE000 {
                                                    let cp: u32 = 0x10000 + (v - 0xD800) * 0x400
                                                        + (w - 0xDC00);
                                                    let ch = char::from_u32(cp);
                                                    match ch {
                                                        Some(t) => {
                                                            proof {
                                                                lemma_prepend_assoc(
                                                                    acc@,
                                                                    t,
                                                                    parse_string_chars(
                                                                        s@,
                                                                        cur as int + 12,
                                                                    ),
                                                                );
                                                            }
                                                            acc.push(t);
                                                            cur = cur + 12;
                                                        },
                                                        None => {
                                                            proof {
                                                                assert(false);
                                                            }
                                                            return None;
                                                        },
                                                    }
                                                } else {
                                                    return None;
                                                }
                                            },
                                            None => {
                                                return None;
                                            },
                                        }
                                    } else {
                                        return None;
                                    }
                                } else if 0xDC00 <= v && v < 0xE000 {
                                    return None;
                                } else {
                                    let ch = char::from_u32(v);
                                    match ch {
                                        Some(t) => {
                                            proof {
                                                lemma_prepend_assoc(
                                                    acc@,
                                                    t,
                                                    parse_string_chars(s@, cur as int + 6),
                                                );
                                            }
                                            acc.push(t);
                                            cur = cur + 6;
                                        },
                                        None => {
                                            proof {
                                                assert(false);
                                            }
                                            return None;
                                        },
                                    }
                                }
                            },
                            None => {
                                return None;
                            },
                        }
                    } else {
                        return None;
                    }
                },
            }
        } else if (c as u32) < 0x20 {
            return None;
        } else {
            proof {
                lemma_prepend_assoc(acc@, c, parse_string_chars(s@, cur as int + 1));
            }
            acc.push(c);
            cur = cur + 1;
        }
    }
}

/// Executable form of [`short_escape`].
fn short_escape_exec(c: char) -> (r: Option<char>)
    ensures
        r == short_escape(c),
{
    if c == '"' {
        Some('"')
    } else if c == '\\' {
        Some('\\')
    } else if c == '/' {
        Some('/')
    } else if c == 'b' {
        Some('\u{0008}')
    } else if c == 'f' {
        Some('\u{000C}')
    } else if c == 'n' {
        Some('\n')
    } else if c == 'r' {
        Some('\r')
    } else if c == 't' {
        Some('\t')
    } else {
        None
    }
}

/// Parses a number starting at `i`.
fn parse_number_exec(s: &Vec<char>, i: usize) -> (r: Option<(JsonValue, usize)>)
    requires
        i <= s.len(),
    ensures
        r matches Some(p) ==> parse_number(s@, i as int) == Some((p.0.model(), p.1 as int))
            && p.1 <= s.len(),
        r is None ==> parse_number(s@, i as int) is None,
{
    if i >= s.len() {
        return None;
    }
    let neg = s[i] == '-';
    let d0: usize = if neg {
        i + 1
    } else {
        i
    };
    if !(d0 < s.len() && '0' <= s[d0] && s[d0] <= '9') {
        return None;
    }
    let dend = scan_digits_exec(s, d0);
    if s[d0] == '0' && dend != d0 + 1 {
        return None;
    }
    let p1: usize;
    if dend < s.len() && s[dend] == '.' {
        let e = scan_digits_exec(s, dend + 1);
        if e == dend + 1 {
            return None;
        }
        p1 = e;
    } else {
        p1 = dend;
    }
    let p2: usize;
    if p1 < s.len() && (s[p1] == 'e' || s[p1] == 'E') {
        let q: usize = if p1 + 1 < s.len() && (s[p1 + 1] == '+' || s[p1 + 1] == '-') {
            p1 + 2
        } else {
            p1 + 1
        };
        let e = scan_digits_exec(s, q);
        if e == q {
            return None;
        }
        p2 = e;
    } else {
        p2 = p1;
    }
    if p1 != dend || p2 != p1 {
        return Some((JsonValue::OtherNum, p2));
    }
    proof {
        lemma_scan_digits_facts(s@, d0 as int);
    }
    let mag = digits_to_u64(s, d0, dend);
    match mag {
        Some(m) => {
            if neg {
                if m <= 0x8000_0000_0000_0000u64 {
                    let v: i64 = if m == 0x8000_0000_0000_0000u64 {
                        i64::MIN
                    } else {
                        -(m as i64)
                    };
                    Some((JsonValue::Int(v), p2))
                } else {
                    Some((JsonValue::OtherNum, p2))
                }
            } else {
                if m <= 0x7fff_ffff_ffff_ffffu64 {
                    Some((JsonValue::Int(m as i64), p2))
                } else {
                    Some((JsonValue::OtherNum, p2))
                }
            }
        },
        None => Some((JsonValue::OtherNum, p2)),
    }
}


/// Parses a value starting exactly at `i`.
fn parse_value_exec(s: &Vec<char>, i: usize, fuel: u128) -> (r: Option<(JsonValue, usize)>)
    requires
        i <= s.len(),
    ensures
        r matches Some(p) ==> parse_value(s@, i as int, fuel as nat) == Some(
            (p.0.model(), p.1 as int),
        ) && p.1 <= s.len(),
        r is None ==> parse_value(s@, i as int, fuel as nat) is None,
    decreases fuel,
{
    if fuel == 0 {
        return None;
    }
    if i >= s.len() {
        return None;
    }
    let f: u128 = fuel - 1;
    let c = s[i];
    if c == 'n' {
        if s.len() - i > 3 && s[i + 1] == 'u' && s[i + 2] == 'l' && s[i + 3] == 'l' {
            Some((JsonValue::Null, i + 4))
        } else {
            None
        }
    } else if c == 't' {
        if s.len() - i > 3 && s[i + 1] == 'r' && s[i + 2] == 'u' && s[i + 3] == 'e' {
            Some((JsonValue::Bool(true), i + 4))
        } else {
            None
        }
    } else if c == 'f' {
        if s.len() - i > 4 && s[i + 1] == 'a' && s[i + 2] == 'l' && s[i + 3] == 's' && s[i + 4]
            == 'e' {
            Some((JsonValue::Bool(false), i + 5))
        } else {
            None
        }
    } else if c == '"' {
        match parse_string_body(s, i + 1) {
            Some((out, j)) => Some((JsonValue::Str(out), j)),
            None => None,
        }
    } else if c == '-' || ('0' <= c && c <= '9') {
        parse_number_exec(s, i)
    } else if c == '[' {
        let j = skip_ws_exec(s, i + 1);
        if j < s.len() && s[j] == ']' {
            let out: Vec<JsonValue> = Vec::new();
            proof {
                assert(arr_model(out@) =~= Seq::<JsonData>::empty());
            }
            Some((JsonValue::Arr(out), j + 1))
        } else {
            match parse_elements_exec(s, i + 1, f) {
                Some((elems, k)) => Some((JsonValue::Arr(elems), k)),
                None => None,
            }
        }
    } else if c == '{' {
        let j = skip_ws_exec(s, i + 1);
        if j < s.len() && s[j] == '}' {
            let out: Vec<(String, JsonValue)> = Vec::new();
            proof {
                assert(obj_model(out@) =~= Seq::<(Seq<char>, JsonData)>::empty());
            }
            Some((JsonValue::Obj(out), j + 1))
        } else {
            match parse_members_exec(s, i + 1, f) {
                Some((members, k)) => Some((JsonValue::Obj(members), k)),
                None => None,
            }
        }
    } else {
        None
    }
}

/// Parses the elements of a non-empty array.
fn parse_elements_exec(s: &Vec<char>, i: usize, fuel: u128) -> (r: Option<(Vec<JsonValue>, usize)>)
    requires
        i <= s.len(),
    ensures
        r matches Some(p) ==> parse_elements(s@, i as int, fuel as nat) == Some(
            (arr_model(p.0@), p.1 as int),
        ) && p.1 <= s.len(),
        r is None ==> parse_elements(s@, i as int, fuel as nat) is None,
    decreases fuel,
{
    if fuel == 0 {
        return None;
    }
    let f: u128 = fuel - 1;
    let i1 = skip_ws_exec(s, i);
    match parse_value_exec(s, i1, f) {
        None => None,
        Some((v, j)) => {
            let j1 = skip_ws_exec(s, j);
            if j1 < s.len() && s[j1] == ',' {
                match parse_elements_exec(s, j1 + 1, f) {
                    Some((rest, k)) => {
                        let ghost old_rest = rest@;
                        let ghost vm = v.model();
                        let mut out = rest;
                        out.insert(0, v);
                        proof {
                            assert(arr_model(out@) =~= seq![vm] + arr_model(old_rest));
                        }
                        Some((out, k))
                    },
                    None => None,
                }
            } else if j1 < s.len() && s[j1] == ']' {
                let ghost vm = v.model();
                let mut out: Vec<JsonValue> = Vec::new();
                out.push(v);
                proof {
                    assert(arr_model(out@) =~= seq![vm]);
                }
                Some((out, j1 + 1))
            } else {
                None
            }
        },
    }
}

/// Parses the members of a non-empty object.
fn parse_members_exec(s: &Vec<char>, i: usize, fuel: u128) -> (r: Option<
    (Vec<(String, JsonValue)>, usize),
>)
    requires
        i <= s.len(),
    ensures
        r matches Some(p) ==> parse_members(s@, i as int, fuel as nat) == Some(
            (obj_model(p.0@), p.1 as int),
        ) && p.1 <= s.len(),
        r is None ==> parse_members(s@, i as int, fuel as nat) is None,
    decreases fuel,
{
    if fuel == 0 {
        return None;
    }
    let f: u128 = fuel - 1;
    let i1 = skip_ws_exec(s, i);
    if i1 < s.len() && s[i1] == '"' {
        match parse_string_body(s, i1 + 1) {
            None => None,
            Some((key, j)) => {
                let j1 = skip_ws_exec(s, j);
                if j1 < s.len() && s[j1] == ':' {
                    let i2 = skip_ws_exec(s, j1 + 1);
                    match parse_value_exec(s, i2, f) {
                        None => None,
                        Some((v, k)) => {
                            let k1 = skip_ws_exec(s, k);
                            if k1 < s.len() && s[k1] == ',' {
                                match parse_members_exec(s, k1 + 1, f) {
                                    Some((rest, m)) => {
                                        let ghost old_rest = rest@;
                                        let ghost pm = (key@, v.model());
                                        let mut out = rest;
                                        out.insert(0, (key, v));
                                        proof {
                                            assert(obj_model(out@) =~= seq![pm] + obj_model(
                                                old_rest,
                                            ));
                                        }
                                        Some((out, m))
                                    },
                                    None => None,
                                }
                            } else if k1 < s.len() && s[k1] == '}' {
                                let ghost pm = (key@, v.model());
                                let mut out: Vec<(String, JsonValue)> = Vec::new();
                                out.push((key, v));
                                proof {
                                    assert(obj_model(out@) =~= seq![pm]);
                                }
                                Some((out, k1 + 1))
                            } else {
                                None
                            }
                        },
                    }
                } else {
                    None
                }
            },
        }
    } else {
        None
    }
}

/// Turns a string into the vector of its characters.
fn str_to_chars(s: &str) -> (r: Vec<char>)
    ensures
        r@ == s@,
{
    let n = s.unicode_len();
    let mut v: Vec<char> = Vec::new();
    let mut i: usize = 0;
    while i < n
        invariant
            i <= n,
            n == s@.len(),
            v@ =~= s@.subrange(0, i as int),
        decreases n - i,
    {
        let c = s.get_char(i);
        v.push(c);
        i = i + 1;
        proof {
            assert(v@ =~= s@.subrange(0, i as int));
        }
    }
    proof {
        assert(v@ =~= s@);
    }
    v
}

/// Parses a complete JSON text: one value surrounded by insignificant
/// whitespace. Returns exactly what [`json_parse`] denotes.
pub fn parse_json_text(s: &str) -> (r: Option<JsonValue>)
    ensures
        model_opt(r) == json_parse(s@),
{
    let chars = str_to_chars(s);
    let fuel: u128 = 2 * (chars.len() as u128) + 4;
    let i0 = skip_ws_exec(&chars, 0);
    match parse_value_exec(&chars, i0, fuel) {
        None => None,
        Some((v, j)) => {
            let k = skip_ws_exec(&chars, j);
            if k == chars.len() {
                Some(v)
            } else {
                None
            }
        },
    }
}

} // verus!
