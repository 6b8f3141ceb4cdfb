//! Color values and the textual color parser.
//!
//! A color is parsed from one of three textual grammars: a hex literal
//! (`#rgb`, `#rgba`, `#rrggbb`, `#rrggbbaa`), `rgb(r,g,b)` functional
//! notation, or `rgba(r,g,b,a)` functional notation. Anything else is
//! rejected; nothing is ever clamped to a default color.

use vstd::prelude::*;

verus! {

/// A normalized color value: red, green, blue and alpha channels, each
/// stored as a byte (255 stands for a fully saturated channel or a fully
/// opaque alpha).
#[derive(Clone, Copy, Debug, PartialEq, Eq, Structural)]
pub struct Color {
    pub r: u8,
    pub g: u8,
    pub b: u8,
    pub a: u8,
}

/// Why a textual color was rejected.
#[derive(Clone, Copy, Debug, PartialEq, Eq, Structural)]
pub enum ColorParseError {
    /// The text matches none of the accepted grammars at all.
    UnrecognizedFormat,
    /// The text starts like a hex or functional color but is shaped wrong.
    MalformedLiteral,
    /// A numeric component lies outside its range (255 for channels, 1 for alpha).
    OutOfRangeComponent,
}

// ---------------------------------------------------------------------------
// Spec-level character classes and numeric values
// ---------------------------------------------------------------------------

pub open spec fn is_dec_digit(c: char) -> bool {
    '0' <= c && c <= '9'
}

pub open spec fn dec_digit_val(c: char) -> nat {
    (c as u32 - '0' as u32) as nat
}

pub open spec fn is_hex_digit(c: char) -> bool {
    is_dec_digit(c) || ('a' <= c && c <= 'f') || ('A' <= c && c <= 'F')
}

pub open spec fn hex_digit_val(c: char) -> nat {
    if is_dec_digit(c) {
        dec_digit_val(c)
    } else if 'a' <= c && c <= 'f' {
        (c as u32 - 'a' as u32 + 10) as nat
    } else {
        (c as u32 - 'A' as u32 + 10) as nat
    }
}

pub open spec fn all_dec_digits(s: Seq<char>) -> bool {
    forall|i: int| 0 <= i < s.len() ==> is_dec_digit(#[trigger] s[i])
}

pub open spec fn all_hex_digits(s: Seq<char>) -> bool {
    forall|i: int| 0 <= i < s.len() ==> is_hex_digit(#[trigger] s[i])
}

/// Value of a decimal digit string, most significant digit first.
pub open spec fn dec_val(s: Seq<char>) -> nat
    decreases s.len(),
{
    if s.len() == 0 {
        0
    } else {
        dec_val(s.drop_last()) * 10 + dec_digit_val(s.last())
    }
}

pub open spec fn pow10(k: nat) -> nat
    decreases k,
{
    if k == 0 {
        1
    } else {
        10 * pow10((k - 1) as nat)
    }
}

// ---------------------------------------------------------------------------
// Spec-level trimming and scanning
// ---------------------------------------------------------------------------

pub open spec fn trim_left(s: Seq<char>) -> Seq<char>
    decreases s.len(),
{
    if s.len() > 0 && s[0] == ' ' {
        trim_left(s.drop_first())
    } else {
        s
    }
}

pub open spec fn trim_right(s: Seq<char>) -> Seq<char>
    decreases s.len(),
{
    if s.len() > 0 && s.last() == ' ' {
        trim_right(s.drop_last())
    } else {
        s
    }
}

/// The string with leading and trailing spaces removed.
pub open spec fn trimmed(s: Seq<char>) -> Seq<char> {
    trim_right(trim_left(s))
}

/// Index of the first occurrence of `c` in `s`, if any.
pub open spec fn first_at(s: Seq<char>, c: char) -> Option<int>
    decreases s.len(),
{
    if s.len() == 0 {
        None
    } else if s[0] == c {
        Some(0int)
    } else {
        match first_at(s.drop_first(), c) {
            None => None,
            Some(i) => Some(i + 1),
        }
    }
}

pub proof fn lemma_first_at(s: Seq<char>, c: char)
    ensures
        match first_at(s, c) {
            None => forall|i: int| 0 <= i < s.len() ==> s[i] != c,
            Some(i) => 0 <= i < s.len() && s[i] == c && (forall|j: int| 0 <= j < i ==> s[j] != c),
        },
    decreases s.len(),
{
    if s.len() > 0 && s[0] != c {
        lemma_first_at(s.drop_first(), c);
        assert forall|i: int| 0 <= i < s.len() && first_at(s, c) is None implies s[i] != c by {
            if i > 0 {
                assert(s.drop_first()[i - 1] == s[i]);
            }
        }
        match first_at(s.drop_first(), c) {
            None => {}
            Some(i) => {
                assert(s.drop_first()[i] == s[i + 1]);
                assert forall|j: int| 0 <= j < i + 1 implies s[j] != c by {
                    if j > 0 {
                        assert(s.drop_first()[j - 1] == s[j]);
                    }
                }
            }
        }
    }
}

// ---------------------------------------------------------------------------
// Spec-level parser
// ---------------------------------------------------------------------------

/// Channel value of a pair of hex digits.
pub open spec fn hex2(hi: char, lo: char) -> nat {
    16 * hex_digit_val(hi) + hex_digit_val(lo)
}

/// Channel value of one short-form hex digit (the digit duplicated).
pub open spec fn hex1(d: char) -> nat {
    17 * hex_digit_val(d)
}

/// Parse the digits after `#`: 3 or 4 short-form digits, or 6 or 8 digits.
pub open spec fn spec_parse_hex(h: Seq<char>) -> Result<Color, ColorParseError> {
    if !all_hex_digits(h) {
        Err(ColorParseError::MalformedLiteral)
    } else if h.len() == 3 {
        Ok(Color { r: hex1(h[0]) as u8, g: hex1(h[1]) as u8, b: hex1(h[2]) as u8, a: 255 })
    } else if h.len() == 4 {
        Ok(
            Color {
                r: hex1(h[0]) as u8,
                g: hex1(h[1]) as u8,
                b: hex1(h[2]) as u8,
                a: hex1(h[3]) as u8,
            },
        )
    } else if h.len() == 6 {
        Ok(
            Color {
                r: hex2(h[0], h[1]) as u8,
                g: hex2(h[2], h[3]) as u8,
                b: hex2(h[4], h[5]) as u8,
                a: 255,
            },
        )
    } else if h.len() == 8 {
        Ok(
            Color {
                r: hex2(h[0], h[1]) as u8,
                g: hex2(h[2], h[3]) as u8,
                b: hex2(h[4], h[5]) as u8,
                a: hex2(h[6], h[7]) as u8,
            },
        )
    } else {
        Err(ColorParseError::MalformedLiteral)
    }
}

/// Parse one `r`, `g` or `b` component of functional notation: an integer of
/// one to three digits, at most 255, with optional surrounding spaces.
pub open spec fn spec_parse_channel(p: Seq<char>) -> Result<u8, ColorParseError> {
    let t = trimmed(p);
    if 1 <= t.len() <= 3 && all_dec_digits(t) {
        if dec_val(t) <= 255 {
            Ok(dec_val(t) as u8)
        } else {
            Err(ColorParseError::OutOfRangeComponent)
        }
    } else {
        Err(ColorParseError::MalformedLiteral)
    }
}

/// Shape of a trimmed alpha component: one to three integer digits,
/// optionally followed by a point and one to three fraction digits.
pub open spec fn alpha_shape_ok(t: Seq<char>) -> bool {
    match first_at(t, '.') {
        None => 1 <= t.len() <= 3 && all_dec_digits(t),
        Some(i) => {
            let ip = t.take(i);
            let fp = t.skip(i + 1);
            &&& 1 <= ip.len() <= 3
            &&& all_dec_digits(ip)
            &&& 1 <= fp.len() <= 3
            &&& all_dec_digits(fp)
        },
    }
}

/// Value of a trimmed alpha component in thousandths.
pub open spec fn alpha_millis(t: Seq<char>) -> nat {
    match first_at(t, '.') {
        None => dec_val(t) * 1000,
        Some(i) => dec_val(t.take(i)) * 1000 + dec_val(t.skip(i + 1)) * pow10(
            (3 - t.skip(i + 1).len()) as nat,
        ),
    }
}

/// An alpha value in thousandths, rounded to the nearest byte.
pub open spec fn alpha_byte_of_millis(m: nat) -> u8 {
    ((m * 255 + 500) / 1000) as u8
}

/// Parse the alpha component of `rgba()`: a decimal number between 0 and 1.
pub open spec fn spec_parse_alpha(p: Seq<char>) -> Result<u8, ColorParseError> {
    let t = trimmed(p);
    if alpha_shape_ok(t) {
        if alpha_millis(t) <= 1000 {
            Ok(alpha_byte_of_millis(alpha_millis(t)))
        } else {
            Err(ColorParseError::OutOfRangeComponent)
        }
    } else {
        Err(ColorParseError::MalformedLiteral)
    }
}

/// Combine the comma-separated components of functional notation, failing on
/// the first bad component.
pub open spec fn spec_combine_rgba(
    p1: Seq<char>,
    p2: Seq<char>,
    p3: Seq<char>,
    p4: Option<Seq<char>>,
) -> Result<Color, ColorParseError> {
    match spec_parse_channel(p1) {
        Err(e) => Err(e),
        Ok(r) => match spec_parse_channel(p2) {
            Err(e) => Err(e),
            Ok(g) => match spec_parse_channel(p3) {
                Err(e) => Err(e),
                Ok(b) => match p4 {
                    None => Ok(Color { r, g, b, a: 255 }),
                    Some(p) => match spec_parse_alpha(p) {
                        Err(e) => Err(e),
                        Ok(a) => Ok(Color { r, g, b, a }),
                    },
                },
            },
        },
    }
}

/// Parse what stands between the parentheses of `rgb(...)` or `rgba(...)`:
/// exactly three (or, with alpha, four) comma-separated components.
pub open spec fn spec_parse_rgb_body(b: Seq<char>, has_alpha: bool) -> Result<
    Color,
    ColorParseError,
> {
    match first_at(b, ',') {
        None => Err(ColorParseError::MalformedLiteral),
        Some(i1) => {
            let p1 = b.take(i1);
            let rest1 = b.skip(i1 + 1);
            match first_at(rest1, ',') {
                None => Err(ColorParseError::MalformedLiteral),
                Some(i2) => {
                    let p2 = rest1.take(i2);
                    let rest2 = rest1.skip(i2 + 1);
                    if has_alpha {
                        match first_at(rest2, ',') {
                            None => Err(ColorParseError::MalformedLiteral),
                            Some(i3) => {
                                let p3 = rest2.take(i3);
                                let p4 = rest2.skip(i3 + 1);
                                if first_at(p4, ',') is Some {
                                    Err(ColorParseError::MalformedLiteral)
                                } else {
                                    spec_combine_rgba(p1, p2, p3, Some(p4))
                                }
                            },
                        }
                    } else {
                        if first_at(rest2, ',') is Some {
                            Err(ColorParseError::MalformedLiteral)
                        } else {
                            spec_combine_rgba(p1, p2, rest2, None)
                        }
                    }
                },
            }
        },
    }
}

pub open spec fn is_rgb_prefix(s: Seq<char>) -> bool {
    s.len() >= 4 && s[0] == 'r' && s[1] == 'g' && s[2] == 'b' && s[3] == '('
}

pub open spec fn is_rgba_prefix(s: Seq<char>) -> bool {
    s.len() >= 5 && s[0] == 'r' && s[1] == 'g' && s[2] == 'b' && s[3] == 'a' && s[4] == '('
}

/// What `parse_color` returns, as a function of the input text. Opaque so
/// that callers reason through `parse_color`'s contract rather than by
/// unfolding the grammar; the laws below reveal it.
#[verifier::opaque]
pub open spec fn spec_parse_color(s: Seq<char>) -> Result<Color, ColorParseError> {
    if s.len() >= 1 && s[0] == '#' {
        spec_parse_hex(s.skip(1))
    } else if is_rgba_prefix(s) {
        if s.len() >= 6 && s.last() == ')' {
            spec_parse_rgb_body(s.subrange(5, s.len() - 1), true)
        } else {
            Err(ColorParseError::MalformedLiteral)
        }
    } else if is_rgb_prefix(s) {
        if s.len() >= 5 && s.last() == ')' {
            spec_parse_rgb_body(s.subrange(4, s.len() - 1), false)
        } else {
            Err(ColorParseError::MalformedLiteral)
        }
    } else {
        Err(ColorParseError::UnrecognizedFormat)
    }
}

// ---------------------------------------------------------------------------
// Executable parser
// ---------------------------------------------------------------------------

/// The characters of a string slice, in order.
fn chars_of(s: &str) -> (v: Vec<char>)
    ensures
        v@ == s@,
{
    let n = s.unicode_len();
    let mut v: Vec<char> = Vec::new();
    let mut i: usize = 0;
    while i < n
        invariant
            i <= n,
            n == s@.len(),
            v@ == s@.take(i as int),
        decreases n - i,
    {
        let c = s.get_char(i);
        v.push(c);
        i = i + 1;
        proof {
            assert(s@.take(i as int) =~= s@.take(i as int - 1).push(s@[i as int - 1]));
        }
    }
    proof {
        assert(s@.take(n as int) =~= s@);
    }
    v
}

fn dec_digit(c: char) -> (r: Option<u8>)
    ensures
        r == if is_dec_digit(c) {
            Some(dec_digit_val(c) as u8)
        } else {
            None::<u8>
        },
{
    if '0' <= c && c <= '9' {
        Some(c as u8 - 48)
    } else {
        None
    }
}

fn hex_digit(c: char) -> (r: Option<u8>)
    ensures
        r == if is_hex_digit(c) {
            Some(hex_digit_val(c) as u8)
        } else {
            None::<u8>
        },
{
    if '0' <= c && c <= '9' {
        Some(c as u8 - 48)
    } else if 'a' <= c && c <= 'f' {
        Some(c as u8 - 97 + 10)
    } else if 'A' <= c && c <= 'F' {
        Some(c as u8 - 65 + 10)
    } else {
        None
    }
}

/// First occurrence of `c` in `v[lo..hi]`, as an absolute index.
fn find_char(v: &Vec<char>, lo: usize, hi: usize, c: char) -> (r: Option<usize>)
    requires
        lo <= hi <= v.len(),
    ensures
        match r {
            None => first_at(v@.subrange(lo as int, hi as int), c) is None,
            Some(j) => lo <= j < hi && first_at(v@.subrange(lo as int, hi as int), c) == Some(
                j - lo,
            ),
        },
{
    let ghost s = v@.subrange(lo as int, hi as int);
    let mut i: usize = lo;
    while i < hi
        invariant
            lo <= i <= hi <= v.len(),
            s == v@.subrange(lo as int, hi as int),
            forall|k: int| lo <= k < i ==> v@[k] != c,
        decreases hi - i,
    {
        if v[i] == c {
            proof {
                lemma_first_at(s, c);
                assert(s[i - lo] == c);
                match first_at(s, c) {
                    None => {
                        assert(false);
                    }
                    Some(j) => {
                        if j < i - lo {
                            assert(s[j] == v@[lo + j]);
                            assert(false);
                        }
                        if j > i - lo {
                            assert(false);
                        }
                    }
                }
            }
            return Some(i);
        }
        i = i + 1;
    }
    proof {
        lemma_first_at(s, c);
        match first_at(s, c) {
            None => {}
            Some(j) => {
                assert(s[j] == v@[lo + j]);
                assert(false);
            }
        }
    }
    None
}

/// Bounds of `v[lo..hi]` with surrounding spaces removed.
fn trim_range(v: &Vec<char>, lo: usize, hi: usize) -> (r: (usize, usize))
    requires
        lo <= hi <= v.len(),
    ensures
        lo <= r.0 <= r.1 <= hi,
        v@.subrange(r.0 as int, r.1 as int) == trimmed(v@.subrange(lo as int, hi as int)),
{
    let mut l: usize = lo;
    while l < hi && v[l] == ' '
        invariant
            lo <= l <= hi <= v.len(),
            trim_left(v@.subrange(lo as int, hi as int)) == trim_left(
                v@.subrange(l as int, hi as int),
            ),
        decreases hi - l,
    {
        proof {
            assert(v@.subrange(l as int, hi as int).drop_first() =~= v@.subrange(
                l as int + 1,
                hi as int,
            ));
        }
        l = l + 1;
    }
    let mut h: usize = hi;
    while h > l && v[h - 1] == ' '
        invariant
            lo <= l <= h <= hi <= v.len(),
            trim_left(v@.subrange(lo as int, hi as int)) == v@.subrange(l as int, hi as int),
            trim_right(v@.subrange(l as int, hi as int)) == trim_right(
                v@.subrange(l as int, h as int),
            ),
        decreases h,
    {
        proof {
            assert(v@.subrange(l as int, h as int).drop_last() =~= v@.subrange(
                l as int,
                h as int - 1,
            ));
        }
        h = h - 1;
    }
    (l, h)
}

/// Value of `v[lo..hi]` as a decimal number of at most three digits.
fn scan_digits(v: &Vec<char>, lo: usize, hi: usize) -> (r: Option<u32>)
    requires
        lo <= hi <= v.len(),
        hi - lo <= 3,
    ensures
        ({
            let t = v@.subrange(lo as int, hi as int);
            r == if all_dec_digits(t) {
                Some(dec_val(t) as u32)
            } else {
                None::<u32>
            } && (r is Some ==> dec_val(t) <= 999)
        }),
{
    let ghost t = v@.subrange(lo as int, hi as int);
    let mut val: u32 = 0;
    let mut i: usize = lo;
    while i < hi
        invariant
            lo <= i <= hi <= v.len(),
            hi - lo <= 3,
            t == v@.subrange(lo as int, hi as int),
            all_dec_digits(v@.subrange(lo as int, i as int)),
            val == dec_val(v@.subrange(lo as int, i as int)),
            val < pow10((i - lo) as nat),
            val <= 999,
        decreases hi - i,
    {
        match dec_digit(v[i]) {
            Some(d) => {
                proof {
                    let pre = v@.subrange(lo as int, i as int);
                    let post = v@.subrange(lo as int, i as int + 1);
                    assert(post.drop_last() =~= pre);
                    assert(post.last() == v@[i as int]);
                    assert forall|k: int| 0 <= k < post.len() implies is_dec_digit(
                        #[trigger] post[k],
                    ) by {
                        if k < pre.len() {
                            assert(pre[k] == post[k]);
                        }
                    }
                    assert(pow10(0nat) == 1);
                    assert(pow10(1nat) == 10);
                    assert(pow10(2nat) == 100);
                    assert(pow10(3nat) == 1000);
                    assert(pow10((i + 1 - lo) as nat) == 10 * pow10((i - lo) as nat));
                }
                val = val * 10 + (d as u32);
                i = i + 1;
            },
            None => {
                proof {
                    assert(t[i - lo] == v@[i as int]);
                }
                return None;
            },
        }
    }
    proof {
        assert(v@.subrange(lo as int, i as int) =~= t);
    }
    Some(val)
}

/// Parse one `r`, `g` or `b` component lying at `v[lo..hi]`.
fn parse_channel_range(v: &Vec<char>, lo: usize, hi: usize) -> (r: Result<u8, ColorParseError>)
    requires
        lo <= hi <= v.len(),
    ensures
        r == spec_parse_channel(v@.subrange(lo as int, hi as int)),
{
    let (l, h) = trim_range(v, lo, hi);
    let len = h - l;
    if len < 1 || len > 3 {
        return Err(ColorParseError::MalformedLiteral);
    }
    match scan_digits(v, l, h) {
        None => Err(ColorParseError::MalformedLiteral),
        Some(val) => {
            if val > 255 {
                Err(ColorParseError::OutOfRangeComponent)
            } else {
                Ok(val as u8)
            }
        },
    }
}

/// Parse the alpha component lying at `v[lo..hi]`.
fn parse_alpha_range(v: &Vec<char>, lo: usize, hi: usize) -> (r: Result<u8, ColorParseError>)
    requires
        lo <= hi <= v.len(),
    ensures
        r == spec_parse_alpha(v@.subrange(lo as int, hi as int)),
{
    let (l, h) = trim_range(v, lo, hi);
    let ghost t = v@.subrange(l as int, h as int);
    let millis: u32 = match find_char(v, l, h, '.') {
        None => {
            let len = h - l;
            if len < 1 || len > 3 {
                return Err(ColorParseError::MalformedLiteral);
            }
            match scan_digits(v, l, h) {
                None => {
                    return Err(ColorParseError::MalformedLiteral);
                },
                Some(val) => {
                    proof {
                        assert(alpha_millis(t) == dec_val(t) * 1000);
                    }
                    val * 1000
                },
            }
        },
        Some(dot) => {
            let ilen = dot - l;
            let flen = h - dot - 1;
            proof {
                assert(t.take(dot - l) =~= v@.subrange(l as int, dot as int));
                assert(t.skip(dot - l + 1) =~= v@.subrange(dot as int + 1, h as int));
            }
            if ilen < 1 || ilen > 3 || flen < 1 || flen > 3 {
                return Err(ColorParseError::MalformedLiteral);
            }
            let ival = match scan_digits(v, l, dot) {
                None => {
                    return Err(ColorParseError::MalformedLiteral);
                },
                Some(x) => x,
            };
            let fval = match scan_digits(v, dot + 1, h) {
                None => {
                    return Err(ColorParseError::MalformedLiteral);
                },
                Some(x) => x,
            };
            let scale: u32 = if flen == 1 {
                100
            } else if flen == 2 {
                10
            } else {
                1
            };
            proof {
                assert(pow10(0nat) == 1);
                assert(pow10(1nat) == 10);
                assert(pow10(2nat) == 100);
                assert(scale == pow10((3 - t.skip(dot - l + 1).len()) as nat));
            }
            ival * 1000 + fval * scale
        },
    };
    proof {
        assert(alpha_shape_ok(t));
        assert(millis == alpha_millis(t));
    }
    if millis > 1000 {
        Err(ColorParseError::OutOfRangeComponent)
    } else {
        Ok(((millis * 255 + 500) / 1000) as u8)
    }
}

/// Parse the hex digits standing after `#`, at `v[lo..]`.
fn parse_hex_digits(v: &Vec<char>, lo: usize) -> (r: Result<Color, ColorParseError>)
    requires
        lo <= v.len(),
    ensures
        r == spec_parse_hex(v@.skip(lo as int)),
{
    let ghost h = v@.skip(lo as int);
    let n = v.len() - lo;
    let mut vals: Vec<u8> = Vec::new();
    let mut i: usize = lo;
    while i < v.len()
        invariant
            lo <= i <= v.len(),
            h == v@.skip(lo as int),
            vals@.len() == i - lo,
            forall|j: int|
                0 <= j < vals@.len() ==> is_hex_digit(#[trigger] h[j]) && vals@[j] == hex_digit_val(
                    h[j],
                ),
        decreases v.len() - i,
    {
        match hex_digit(v[i]) {
            Some(d) => {
                proof {
                    assert(h[i - lo] == v@[i as int]);
                }
                vals.push(d);
                i = i + 1;
            },
            None => {
                proof {
                    assert(h[i - lo] == v@[i as int]);
                    assert(!all_hex_digits(h));
                }
                return Err(ColorParseError::MalformedLiteral);
            },
        }
    }
    proof {
        assert forall|j: int| 0 <= j < h.len() implies is_hex_digit(#[trigger] h[j]) by {
            assert(vals@[j] == hex_digit_val(h[j]));
        }
        assert(all_hex_digits(h));
    }
    if n == 3 {
        Ok(Color { r: 17 * vals[0], g: 17 * vals[1], b: 17 * vals[2], a: 255 })
    } else if n == 4 {
        Ok(Color { r: 17 * vals[0], g: 17 * vals[1], b: 17 * vals[2], a: 17 * vals[3] })
    } else if n == 6 {
        Ok(
            Color {
                r: 16 * vals[0] + vals[1],
                g: 16 * vals[2] + vals[3],
                b: 16 * vals[4] + vals[5],
                a: 255,
            },
        )
    } else if n == 8 {
        Ok(
            Color {
                r: 16 * vals[0] + vals[1],
                g: 16 * vals[2] + vals[3],
                b: 16 * vals[4] + vals[5],
                a: 16 * vals[6] + vals[7],
            },
        )
    } else {
        Err(ColorParseError::MalformedLiteral)
    }
}

/// Parse the comma-separated components at `v[lo..hi]`, the inside of the
/// parentheses of functional notation.
fn parse_rgb_body(v: &Vec<char>, lo: usize, hi: usize, has_alpha: bool) -> (r: Result<
    Color,
    ColorParseError,
>)
    requires
        lo <= hi <= v.len(),
    ensures
        r == spec_parse_rgb_body(v@.subrange(lo as int, hi as int), has_alpha),
{
    let ghost b = v@.subrange(lo as int, hi as int);
    let c1 = match find_char(v, lo, hi, ',') {
        None => {
            return Err(ColorParseError::MalformedLiteral);
        },
        Some(j) => j,
    };
    proof {
        assert(b.take(c1 - lo) =~= v@.subrange(lo as int, c1 as int));
        assert(b.skip(c1 - lo + 1) =~= v@.subrange(c1 as int + 1, hi as int));
    }
    let ghost rest1 = v@.subrange(c1 as int + 1, hi as int);
    let c2 = match find_char(v, c1 + 1, hi, ',') {
        None => {
            return Err(ColorParseError::MalformedLiteral);
        },
        Some(j) => j,
    };
    proof {
        assert(rest1.take(c2 - c1 - 1) =~= v@.subrange(c1 as int + 1, c2 as int));
        assert(rest1.skip(c2 - c1) =~= v@.subrange(c2 as int + 1, hi as int));
    }
    let ghost rest2 = v@.subrange(c2 as int + 1, hi as int);
    if has_alpha {
        let c3 = match find_char(v, c2 + 1, hi, ',') {
            None => {
                return Err(ColorParseError::MalformedLiteral);
            },
            Some(j) => j,
        };
        proof {
            assert(rest2.take(c3 - c2 - 1) =~= v@.subrange(c2 as int + 1, c3 as int));
            assert(rest2.skip(c3 - c2) =~= v@.subrange(c3 as int + 1, hi as int));
        }
        match find_char(v, c3 + 1, hi, ',') {
            Some(_) => {
                return Err(ColorParseError::MalformedLiteral);
            },
            None => {},
        }
        let r = parse_channel_range(v, lo, c1)?;
        let g = parse_channel_range(v, c1 + 1, c2)?;
        let bl = parse_channel_range(v, c2 + 1, c3)?;
        let a = parse_alpha_range(v, c3 + 1, hi)?;
        Ok(Color { r, g, b: bl, a })
    } else {
        match find_char(v, c2 + 1, hi, ',') {
            Some(_) => {
                return Err(ColorParseError::MalformedLiteral);
            },
            None => {},
        }
        let r = parse_channel_range(v, lo, c1)?;
        let g = parse_channel_range(v, c1 + 1, c2)?;
        let bl = parse_channel_range(v, c2 + 1, hi)?;
        Ok(Color { r, g, b: bl, a: 255 })
    }
}

/// Parse a textual color: a hex literal (`#rgb`, `#rgba`, `#rrggbb`,
/// `#rrggbbaa`), `rgb(r,g,b)`, or `rgba(r,g,b,a)`. Returns exactly what the
/// grammar in `spec_parse_color` prescribes: a parse error on any text
/// outside the three grammars, never a substituted default.
pub fn parse_color(text: &str) -> (r: Result<Color, ColorParseError>)
    ensures
        r == spec_parse_color(text@),
{
    proof {
        reveal(spec_parse_color);
    }
    let v = chars_of(text);
    let n = v.len();
    if n >= 1 && v[0] == '#' {
        parse_hex_digits(&v, 1)
    } else if n >= 5 && v[0] == 'r' && v[1] == 'g' && v[2] == 'b' && v[3] == 'a' && v[4] == '(' {
        if n >= 6 && v[n - 1] == ')' {
            parse_rgb_body(&v, 5, n - 1, true)
        } else {
            Err(ColorParseError::MalformedLiteral)
        }
    } else if n >= 4 && v[0] == 'r' && v[1] == 'g' && v[2] == 'b' && v[3] == '(' {
        if n >= 5 && v[n - 1] == ')' {
            parse_rgb_body(&v, 4, n - 1, false)
        } else {
            Err(ColorParseError::MalformedLiteral)
        }
    } else {
        Err(ColorParseError::UnrecognizedFormat)
    }
}

// ---------------------------------------------------------------------------
// Laws of the parser
// ---------------------------------------------------------------------------

/// The lower-case hex digit standing for a value below 16.
pub open spec fn hex_digit_char(n: nat) -> char {
    if n == 0 {
        '0'
    } else if n == 1 {
        '1'
    } else if n == 2 {
        '2'
    } else if n == 3 {
        '3'
    } else if n == 4 {
        '4'
    } else if n == 5 {
        '5'
    } else if n == 6 {
        '6'
    } else if n == 7 {
        '7'
    } else if n == 8 {
        '8'
    } else if n == 9 {
        '9'
    } else if n == 10 {
        'a'
    } else if n == 11 {
        'b'
    } else if n == 12 {
        'c'
    } else if n == 13 {
        'd'
    } else if n == 14 {
        'e'
    } else {
        'f'
    }
}

/// The canonical `#rrggbbaa` encoding of a color.
pub open spec fn canonical_hex(c: Color) -> Seq<char> {
    seq![
        '#',
        hex_digit_char((c.r as nat) / 16),
        hex_digit_char((c.r as nat) % 16),
        hex_digit_char((c.g as nat) / 16),
        hex_digit_char((c.g as nat) % 16),
        hex_digit_char((c.b as nat) / 16),
        hex_digit_char((c.b as nat) % 16),
        hex_digit_char((c.a as nat) / 16),
        hex_digit_char((c.a as nat) % 16),
    ]
}

proof fn lemma_hex_digit_char(n: nat)
    requires
        n < 16,
    ensures
        is_hex_digit(hex_digit_char(n)),
        hex_digit_val(hex_digit_char(n)) == n,
{
}

proof fn lemma_channel_digits(x: u8)
    ensures
        (x as nat) / 16 < 16,
        (x as nat) % 16 < 16,
        16 * ((x as nat) / 16) + (x as nat) % 16 == x as nat,
{
    assert((x as nat) / 16 < 16 && (x as nat) % 16 < 16 && 16 * ((x as nat) / 16) + (x as nat) % 16
        == x as nat) by (nonlinear_arith);
}

/// The canonical three-digit decimal encoding of a channel value.
pub open spec fn dec3(n: nat) -> Seq<char> {
    seq![
        hex_digit_char(n / 100),
        hex_digit_char((n / 10) % 10),
        hex_digit_char(n % 10),
    ]
}

/// The canonical `rgb(rrr,ggg,bbb)` encoding of a color's opaque channels.
pub open spec fn canonical_rgb(c: Color) -> Seq<char> {
    seq!['r', 'g', 'b', '('] + dec3(c.r as nat) + seq![','] + dec3(c.g as nat) + seq![','] + dec3(
        c.b as nat,
    ) + seq![')']
}

proof fn lemma_dec_digit_char(n: nat)
    requires
        n < 10,
    ensures
        is_dec_digit(hex_digit_char(n)),
        dec_digit_val(hex_digit_char(n)) == n,
        hex_digit_char(n) != ',',
        hex_digit_char(n) != ' ',
        hex_digit_char(n) != '.',
{
}

/// Parsing the canonical decimal encoding of a channel gives back its value.
proof fn lemma_parse_dec3(x: u8)
    ensures
        spec_parse_channel(dec3(x as nat)) == Ok::<u8, ColorParseError>(x),
{
    let n = x as nat;
    let p = dec3(n);
    assert(n / 100 < 10 && (n / 10) % 10 < 10 && n % 10 < 10 && n == 100 * (n / 100) + 10 * ((n
        / 10) % 10) + n % 10) by (nonlinear_arith)
        requires
            n < 256,
    ;
    lemma_dec_digit_char(n / 100);
    lemma_dec_digit_char((n / 10) % 10);
    lemma_dec_digit_char(n % 10);
    assert(trim_left(p) == p);
    assert(trim_right(p) == p);
    assert(trimmed(p) == p);
    assert(all_dec_digits(p)) by {
        assert(is_dec_digit(p[0]) && is_dec_digit(p[1]) && is_dec_digit(p[2]));
    }
    let p2 = p.drop_last();
    let p1 = p2.drop_last();
    assert(p2 =~= seq![hex_digit_char(n / 100), hex_digit_char((n / 10) % 10)]);
    assert(p1 =~= seq![hex_digit_char(n / 100)]);
    assert(p1.drop_last() =~= Seq::<char>::empty());
    assert(dec_val(Seq::<char>::empty()) == 0);
    assert(p1.last() == hex_digit_char(n / 100));
    assert(dec_val(p1) == dec_val(p1.drop_last()) * 10 + dec_digit_val(p1.last()));
    assert(dec_val(p1) == n / 100);
    assert(dec_val(p2) == (n / 100) * 10 + (n / 10) % 10);
    assert(dec_val(p) == dec_val(p2) * 10 + n % 10);
    assert(dec_val(p) == n) by (nonlinear_arith)
        requires
            n < 256,
            dec_val(p) == ((n / 100) * 10 + (n / 10) % 10) * 10 + n % 10,
            n == 100 * (n / 100) + 10 * ((n / 10) % 10) + n % 10,
    ;
}

/// Round trip through functional notation: parsing the canonical
/// `rgb(rrr,ggg,bbb)` encoding of any color gives back exactly its red,
/// green and blue channel values, with an opaque alpha.
pub proof fn lemma_parse_canonical_rgb(c: Color)
    ensures
        spec_parse_color(canonical_rgb(c)) == Ok::<Color, ColorParseError>(
            Color { r: c.r, g: c.g, b: c.b, a: 255 },
        ),
{
    reveal(spec_parse_color);
    let s = canonical_rgb(c);
    let rd = dec3(c.r as nat);
    let gd = dec3(c.g as nat);
    let bd = dec3(c.b as nat);
    assert(s =~= seq![
        'r',
        'g',
        'b',
        '(',
        rd[0],
        rd[1],
        rd[2],
        ',',
        gd[0],
        gd[1],
        gd[2],
        ',',
        bd[0],
        bd[1],
        bd[2],
        ')',
    ]);
    lemma_dec_digit_char((c.r as nat) / 100);
    lemma_dec_digit_char(((c.r as nat) / 10) % 10);
    lemma_dec_digit_char((c.r as nat) % 10);
    lemma_dec_digit_char((c.g as nat) / 100);
    lemma_dec_digit_char(((c.g as nat) / 10) % 10);
    lemma_dec_digit_char((c.g as nat) % 10);
    lemma_dec_digit_char((c.b as nat) / 100);
    lemma_dec_digit_char(((c.b as nat) / 10) % 10);
    lemma_dec_digit_char((c.b as nat) % 10);
    assert(s.len() == 16 && s[0] == 'r' && s[1] == 'g' && s[2] == 'b' && s[3] == '(' && s[15]
        == ')');
    assert(is_rgb_prefix(s) && !is_rgba_prefix(s));
    let b = s.subrange(4, 15);
    assert(b =~= seq![rd[0], rd[1], rd[2], ',', gd[0], gd[1], gd[2], ',', bd[0], bd[1], bd[2]]);
    lemma_first_at(b, ',');
    match first_at(b, ',') {
        None => {
            assert(b[3] == ',');
            assert(false);
        },
        Some(i1) => {
            assert(i1 == 3) by {
                if i1 < 3 {
                    assert(b[i1] != ',');
                } else if i1 > 3 {
                    assert(b[3] == ',');
                }
            }
            let rest1 = b.skip(4);
            assert(rest1 =~= seq![gd[0], gd[1], gd[2], ',', bd[0], bd[1], bd[2]]);
            lemma_first_at(rest1, ',');
            match first_at(rest1, ',') {
                None => {
                    assert(rest1[3] == ',');
                    assert(false);
                },
                Some(i2) => {
                    assert(i2 == 3) by {
                        if i2 < 3 {
                            assert(rest1[i2] != ',');
                        } else if i2 > 3 {
                            assert(rest1[3] == ',');
                        }
                    }
                    let rest2 = rest1.skip(4);
                    assert(rest2 =~= seq![bd[0], bd[1], bd[2]]);
                    lemma_first_at(rest2, ',');
                    match first_at(rest2, ',') {
                        Some(i3) => {
                            assert(rest2[i3] != ',');
                            assert(false);
                        },
                        None => {
                            assert(b.take(3) =~= rd);
                            assert(rest1.take(3) =~= gd);
                            lemma_parse_dec3(c.r);
                            lemma_parse_dec3(c.g);
                            lemma_parse_dec3(c.b);
                        },
                    }
                },
            }
        },
    }
}

/// Round trip: parsing the canonical hex encoding of any color gives back
/// exactly that color's channel values.
pub proof fn lemma_parse_canonical_hex(c: Color)
    ensures
        spec_parse_color(canonical_hex(c)) == Ok::<Color, ColorParseError>(c),
{
    reveal(spec_parse_color);
    let s = canonical_hex(c);
    let h = s.skip(1);
    assert(s.len() == 9 && s[0] == '#');
    assert(h.len() == 8);
    lemma_channel_digits(c.r);
    lemma_channel_digits(c.g);
    lemma_channel_digits(c.b);
    lemma_channel_digits(c.a);
    assert(h[0] == s[1] && h[1] == s[2] && h[2] == s[3] && h[3] == s[4] && h[4] == s[5] && h[5]
        == s[6] && h[6] == s[7] && h[7] == s[8]);
    lemma_hex_digit_char((c.r as nat) / 16);
    lemma_hex_digit_char((c.r as nat) % 16);
    lemma_hex_digit_char((c.g as nat) / 16);
    lemma_hex_digit_char((c.g as nat) % 16);
    lemma_hex_digit_char((c.b as nat) / 16);
    lemma_hex_digit_char((c.b as nat) % 16);
    lemma_hex_digit_char((c.a as nat) / 16);
    lemma_hex_digit_char((c.a as nat) % 16);
    assert forall|i: int| 0 <= i < h.len() implies is_hex_digit(#[trigger] h[i]) by {
        assert(h[i] == s[i + 1]);
    }
    assert(all_hex_digits(h));
    assert(hex2(h[0], h[1]) == c.r as nat);
    assert(hex2(h[2], h[3]) == c.g as nat);
    assert(hex2(h[4], h[5]) == c.b as nat);
    assert(hex2(h[6], h[7]) == c.a as nat);
}

// ---------------------------------------------------------------------------
// The accepted grammars, as predicates, and the acceptance law
// ---------------------------------------------------------------------------

/// A hex color literal: `#` followed by 3, 4, 6 or 8 hex digits.
pub open spec fn valid_hex_color(s: Seq<char>) -> bool {
    &&& s.len() >= 1
    &&& s[0] == '#'
    &&& all_hex_digits(s.skip(1))
    &&& (s.len() == 4 || s.len() == 5 || s.len() == 7 || s.len() == 9)
}

/// A channel component: one to three decimal digits valued at most 255,
/// with optional surrounding spaces.
pub open spec fn valid_channel(p: Seq<char>) -> bool {
    let t = trimmed(p);
    1 <= t.len() <= 3 && all_dec_digits(t) && dec_val(t) <= 255
}

/// An alpha component: a decimal number between 0 and 1, with optional
/// surrounding spaces.
pub open spec fn valid_alpha(p: Seq<char>) -> bool {
    let t = trimmed(p);
    alpha_shape_ok(t) && alpha_millis(t) <= 1000
}

/// The inside of the parentheses: exactly three (or four) valid components
/// separated by commas.
pub open spec fn valid_body(b: Seq<char>, has_alpha: bool) -> bool {
    match first_at(b, ',') {
        None => false,
        Some(i1) => {
            let p1 = b.take(i1);
            let rest1 = b.skip(i1 + 1);
            match first_at(rest1, ',') {
                None => false,
                Some(i2) => {
                    let p2 = rest1.take(i2);
                    let rest2 = rest1.skip(i2 + 1);
                    if has_alpha {
                        match first_at(rest2, ',') {
                            None => false,
                            Some(i3) => {
                                let p3 = rest2.take(i3);
                                let p4 = rest2.skip(i3 + 1);
                                &&& first_at(p4, ',') is None
                                &&& valid_channel(p1)
                                &&& valid_channel(p2)
                                &&& valid_channel(p3)
                                &&& valid_alpha(p4)
                            },
                        }
                    } else {
                        &&& first_at(rest2, ',') is None
                        &&& valid_channel(p1)
                        &&& valid_channel(p2)
                        &&& valid_channel(rest2)
                    }
                },
            }
        },
    }
}

/// An `rgb(r,g,b)` literal.
pub open spec fn valid_rgb_color(s: Seq<char>) -> bool {
    &&& is_rgb_prefix(s)
    &&& !is_rgba_prefix(s)
    &&& s.len() >= 5
    &&& s.last() == ')'
    &&& valid_body(s.subrange(4, s.len() - 1), false)
}

/// An `rgba(r,g,b,a)` literal.
pub open spec fn valid_rgba_color(s: Seq<char>) -> bool {
    &&& is_rgba_prefix(s)
    &&& s.len() >= 6
    &&& s.last() == ')'
    &&& valid_body(s.subrange(5, s.len() - 1), true)
}

proof fn lemma_body_iff_valid(b: Seq<char>, has_alpha: bool)
    ensures
        (spec_parse_rgb_body(b, has_alpha) is Ok) <==> valid_body(b, has_alpha),
{
}

/// The parser accepts exactly the three grammars: parsing succeeds if and
/// only if the text is a valid hex, `rgb()` or `rgba()` literal; every other
/// string is rejected with an error.
pub proof fn lemma_parse_color_accepts_exactly_grammar(s: Seq<char>)
    ensures
        (spec_parse_color(s) is Ok) <==> (valid_hex_color(s) || valid_rgb_color(s)
            || valid_rgba_color(s)),
{
    reveal(spec_parse_color);
    if s.len() >= 1 && s[0] == '#' {
        assert(s.skip(1).len() == s.len() - 1);
    } else if is_rgba_prefix(s) {
        if s.len() >= 6 && s.last() == ')' {
            lemma_body_iff_valid(s.subrange(5, s.len() - 1), true);
        }
    } else if is_rgb_prefix(s) {
        if s.len() >= 5 && s.last() == ')' {
            lemma_body_iff_valid(s.subrange(4, s.len() - 1), false);
        }
    }
}

} // verus!
