//! Parsers for the JSON fragments of the configuration file.
//!
//! Each specification parser consumes one production from the front of a
//! character sequence and returns the parsed value together with the
//! remaining suffix, or nothing where the text is malformed. The
//! executable parsers walk a character vector by index and return exactly
//! what the specification parsers say.

use vstd::prelude::*;
use crate::jtext::{spec_escape, spec_escape_char, spec_hex_digit, spec_hex_val, spec_jbool, spec_jitems, spec_quoted};

verus! {

/// Whether a character is JSON interstitial whitespace.
pub open spec fn spec_is_ws(c: char) -> bool {
    c == ' ' || c == '\n' || c == '\t' || c == '\r'
}

/// The suffix after any leading whitespace.
pub open spec fn spec_skip_ws(s: Seq<char>) -> Seq<char>
    decreases s.len(),
{
    if s.len() > 0 && spec_is_ws(s[0]) {
        spec_skip_ws(s.drop_first())
    } else {
        s
    }
}

/// The character named by a single-character string escape.
pub open spec fn spec_simple_unescape(c: char) -> Option<char> {
    if c == '"' {
        Option::Some('"')
    } else if c == '\\' {
        Option::Some('\\')
    } else if c == '/' {
        Option::Some('/')
    } else if c == 'n' {
        Option::Some('\n')
    } else if c == 't' {
        Option::Some('\t')
    } else if c == 'r' {
        Option::Some('\r')
    } else if c == 'b' {
        Option::Some('\u{8}')
    } else if c == 'f' {
        Option::Some('\u{c}')
    } else {
        Option::None
    }
}

/// Parses the body of a JSON string, the opening quote already consumed:
/// the value and the suffix after the closing quote. Accepts the simple
/// escapes and `\u00XX`; rejects unescaped control characters.
pub open spec fn spec_parse_jstring(s: Seq<char>) -> Option<(Seq<char>, Seq<char>)>
    decreases s.len(),
{
    if s.len() == 0 {
        Option::None
    } else if s[0] == '"' {
        Option::Some((Seq::empty(), s.drop_first()))
    } else if s[0] == '\\' {
        if s.len() < 2 {
            Option::None
        } else if s[1] == 'u' {
            if s.len() >= 6 && s[2] == '0' && s[3] == '0' && spec_hex_val(s[4]) is Some
                && spec_hex_val(s[5]) is Some {
                let v = spec_hex_val(s[4]).unwrap() * 16 + spec_hex_val(s[5]).unwrap();
                match spec_parse_jstring(s.skip(6)) {
                    Option::Some(p) => Option::Some((seq![((v as u8) as char)] + p.0, p.1)),
                    Option::None => Option::None,
                }
            } else {
                Option::None
            }
        } else {
            match spec_simple_unescape(s[1]) {
                Option::Some(c) => match spec_parse_jstring(s.skip(2)) {
                    Option::Some(p) => Option::Some((seq![c] + p.0, p.1)),
                    Option::None => Option::None,
                },
                Option::None => Option::None,
            }
        }
    } else if (s[0] as u32) < 0x20 {
        Option::None
    } else {
        match spec_parse_jstring(s.drop_first()) {
            Option::Some(p) => Option::Some((seq![s[0]] + p.0, p.1)),
            Option::None => Option::None,
        }
    }
}

/// Skipping whitespace never lengthens the text.
pub proof fn lemma_skip_ws_len(s: Seq<char>)
    ensures
        spec_skip_ws(s).len() <= s.len(),
    decreases s.len(),
{
    if s.len() > 0 && spec_is_ws(s[0]) {
        lemma_skip_ws_len(s.drop_first());
    }
}

/// A parsed string consumes at least its closing quote.
pub proof fn lemma_parse_jstring_len(s: Seq<char>)
    ensures
        spec_parse_jstring(s) matches Option::Some(p) ==> p.1.len() < s.len(),
    decreases s.len(),
{
    if s.len() == 0 {
    } else if s[0] == '"' {
    } else if s[0] == '\\' {
        if s.len() >= 2 {
            if s[1] == 'u' {
                if s.len() >= 6 {
                    lemma_parse_jstring_len(s.skip(6));
                }
            } else {
                lemma_parse_jstring_len(s.skip(2));
            }
        }
    } else {
        lemma_parse_jstring_len(s.drop_first());
    }
}

/// Parses the comma-separated elements of a string array up to and
/// including the closing bracket, positioned at the opening quote of the
/// first element.
pub open spec fn spec_parse_items(s: Seq<char>) -> Option<(Seq<Seq<char>>, Seq<char>)>
    decreases s.len(),
    when true
    via spec_parse_items_decreases
{
    if s.len() == 0 || s[0] != '"' {
        Option::None
    } else {
        match spec_parse_jstring(s.drop_first()) {
            Option::None => Option::None,
            Option::Some(p) => {
                let t = spec_skip_ws(p.1);
                if t.len() == 0 {
                    Option::None
                } else if t[0] == ',' {
                    let u = spec_skip_ws(t.drop_first());
                    match spec_parse_items(u) {
                        Option::None => Option::None,
                        Option::Some(q) => Option::Some((seq![p.0] + q.0, q.1)),
                    }
                } else if t[0] == ']' {
                    Option::Some((seq![p.0], t.drop_first()))
                } else {
                    Option::None
                }
            },
        }
    }
}

#[via_fn]
proof fn spec_parse_items_decreases(s: Seq<char>) {
    if s.len() > 0 && s[0] == '"' {
        lemma_parse_jstring_len(s.drop_first());
        if let Option::Some(p) = spec_parse_jstring(s.drop_first()) {
            lemma_skip_ws_len(p.1);
            let t = spec_skip_ws(p.1);
            if t.len() > 0 && t[0] == ',' {
                lemma_skip_ws_len(t.drop_first());
            }
        }
    }
}

/// Parses a string array, the opening bracket already consumed: the
/// elements and the suffix after the closing bracket.
pub open spec fn spec_parse_jarray(s: Seq<char>) -> Option<(Seq<Seq<char>>, Seq<char>)> {
    let t = spec_skip_ws(s);
    if t.len() > 0 && t[0] == ']' {
        Option::Some((Seq::empty(), t.drop_first()))
    } else {
        spec_parse_items(t)
    }
}

/// Parses a boolean literal: the value and the suffix after it.
pub open spec fn spec_parse_jbool(s: Seq<char>) -> Option<(bool, Seq<char>)> {
    if s.len() >= 4 && s[0] == 't' && s[1] == 'r' && s[2] == 'u' && s[3] == 'e' {
        Option::Some((true, s.skip(4)))
    } else if s.len() >= 5 && s[0] == 'f' && s[1] == 'a' && s[2] == 'l' && s[3] == 's' && s[4]
        == 'e' {
        Option::Some((false, s.skip(5)))
    } else {
        Option::None
    }
}

/// Whether `p` is a prefix of `s`.
pub open spec fn spec_begins_with(s: Seq<char>, p: Seq<char>) -> bool {
    p.len() <= s.len() && (forall|k: int| 0 <= k < p.len() ==> s[k] == p[k])
}

} // verus!

verus! {

/// Dropping `k` more characters of a suffix drops `i + k` of the whole.
pub(crate) proof fn lemma_skip_skip(s: Seq<char>, i: int, k: int)
    requires
        0 <= i,
        0 <= k,
        i + k <= s.len(),
    ensures
        s.skip(i).skip(k) == s.skip(i + k),
{
    assert(s.skip(i).skip(k) =~= s.skip(i + k));
}

/// Dropping the first character of a suffix drops one more of the whole.
pub(crate) proof fn lemma_skip_first(s: Seq<char>, i: int)
    requires
        0 <= i < s.len(),
    ensures
        s.skip(i).drop_first() == s.skip(i + 1),
{
    assert(s.skip(i).drop_first() =~= s.skip(i + 1));
}

/// The characters of a string, in order.
pub fn chars_of(s: &str) -> (r: Vec<char>)
    ensures
        r@ == s@,
{
    let n = s.unicode_len();
    let mut r: Vec<char> = Vec::new();
    let mut i: usize = 0;
    while i < n
        invariant
            i <= n,
            n == s@.len(),
            r@ == s@.take(i as int),
        decreases n - i,
    {
        r.push(s.get_char(i));
        proof {
            assert(r@ =~= s@.take(i as int + 1));
        }
        i = i + 1;
    }
    proof {
        assert(s@.take(n as int) =~= s@);
    }
    r
}

/// The index after any whitespace at `i`.
pub(crate) fn skip_ws(v: &Vec<char>, i: usize) -> (j: usize)
    requires
        i <= v@.len(),
    ensures
        i <= j <= v@.len(),
        spec_skip_ws(v@.skip(i as int)) == v@.skip(j as int),
{
    let mut j = i;
    while j < v.len() && (v[j] == ' ' || v[j] == '\n' || v[j] == '\t' || v[j] == '\r')
        invariant
            i <= j <= v@.len(),
            spec_skip_ws(v@.skip(i as int)) == spec_skip_ws(v@.skip(j as int)),
        decreases v@.len() - j,
    {
        proof {
            assert(v@.skip(j as int)[0] == v@[j as int]);
            lemma_skip_first(v@, j as int);
        }
        j = j + 1;
    }
    proof {
        if j < v@.len() {
            assert(v@.skip(j as int)[0] == v@[j as int]);
        }
        assert(spec_skip_ws(v@.skip(j as int)) == v@.skip(j as int));
    }
    j
}

/// The value of a hex digit character, if it is one.
fn hex_val(c: char) -> (r: Option<u8>)
    ensures
        match r {
            Option::Some(x) => spec_hex_val(c) == Option::Some(x as int) && x < 16,
            Option::None => spec_hex_val(c) is None,
        },
{
    match c {
        '0' => Option::Some(0),
        '1' => Option::Some(1),
        '2' => Option::Some(2),
        '3' => Option::Some(3),
        '4' => Option::Some(4),
        '5' => Option::Some(5),
        '6' => Option::Some(6),
        '7' => Option::Some(7),
        '8' => Option::Some(8),
        '9' => Option::Some(9),
        'a' | 'A' => Option::Some(10),
        'b' | 'B' => Option::Some(11),
        'c' | 'C' => Option::Some(12),
        'd' | 'D' => Option::Some(13),
        'e' | 'E' => Option::Some(14),
        'f' | 'F' => Option::Some(15),
        _ => Option::None,
    }
}

/// A new string holding `c` followed by `rest`.
fn prepended(c: char, rest: String) -> (r: String)
    ensures
        r@ == seq![c] + rest@,
{
    let mut r = String::new();
    r.push(c);
    r.append(rest.as_str());
    proof {
        assert(r@ =~= seq![c] + rest@);
    }
    r
}

/// Parses a JSON string body starting at `i`, the opening quote already
/// consumed: exactly what [`spec_parse_jstring`] yields on the suffix.
pub(crate) fn parse_jstring(v: &Vec<char>, i: usize) -> (r: Option<(String, usize)>)
    requires
        i <= v@.len(),
    ensures
        match r {
            Option::Some(p) => i < p.1 <= v@.len() && spec_parse_jstring(v@.skip(i as int))
                == Option::Some((p.0@, v@.skip(p.1 as int))),
            Option::None => spec_parse_jstring(v@.skip(i as int)) is None,
        },
    decreases v@.len() - i,
{
    let ghost s = v@.skip(i as int);
    if i >= v.len() {
        return Option::None;
    }
    let c = v[i];
    proof {
        assert(s[0] == v@[i as int]);
    }
    if c == '"' {
        proof {
            lemma_skip_first(v@, i as int);
        }
        Option::Some((String::new(), i + 1))
    } else if c == '\\' {
        if v.len() - i < 2 {
            return Option::None;
        }
        let e = v[i + 1];
        proof {
            assert(s[1] == v@[i as int + 1]);
        }
        if e == 'u' {
            if v.len() - i < 6 {
                return Option::None;
            }
            proof {
                assert(s[2] == v@[i as int + 2]);
                assert(s[3] == v@[i as int + 3]);
                assert(s[4] == v@[i as int + 4]);
                assert(s[5] == v@[i as int + 5]);
            }
            if !(v[i + 2] == '0' && v[i + 3] == '0') {
                return Option::None;
            }
            let h1 = match hex_val(v[i + 4]) {
                Option::Some(x) => x,
                Option::None => {
                    return Option::None;
                },
            };
            let h2 = match hex_val(v[i + 5]) {
                Option::Some(x) => x,
                Option::None => {
                    return Option::None;
                },
            };
            let ch = (h1 * 16 + h2) as char;
            proof {
                lemma_skip_skip(v@, i as int, 6);
            }
            match parse_jstring(v, i + 6) {
                Option::Some(p) => {
                    let (t, j) = p;
                    let out = prepended(ch, t);
                    Option::Some((out, j))
                },
                Option::None => Option::None,
            }
        } else {
            let u = match simple_unescape(e) {
                Option::Some(c2) => c2,
                Option::None => {
                    return Option::None;
                },
            };
            proof {
                lemma_skip_skip(v@, i as int, 2);
            }
            match parse_jstring(v, i + 2) {
                Option::Some(p) => {
                    let (t, j) = p;
                    let out = prepended(u, t);
                    Option::Some((out, j))
                },
                Option::None => Option::None,
            }
        }
    } else if (c as u32) < 0x20 {
        Option::None
    } else {
        proof {
            lemma_skip_first(v@, i as int);
        }
        match parse_jstring(v, i + 1) {
            Option::Some(p) => {
                let (t, j) = p;
                let out = prepended(c, t);
                Option::Some((out, j))
            },
            Option::None => Option::None,
        }
    }
}

/// The character named by a single-character string escape.
fn simple_unescape(c: char) -> (r: Option<char>)
    ensures
        r == spec_simple_unescape(c),
{
    match c {
        '"' => Option::Some('"'),
        '\\' => Option::Some('\\'),
        '/' => Option::Some('/'),
        'n' => Option::Some('\n'),
        't' => Option::Some('\t'),
        'r' => Option::Some('\r'),
        'b' => Option::Some('\u{8}'),
        'f' => Option::Some('\u{c}'),
        _ => Option::None,
    }
}

} // verus!

verus! {

/// Parses array elements starting at the opening quote of the first one:
/// exactly what [`spec_parse_items`] yields on the suffix.
fn parse_items(v: &Vec<char>, i: usize) -> (r: Option<(Vec<String>, usize)>)
    requires
        i <= v@.len(),
    ensures
        match r {
            Option::Some(p) => i < p.1 <= v@.len() && spec_parse_items(v@.skip(i as int))
                == Option::Some((p.0.deep_view(), v@.skip(p.1 as int))),
            Option::None => spec_parse_items(v@.skip(i as int)) is None,
        },
    decreases v@.len() - i,
{
    let ghost s = v@.skip(i as int);
    if i >= v.len() {
        return Option::None;
    }
    proof {
        assert(s[0] == v@[i as int]);
    }
    if v[i] != '"' {
        return Option::None;
    }
    proof {
        lemma_skip_first(v@, i as int);
    }
    let (val, j1) = match parse_jstring(v, i + 1) {
        Option::Some(p) => p,
        Option::None => {
            return Option::None;
        },
    };
    let t_idx = skip_ws(v, j1);
    if t_idx >= v.len() {
        return Option::None;
    }
    let tc = v[t_idx];
    proof {
        assert(v@.skip(t_idx as int)[0] == v@[t_idx as int]);
    }
    if tc == ',' {
        proof {
            lemma_skip_first(v@, t_idx as int);
        }
        let u_idx = skip_ws(v, t_idx + 1);
        match parse_items(v, u_idx) {
            Option::Some(p) => {
                let (mut vs, j2) = p;
                vs.insert(0, val);
                proof {
                    assert(vs.deep_view() =~= seq![vs@[0]@] + vs@.drop_first().map_values(
                        |x: String| x@,
                    ));
                    assert(vs.deep_view() =~= seq![vs@[0]@] + vs@.subrange(1, vs@.len() as int).map_values(
                        |x: String| x@,
                    ));
                }
                Option::Some((vs, j2))
            },
            Option::None => Option::None,
        }
    } else if tc == ']' {
        proof {
            lemma_skip_first(v@, t_idx as int);
        }
        let mut vs: Vec<String> = Vec::new();
        vs.push(val);
        proof {
            assert(vs.deep_view() =~= seq![vs@[0]@]);
        }
        Option::Some((vs, t_idx + 1))
    } else {
        Option::None
    }
}

/// Parses a string array starting after the opening bracket: exactly what
/// [`spec_parse_jarray`] yields on the suffix.
pub(crate) fn parse_jarray(v: &Vec<char>, i: usize) -> (r: Option<(Vec<String>, usize)>)
    requires
        i <= v@.len(),
    ensures
        match r {
            Option::Some(p) => i <= p.1 <= v@.len() && spec_parse_jarray(v@.skip(i as int))
                == Option::Some((p.0.deep_view(), v@.skip(p.1 as int))),
            Option::None => spec_parse_jarray(v@.skip(i as int)) is None,
        },
{
    let t_idx = skip_ws(v, i);
    if t_idx < v.len() && v[t_idx] == ']' {
        proof {
            assert(v@.skip(t_idx as int)[0] == v@[t_idx as int]);
            lemma_skip_first(v@, t_idx as int);
        }
        let vs: Vec<String> = Vec::new();
        proof {
            assert(vs.deep_view() =~= Seq::<Seq<char>>::empty());
        }
        Option::Some((vs, t_idx + 1))
    } else {
        proof {
            if t_idx < v@.len() {
                assert(v@.skip(t_idx as int)[0] == v@[t_idx as int]);
            }
        }
        parse_items(v, t_idx)
    }
}

/// Parses a boolean literal at `i`: exactly what [`spec_parse_jbool`]
/// yields on the suffix.
pub(crate) fn parse_jbool(v: &Vec<char>, i: usize) -> (r: Option<(bool, usize)>)
    requires
        i <= v@.len(),
    ensures
        match r {
            Option::Some(p) => i < p.1 <= v@.len() && spec_parse_jbool(v@.skip(i as int))
                == Option::Some((p.0, v@.skip(p.1 as int))),
            Option::None => spec_parse_jbool(v@.skip(i as int)) is None,
        },
{
    let ghost s = v@.skip(i as int);
    let n = v.len();
    proof {
        assert(forall|k: int| 0 <= k < s.len() ==> s[k] == v@[i as int + k]);
    }
    if n - i >= 4 && v[i] == 't' && v[i + 1] == 'r' && v[i + 2] == 'u' && v[i + 3] == 'e' {
        proof {
            lemma_skip_skip(v@, i as int, 4);
        }
        Option::Some((true, i + 4))
    } else if n - i >= 5 && v[i] == 'f' && v[i + 1] == 'a' && v[i + 2] == 'l' && v[i + 3] == 's'
        && v[i + 4] == 'e' {
        proof {
            lemma_skip_skip(v@, i as int, 5);
        }
        Option::Some((false, i + 5))
    } else {
        Option::None
    }
}

/// Whether the characters at `i` begin with `lit`; on success the index
/// just past it.
pub(crate) fn match_lit(v: &Vec<char>, i: usize, lit: &str) -> (r: Option<usize>)
    requires
        i <= v@.len(),
    ensures
        match r {
            Option::Some(j) => spec_begins_with(v@.skip(i as int), lit@) && j == i + lit@.len()
                && i <= j <= v@.len(),
            Option::None => !spec_begins_with(v@.skip(i as int), lit@),
        },
{
    let n = lit.unicode_len();
    let vn = v.len();
    if vn - i < n {
        return Option::None;
    }
    let mut k: usize = 0;
    while k < n
        invariant
            k <= n,
            n == lit@.len(),
            vn == v@.len(),
            i + n <= vn,
            forall|m: int| 0 <= m < k ==> v@.skip(i as int)[m] == lit@[m],
        decreases n - k,
    {
        if v[i + k] != lit.get_char(k) {
            proof {
                assert(v@.skip(i as int)[k as int] == v@[i as int + k]);
            }
            return Option::None;
        }
        proof {
            assert(v@.skip(i as int)[k as int] == v@[i as int + k]);
        }
        k = k + 1;
    }
    Option::Some(i + n)
}

} // verus!

verus! {

/// A hex digit reads back to its value.
proof fn lemma_hex_round(x: int)
    requires
        0 <= x < 16,
    ensures
        spec_hex_val(spec_hex_digit(x)) == Option::Some(x),
{
}

/// Text laid down by the string renderer parses back to the rendered
/// value, leaving exactly the trailing text.
pub proof fn lemma_parse_quoted(content: Seq<char>, tail: Seq<char>)
    ensures
        spec_parse_jstring(spec_escape(content) + seq!['"'] + tail) == Option::Some(
            (content, tail),
        ),
    decreases content.len(),
{
    let s = spec_escape(content) + seq!['"'] + tail;
    if content.len() == 0 {
        assert(spec_escape(content) == Seq::<char>::empty());
        assert(s =~= seq!['"'] + tail);
        assert(s[0] == '"');
        assert(s.drop_first() =~= tail);
    } else {
        let c = content[0];
        let rest = content.drop_first();
        let s2 = spec_escape(rest) + seq!['"'] + tail;
        assert(spec_escape(content) == spec_escape_char(c) + spec_escape(rest));
        assert(s =~= spec_escape_char(c) + s2);
        lemma_parse_quoted(rest, tail);
        assert(seq![c] + rest =~= content);
        if c == '"' {
            assert(s[0] == '\\' && s[1] == '"');
            assert(s.skip(2) =~= s2);
            assert(spec_parse_jstring(s) == Option::Some((content, tail)));
        } else if c == '\\' {
            assert(s[0] == '\\' && s[1] == '\\');
            assert(s.skip(2) =~= s2);
            assert(spec_parse_jstring(s) == Option::Some((content, tail)));
        } else if (c as u32) < 0x20 {
            let cv = (c as u32) as int;
            assert(s[0] == '\\' && s[1] == 'u' && s[2] == '0' && s[3] == '0');
            assert(s[4] == spec_hex_digit(cv / 16));
            assert(s[5] == spec_hex_digit(cv % 16));
            lemma_hex_round(cv / 16);
            lemma_hex_round(cv % 16);
            assert(s.len() >= 6);
            assert(s.skip(6) =~= s2);
            let val = cv / 16 * 16 + cv % 16;
            assert(val == cv);
            assert(((val as u8) as char) == c) by {
                vstd::utf8::char_u32_cast(c, c as u32);
            }
            assert(spec_parse_jstring(s) == Option::Some((content, tail)));
        } else {
            assert(s[0] == c);
            assert(s.drop_first() =~= s2);
            assert(spec_parse_jstring(s) == Option::Some((content, tail)));
        }
    }
}

/// Text laid down by the array-element renderer parses back to the
/// rendered elements, consuming the closing bracket.
pub proof fn lemma_parse_items_encoded(ws: Seq<Seq<char>>, tail: Seq<char>)
    requires
        ws.len() >= 1,
    ensures
        spec_parse_items(spec_jitems(ws) + seq![']'] + tail) == Option::Some((ws, tail)),
    decreases ws.len(),
{
    let s = spec_jitems(ws) + seq![']'] + tail;
    if ws.len() == 1 {
        assert(spec_jitems(ws) == spec_quoted(ws[0]));
        let t0 = seq![']'] + tail;
        assert(s =~= seq!['"'] + (spec_escape(ws[0]) + seq!['"'] + t0));
        assert(s[0] == '"');
        assert(s.drop_first() =~= spec_escape(ws[0]) + seq!['"'] + t0);
        lemma_parse_quoted(ws[0], t0);
        assert(t0[0] == ']');
        assert(spec_skip_ws(t0) == t0);
        assert(t0.drop_first() =~= tail);
        assert(seq![ws[0]] =~= ws);
        assert(spec_parse_items(s) == Option::Some((ws, tail)));
    } else {
        let rest = ws.drop_first();
        assert(spec_jitems(ws) == spec_quoted(ws[0]) + seq![','] + spec_jitems(rest));
        let srest = spec_jitems(rest) + seq![']'] + tail;
        let t0 = seq![','] + srest;
        assert(s =~= seq!['"'] + (spec_escape(ws[0]) + seq!['"'] + t0));
        assert(s[0] == '"');
        assert(s.drop_first() =~= spec_escape(ws[0]) + seq!['"'] + t0);
        lemma_parse_quoted(ws[0], t0);
        assert(t0[0] == ',');
        assert(spec_skip_ws(t0) == t0);
        assert(t0.drop_first() =~= srest);
        assert(spec_jitems(rest) == spec_quoted(rest[0]) + seq![','] + spec_jitems(
            rest.drop_first(),
        ) || spec_jitems(rest) == spec_quoted(rest[0]));
        assert(spec_quoted(rest[0])[0] == '"');
        assert(spec_jitems(rest)[0] == '"');
        assert(srest[0] == '"');
        assert(spec_skip_ws(srest) == srest);
        lemma_parse_items_encoded(rest, tail);
        assert(seq![ws[0]] + rest =~= ws);
        assert(spec_parse_items(s) == Option::Some((ws, tail)));
    }
}

/// Text laid down by the array renderer, after its opening bracket,
/// parses back to the rendered elements.
pub proof fn lemma_parse_jarray_encoded(ws: Seq<Seq<char>>, tail: Seq<char>)
    ensures
        spec_parse_jarray(spec_jitems(ws) + seq![']'] + tail) == Option::Some((ws, tail)),
{
    let s = spec_jitems(ws) + seq![']'] + tail;
    if ws.len() == 0 {
        assert(spec_jitems(ws) == Seq::<char>::empty());
        assert(s =~= seq![']'] + tail);
        assert(s[0] == ']');
        assert(spec_skip_ws(s) == s);
        assert(s.drop_first() =~= tail);
        assert(Seq::<Seq<char>>::empty() =~= ws);
    } else {
        assert(spec_jitems(ws) == spec_quoted(ws[0]) + seq![','] + spec_jitems(ws.drop_first())
            || spec_jitems(ws) == spec_quoted(ws[0]));
        assert(spec_quoted(ws[0])[0] == '"');
        assert(spec_jitems(ws)[0] == '"');
        assert(s[0] == '"');
        assert(spec_skip_ws(s) == s);
        lemma_parse_items_encoded(ws, tail);
    }
}

/// Text laid down by the boolean renderer parses back to the rendered
/// value.
pub proof fn lemma_parse_jbool_encoded(b: bool, tail: Seq<char>)
    ensures
        spec_parse_jbool(spec_jbool(b) + tail) == Option::Some((b, tail)),
{
    reveal_strlit("true");
    reveal_strlit("false");
    let s = spec_jbool(b) + tail;
    if b {
        assert(s[0] == 't' && s[1] == 'r' && s[2] == 'u' && s[3] == 'e');
        assert(s.skip(4) =~= tail);
    } else {
        assert(s[0] == 'f' && s[1] == 'a' && s[2] == 'l' && s[3] == 's' && s[4] == 'e');
        assert(s.skip(5) =~= tail);
    }
}

/// A concatenation begins with its first part, and dropping that part
/// leaves the second.
pub proof fn lemma_take_prefix(p: Seq<char>, rest: Seq<char>)
    ensures
        spec_begins_with(p + rest, p),
        (p + rest).skip(p.len() as int) == rest,
{
    assert((p + rest).skip(p.len() as int) =~= rest);
}

} // verus!
