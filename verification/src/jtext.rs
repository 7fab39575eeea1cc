//! JSON text primitives for the configuration file: escaping of string
//! values, rendering of strings, string arrays and booleans, and the
//! matching parsers.
//!
//! The renderer emits compact JSON; the parsers accept any amount of
//! interstitial whitespace and the usual string escapes, so that a file
//! written by this library, or a reasonably edited copy of one, reads back
//! to the same values.

use vstd::prelude::*;
use vstd::string::StringExecFns;

verus! {

/// Relies on `String::push` of std: it appends exactly the given
/// character to the string.
pub assume_specification[ String::push ](s: &mut String, ch: char)
    ensures
        final(s)@ == old(s)@.push(ch),
;

/// The lower-case hex digit of a value below 16.
pub open spec fn spec_hex_digit(x: int) -> char {
    if x == 0 {
        '0'
    } else if x == 1 {
        '1'
    } else if x == 2 {
        '2'
    } else if x == 3 {
        '3'
    } else if x == 4 {
        '4'
    } else if x == 5 {
        '5'
    } else if x == 6 {
        '6'
    } else if x == 7 {
        '7'
    } else if x == 8 {
        '8'
    } else if x == 9 {
        '9'
    } else if x == 10 {
        'a'
    } else if x == 11 {
        'b'
    } else if x == 12 {
        'c'
    } else if x == 13 {
        'd'
    } else if x == 14 {
        'e'
    } else {
        'f'
    }
}

/// The value of a hex digit, either case, or nothing.
pub open spec fn spec_hex_val(c: char) -> Option<int> {
    if c == '0' {
        Option::Some(0)
    } else if c == '1' {
        Option::Some(1)
    } else if c == '2' {
        Option::Some(2)
    } else if c == '3' {
        Option::Some(3)
    } else if c == '4' {
        Option::Some(4)
    } else if c == '5' {
        Option::Some(5)
    } else if c == '6' {
        Option::Some(6)
    } else if c == '7' {
        Option::Some(7)
    } else if c == '8' {
        Option::Some(8)
    } else if c == '9' {
        Option::Some(9)
    } else if c == 'a' || c == 'A' {
        Option::Some(10)
    } else if c == 'b' || c == 'B' {
        Option::Some(11)
    } else if c == 'c' || c == 'C' {
        Option::Some(12)
    } else if c == 'd' || c == 'D' {
        Option::Some(13)
    } else if c == 'e' || c == 'E' {
        Option::Some(14)
    } else if c == 'f' || c == 'F' {
        Option::Some(15)
    } else {
        Option::None
    }
}

/// How one character is rendered inside a JSON string: quote and
/// backslash escaped, control characters as `\u00XX`, everything else
/// as itself.
pub open spec fn spec_escape_char(c: char) -> Seq<char> {
    if c == '"' {
        seq!['\\', '"']
    } else if c == '\\' {
        seq!['\\', '\\']
    } else if (c as u32) < 0x20 {
        seq!['\\', 'u', '0', '0', spec_hex_digit((c as u32) as int / 16), spec_hex_digit(
            (c as u32) as int % 16,
        )]
    } else {
        seq![c]
    }
}

/// The rendering of a whole string value, without the enclosing quotes.
pub open spec fn spec_escape(s: Seq<char>) -> Seq<char>
    decreases s.len(),
{
    if s.len() == 0 {
        Seq::empty()
    } else {
        spec_escape_char(s[0]) + spec_escape(s.drop_first())
    }
}

/// The rendering of a string value with its enclosing quotes.
pub open spec fn spec_quoted(s: Seq<char>) -> Seq<char> {
    seq!['"'] + spec_escape(s) + seq!['"']
}

/// The comma-separated renderings of the elements of a string array.
pub open spec fn spec_jitems(ws: Seq<Seq<char>>) -> Seq<char>
    decreases ws.len(),
{
    if ws.len() == 0 {
        Seq::empty()
    } else if ws.len() == 1 {
        spec_quoted(ws[0])
    } else {
        spec_quoted(ws[0]) + seq![','] + spec_jitems(ws.drop_first())
    }
}

/// The rendering of a string array with its brackets.
pub open spec fn spec_jarr(ws: Seq<Seq<char>>) -> Seq<char> {
    seq!['['] + spec_jitems(ws) + seq![']']
}

/// The rendering of a boolean.
pub open spec fn spec_jbool(b: bool) -> Seq<char> {
    if b {
        "true"@
    } else {
        "false"@
    }
}

/// Escaping a string one character longer appends that character's
/// rendering.
pub proof fn lemma_escape_push(s: Seq<char>, c: char)
    ensures
        spec_escape(s.push(c)) == spec_escape(s) + spec_escape_char(c),
    decreases s.len(),
{
    let sc = s.push(c);
    if s.len() == 0 {
        assert(sc.len() == 1 && sc[0] == c);
        assert(sc.drop_first() =~= Seq::<char>::empty());
        assert(spec_escape(sc) == spec_escape_char(c) + spec_escape(sc.drop_first()));
        assert(spec_escape(Seq::<char>::empty()) == Seq::<char>::empty());
        assert(spec_escape(sc) =~= spec_escape(s) + spec_escape_char(c));
    } else {
        lemma_escape_push(s.drop_first(), c);
        assert(sc.drop_first() =~= s.drop_first().push(c));
        assert(sc[0] == s[0]);
        assert(spec_escape(sc) == spec_escape_char(s[0]) + spec_escape(sc.drop_first()));
        assert(spec_escape(s) == spec_escape_char(s[0]) + spec_escape(s.drop_first()));
        assert(spec_escape(sc) =~= spec_escape(s) + spec_escape_char(c));
    }
}

/// Rendering an array one element longer appends a comma (when the array
/// was non-empty) and that element's rendering.
pub proof fn lemma_jitems_push(ws: Seq<Seq<char>>, x: Seq<char>)
    ensures
        ws.len() == 0 ==> spec_jitems(ws.push(x)) == spec_quoted(x),
        ws.len() > 0 ==> spec_jitems(ws.push(x)) == spec_jitems(ws) + seq![','] + spec_quoted(x),
    decreases ws.len(),
{
    if ws.len() == 0 {
        assert(ws.push(x)[0] == x);
        assert(ws.push(x).len() == 1);
    } else {
        lemma_jitems_push(ws.drop_first(), x);
        assert(ws.push(x).drop_first() =~= ws.drop_first().push(x));
        assert(ws.push(x)[0] == ws[0]);
        if ws.len() == 1 {
            assert(spec_jitems(ws.push(x)) =~= spec_jitems(ws) + seq![','] + spec_quoted(x));
        } else {
            assert(spec_jitems(ws.push(x)) =~= spec_jitems(ws) + seq![','] + spec_quoted(x));
        }
    }
}

/// The lower-case hex digit of a value below 16.
fn hex_digit(x: u8) -> (r: char)
    requires
        x < 16,
    ensures
        r == spec_hex_digit(x as int),
{
    match x {
        0 => '0',
        1 => '1',
        2 => '2',
        3 => '3',
        4 => '4',
        5 => '5',
        6 => '6',
        7 => '7',
        8 => '8',
        9 => '9',
        10 => 'a',
        11 => 'b',
        12 => 'c',
        13 => 'd',
        14 => 'e',
        _ => 'f',
    }
}

/// Appends one character's JSON rendering.
fn push_escaped(out: &mut String, c: char)
    ensures
        final(out)@ == old(out)@ + spec_escape_char(c),
{
    if c == '"' {
        out.push('\\');
        out.push('"');
        assert(final(out)@ =~= old(out)@ + spec_escape_char(c));
    } else if c == '\\' {
        out.push('\\');
        out.push('\\');
        assert(final(out)@ =~= old(out)@ + spec_escape_char(c));
    } else if (c as u32) < 0x20 {
        let v = c as u32;
        out.push('\\');
        out.push('u');
        out.push('0');
        out.push('0');
        out.push(hex_digit((v / 16) as u8));
        out.push(hex_digit((v % 16) as u8));
        assert(final(out)@ =~= old(out)@ + spec_escape_char(c));
    } else {
        out.push(c);
        assert(final(out)@ =~= old(out)@ + spec_escape_char(c));
    }
}

/// Appends a string value's JSON rendering, quotes included.
pub fn append_quoted(out: &mut String, s: &str)
    ensures
        final(out)@ == old(out)@ + spec_quoted(s@),
{
    out.push('"');
    let n = s.unicode_len();
    let mut i: usize = 0;
    while i < n
        invariant
            i <= n,
            n == s@.len(),
            out@ == old(out)@ + seq!['"'] + spec_escape(s@.take(i as int)),
        decreases n - i,
    {
        let c = s.get_char(i);
        push_escaped(out, c);
        proof {
            lemma_escape_push(s@.take(i as int), c);
            assert(s@.take(i as int).push(c) =~= s@.take(i as int + 1));
        }
        i = i + 1;
    }
    out.push('"');
    proof {
        assert(s@.take(n as int) =~= s@);
        assert(final(out)@ =~= old(out)@ + spec_quoted(s@));
    }
}

/// Appends a string array's JSON rendering, brackets included.
pub fn append_jarr(out: &mut String, v: &Vec<String>)
    ensures
        final(out)@ == old(out)@ + spec_jarr(v.deep_view()),
{
    out.push('[');
    let n = v.len();
    let mut i: usize = 0;
    while i < n
        invariant
            i <= n,
            n == v.len(),
            out@ == old(out)@ + seq!['['] + spec_jitems(v.deep_view().take(i as int)),
        decreases n - i,
    {
        if i > 0 {
            out.push(',');
        }
        append_quoted(out, v[i].as_str());
        proof {
            lemma_jitems_push(v.deep_view().take(i as int), v@[i as int]@);
            assert(v.deep_view().take(i as int).push(v@[i as int]@) =~= v.deep_view().take(
                i as int + 1,
            ));
            assert(out@ =~= old(out)@ + seq!['['] + spec_jitems(v.deep_view().take(i as int + 1)));
        }
        i = i + 1;
    }
    out.push(']');
    proof {
        assert(v.deep_view().take(n as int) =~= v.deep_view());
        assert(final(out)@ =~= old(out)@ + spec_jarr(v.deep_view()));
    }
}

/// Appends a boolean's JSON rendering.
pub fn append_jbool(out: &mut String, b: bool)
    ensures
        final(out)@ == old(out)@ + spec_jbool(b),
{
    if b {
        out.append("true");
    } else {
        out.append("false");
    }
}

} // verus!
