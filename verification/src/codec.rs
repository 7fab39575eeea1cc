//! The configuration codec: rendering a configuration as the text of
//! `fumosync.json`, and reading such text back.
//!
//! The rendering is one compact JSON object with the fields
//! `scriptName`, `scriptId`, `whitelist` and `isPublic`, in that order.
//! The reader accepts the same object with any interstitial whitespace
//! and the usual string escapes, and rejects everything else.

use vstd::prelude::*;
use vstd::string::StringExecFns;
use crate::config::{ConfigView, Configuration};
use crate::error::Error;
use crate::jparse::{
    chars_of, lemma_parse_jarray_encoded, lemma_parse_jbool_encoded, lemma_parse_quoted,
    lemma_skip_first, lemma_skip_skip, lemma_take_prefix, match_lit, parse_jarray, parse_jbool,
    parse_jstring, skip_ws, spec_begins_with, spec_parse_jarray, spec_parse_jbool,
    spec_parse_jstring, spec_skip_ws,
};
use crate::jtext::{
    append_jarr, append_jbool, append_quoted, spec_escape, spec_jarr, spec_jbool, spec_jitems,
    spec_quoted,
};

verus! {

/// The text of `fumosync.json` for a given configuration.
pub open spec fn spec_config_json(c: ConfigView) -> Seq<char> {
    seq!['{'] + "\"scriptName\""@ + seq![':'] + spec_quoted(c.script_name) + seq![',']
        + "\"scriptId\""@ + seq![':'] + spec_quoted(c.script_id) + seq![','] + "\"whitelist\""@
        + seq![':'] + spec_jarr(c.whitelist) + seq![','] + "\"isPublic\""@ + seq![':']
        + spec_jbool(c.is_public) + seq!['}']
}

/// The configuration encoded by a piece of text, if it is well-formed:
/// the four fields in order, any interstitial whitespace, nothing after
/// the closing brace.
pub open spec fn spec_parse_config_text(s: Seq<char>) -> Option<ConfigView> {
    let s0 = spec_skip_ws(s);
    if s0.len() == 0 || s0[0] != '{' {
        Option::None
    } else {
        let s1 = spec_skip_ws(s0.drop_first());
        if !spec_begins_with(s1, "\"scriptName\""@) {
            Option::None
        } else {
            let s2 = spec_skip_ws(s1.skip("\"scriptName\""@.len() as int));
            if s2.len() == 0 || s2[0] != ':' {
                Option::None
            } else {
                let s3 = spec_skip_ws(s2.drop_first());
                if s3.len() == 0 || s3[0] != '"' {
                    Option::None
                } else {
                    match spec_parse_jstring(s3.drop_first()) {
                        Option::None => Option::None,
                        Option::Some(pname) => spec_parse_after_name(pname.0, pname.1),
                    }
                }
            }
        }
    }
}

/// Continues [`spec_parse_config_text`] after the name value.
pub open spec fn spec_parse_after_name(name: Seq<char>, rest: Seq<char>) -> Option<ConfigView> {
    let s4 = spec_skip_ws(rest);
    if s4.len() == 0 || s4[0] != ',' {
        Option::None
    } else {
        let s5 = spec_skip_ws(s4.drop_first());
        if !spec_begins_with(s5, "\"scriptId\""@) {
            Option::None
        } else {
            let s6 = spec_skip_ws(s5.skip("\"scriptId\""@.len() as int));
            if s6.len() == 0 || s6[0] != ':' {
                Option::None
            } else {
                let s7 = spec_skip_ws(s6.drop_first());
                if s7.len() == 0 || s7[0] != '"' {
                    Option::None
                } else {
                    match spec_parse_jstring(s7.drop_first()) {
                        Option::None => Option::None,
                        Option::Some(pid) => spec_parse_after_id(name, pid.0, pid.1),
                    }
                }
            }
        }
    }
}

/// Continues [`spec_parse_config_text`] after the identifier value.
pub open spec fn spec_parse_after_id(name: Seq<char>, id: Seq<char>, rest: Seq<char>) -> Option<
    ConfigView,
> {
    let s8 = spec_skip_ws(rest);
    if s8.len() == 0 || s8[0] != ',' {
        Option::None
    } else {
        let s9 = spec_skip_ws(s8.drop_first());
        if !spec_begins_with(s9, "\"whitelist\""@) {
            Option::None
        } else {
            let s10 = spec_skip_ws(s9.skip("\"whitelist\""@.len() as int));
            if s10.len() == 0 || s10[0] != ':' {
                Option::None
            } else {
                let s11 = spec_skip_ws(s10.drop_first());
                if s11.len() == 0 || s11[0] != '[' {
                    Option::None
                } else {
                    match spec_parse_jarray(s11.drop_first()) {
                        Option::None => Option::None,
                        Option::Some(pwl) => spec_parse_after_whitelist(name, id, pwl.0, pwl.1),
                    }
                }
            }
        }
    }
}

/// Continues [`spec_parse_config_text`] after the whitelist value.
pub open spec fn spec_parse_after_whitelist(
    name: Seq<char>,
    id: Seq<char>,
    whitelist: Seq<Seq<char>>,
    rest: Seq<char>,
) -> Option<ConfigView> {
    let s12 = spec_skip_ws(rest);
    if s12.len() == 0 || s12[0] != ',' {
        Option::None
    } else {
        let s13 = spec_skip_ws(s12.drop_first());
        if !spec_begins_with(s13, "\"isPublic\""@) {
            Option::None
        } else {
            let s14 = spec_skip_ws(s13.skip("\"isPublic\""@.len() as int));
            if s14.len() == 0 || s14[0] != ':' {
                Option::None
            } else {
                let s15 = spec_skip_ws(s14.drop_first());
                match spec_parse_jbool(s15) {
                    Option::None => Option::None,
                    Option::Some(pb) => {
                        let s16 = spec_skip_ws(pb.1);
                        if s16.len() == 0 || s16[0] != '}' {
                            Option::None
                        } else {
                            let s17 = spec_skip_ws(s16.drop_first());
                            if s17.len() != 0 {
                                Option::None
                            } else {
                                Option::Some(
                                    ConfigView {
                                        script_name: name,
                                        script_id: id,
                                        whitelist,
                                        is_public: pb.0,
                                    },
                                )
                            }
                        }
                    },
                }
            }
        }
    }
}

/// Renders a configuration as the text of `fumosync.json`.
pub fn encode_configuration(config: &Configuration) -> (r: String)
    ensures
        r@ == spec_config_json(config@),
{
    let mut out = String::new();
    out.push('{');
    out.append("\"scriptName\"");
    out.push(':');
    append_quoted(&mut out, config.script_name.as_str());
    out.push(',');
    out.append("\"scriptId\"");
    out.push(':');
    append_quoted(&mut out, config.script_id.as_str());
    out.push(',');
    out.append("\"whitelist\"");
    out.push(':');
    append_jarr(&mut out, &config.whitelist);
    out.push(',');
    out.append("\"isPublic\"");
    out.push(':');
    append_jbool(&mut out, config.is_public);
    out.push('}');
    proof {
        assert(out@ =~= spec_config_json(config@));
    }
    out
}

/// Reads a configuration back from the text of `fumosync.json`; absent
/// or malformed text is a deserialization failure.
pub fn parse_configuration(text: &str) -> (r: Result<Configuration, Error>)
    ensures
        match spec_parse_config_text(text@) {
            Option::Some(c) => r matches Result::Ok(cfg) && cfg@ == c,
            Option::None => r matches Result::Err(e) && e == Error::Deserialize,
        },
{
    let v = chars_of(text);
    match parse_config_chars(&v) {
        Option::Some(cfg) => Result::Ok(cfg),
        Option::None => Result::Err(Error::Deserialize),
    }
}

/// Reads a configuration from a character vector: exactly what
/// [`spec_parse_config_text`] yields on it.
#[verifier::rlimit(100)]
fn parse_config_chars(v: &Vec<char>) -> (r: Option<Configuration>)
    ensures
        match r {
            Option::Some(cfg) => spec_parse_config_text(v@) == Option::Some(cfg@),
            Option::None => spec_parse_config_text(v@) is None,
        },
{
    proof {
        assert(v@.skip(0) =~= v@);
    }
    let i0 = skip_ws(v, 0);
    if i0 >= v.len() {
        return Option::None;
    }
    proof {
        assert(v@.skip(i0 as int)[0] == v@[i0 as int]);
    }
    if v[i0] != '{' {
        return Option::None;
    }
    proof {
        lemma_skip_first(v@, i0 as int);
    }
    let i1 = skip_ws(v, i0 + 1);
    let i2s = match match_lit(v, i1, "\"scriptName\"") {
        Option::Some(j) => j,
        Option::None => {
            return Option::None;
        },
    };
    proof {
        lemma_skip_skip(v@, i1 as int, "\"scriptName\""@.len() as int);
    }
    let i2 = skip_ws(v, i2s);
    if i2 >= v.len() {
        return Option::None;
    }
    proof {
        assert(v@.skip(i2 as int)[0] == v@[i2 as int]);
    }
    if v[i2] != ':' {
        return Option::None;
    }
    proof {
        lemma_skip_first(v@, i2 as int);
    }
    let i3 = skip_ws(v, i2 + 1);
    if i3 >= v.len() {
        return Option::None;
    }
    proof {
        assert(v@.skip(i3 as int)[0] == v@[i3 as int]);
    }
    if v[i3] != '"' {
        return Option::None;
    }
    proof {
        lemma_skip_first(v@, i3 as int);
    }
    let (name, j1) = match parse_jstring(v, i3 + 1) {
        Option::Some(p) => p,
        Option::None => {
            return Option::None;
        },
    };
    let i4 = skip_ws(v, j1);
    if i4 >= v.len() {
        return Option::None;
    }
    proof {
        assert(v@.skip(i4 as int)[0] == v@[i4 as int]);
    }
    if v[i4] != ',' {
        return Option::None;
    }
    proof {
        lemma_skip_first(v@, i4 as int);
    }
    let i5 = skip_ws(v, i4 + 1);
    let i6s = match match_lit(v, i5, "\"scriptId\"") {
        Option::Some(j) => j,
        Option::None => {
            return Option::None;
        },
    };
    proof {
        lemma_skip_skip(v@, i5 as int, "\"scriptId\""@.len() as int);
    }
    let i6 = skip_ws(v, i6s);
    if i6 >= v.len() {
        return Option::None;
    }
    proof {
        assert(v@.skip(i6 as int)[0] == v@[i6 as int]);
    }
    if v[i6] != ':' {
        return Option::None;
    }
    proof {
        lemma_skip_first(v@, i6 as int);
    }
    let i7 = skip_ws(v, i6 + 1);
    if i7 >= v.len() {
        return Option::None;
    }
    proof {
        assert(v@.skip(i7 as int)[0] == v@[i7 as int]);
    }
    if v[i7] != '"' {
        return Option::None;
    }
    proof {
        lemma_skip_first(v@, i7 as int);
    }
    let (id, j2) = match parse_jstring(v, i7 + 1) {
        Option::Some(p) => p,
        Option::None => {
            return Option::None;
        },
    };
    let i8 = skip_ws(v, j2);
    if i8 >= v.len() {
        return Option::None;
    }
    proof {
        assert(v@.skip(i8 as int)[0] == v@[i8 as int]);
    }
    if v[i8] != ',' {
        return Option::None;
    }
    proof {
        lemma_skip_first(v@, i8 as int);
    }
    let i9 = skip_ws(v, i8 + 1);
    let i10s = match match_lit(v, i9, "\"whitelist\"") {
        Option::Some(j) => j,
        Option::None => {
            return Option::None;
        },
    };
    proof {
        lemma_skip_skip(v@, i9 as int, "\"whitelist\""@.len() as int);
    }
    let i10 = skip_ws(v, i10s);
    if i10 >= v.len() {
        return Option::None;
    }
    proof {
        assert(v@.skip(i10 as int)[0] == v@[i10 as int]);
    }
    if v[i10] != ':' {
        return Option::None;
    }
    proof {
        lemma_skip_first(v@, i10 as int);
    }
    let i11 = skip_ws(v, i10 + 1);
    if i11 >= v.len() {
        return Option::None;
    }
    proof {
        assert(v@.skip(i11 as int)[0] == v@[i11 as int]);
    }
    if v[i11] != '[' {
        return Option::None;
    }
    proof {
        lemma_skip_first(v@, i11 as int);
    }
    let (whitelist, j3) = match parse_jarray(v, i11 + 1) {
        Option::Some(p) => p,
        Option::None => {
            return Option::None;
        },
    };
    let i12 = skip_ws(v, j3);
    if i12 >= v.len() {
        return Option::None;
    }
    proof {
        assert(v@.skip(i12 as int)[0] == v@[i12 as int]);
    }
    if v[i12] != ',' {
        return Option::None;
    }
    proof {
        lemma_skip_first(v@, i12 as int);
    }
    let i13 = skip_ws(v, i12 + 1);
    let i14s = match match_lit(v, i13, "\"isPublic\"") {
        Option::Some(j) => j,
        Option::None => {
            return Option::None;
        },
    };
    proof {
        lemma_skip_skip(v@, i13 as int, "\"isPublic\""@.len() as int);
    }
    let i14 = skip_ws(v, i14s);
    if i14 >= v.len() {
        return Option::None;
    }
    proof {
        assert(v@.skip(i14 as int)[0] == v@[i14 as int]);
    }
    if v[i14] != ':' {
        return Option::None;
    }
    proof {
        lemma_skip_first(v@, i14 as int);
    }
    let i15 = skip_ws(v, i14 + 1);
    let (is_public, j4) = match parse_jbool(v, i15) {
        Option::Some(p) => p,
        Option::None => {
            return Option::None;
        },
    };
    let i16 = skip_ws(v, j4);
    if i16 >= v.len() {
        return Option::None;
    }
    proof {
        assert(v@.skip(i16 as int)[0] == v@[i16 as int]);
    }
    if v[i16] != '}' {
        return Option::None;
    }
    proof {
        lemma_skip_first(v@, i16 as int);
    }
    let i17 = skip_ws(v, i16 + 1);
    if i17 < v.len() {
        return Option::None;
    }
    proof {
        assert(v@.skip(i17 as int).len() == 0);
    }
    Option::Some(
        Configuration { script_name: name, script_id: id, whitelist, is_public },
    )
}

} // verus!

verus! {

/// The codec round trip: the rendered text of any configuration reads
/// back to exactly that configuration.
#[verifier::rlimit(100)]
pub proof fn lemma_config_round_trip(c: ConfigView)
    ensures
        spec_parse_config_text(spec_config_json(c)) == Option::Some(c),
{
    reveal_strlit("\"scriptName\"");
    reveal_strlit("\"scriptId\"");
    reveal_strlit("\"whitelist\"");
    reveal_strlit("\"isPublic\"");
    let u16 = seq!['}'] + Seq::<char>::empty();
    let u15 = spec_jbool(c.is_public) + u16;
    let u14 = seq![':'] + u15;
    let u13 = "\"isPublic\""@ + u14;
    let u12 = seq![','] + u13;
    let wl_inner = spec_jitems(c.whitelist) + seq![']'] + u12;
    let u11 = seq!['['] + wl_inner;
    let u10 = seq![':'] + u11;
    let u9 = "\"whitelist\""@ + u10;
    let u8r = seq![','] + u9;
    let id_inner = spec_escape(c.script_id) + seq!['"'] + u8r;
    let u7 = seq!['"'] + id_inner;
    let u6 = seq![':'] + u7;
    let u5 = "\"scriptId\""@ + u6;
    let u4 = seq![','] + u5;
    let name_inner = spec_escape(c.script_name) + seq!['"'] + u4;
    let u3 = seq!['"'] + name_inner;
    let u2 = seq![':'] + u3;
    let u1 = "\"scriptName\""@ + u2;
    let s = spec_config_json(c);
    assert(s =~= seq!['{'] + u1);
    // the opening brace
    assert(s[0] == '{');
    assert(spec_skip_ws(s) == s);
    assert(s.drop_first() =~= u1);
    // the name key, colon, and value
    assert(u1[0] == '"');
    assert(spec_skip_ws(u1) == u1);
    lemma_take_prefix("\"scriptName\""@, u2);
    assert(u2[0] == ':');
    assert(spec_skip_ws(u2) == u2);
    assert(u2.drop_first() =~= u3);
    assert(u3[0] == '"');
    assert(spec_skip_ws(u3) == u3);
    assert(u3.drop_first() =~= name_inner);
    lemma_parse_quoted(c.script_name, u4);
    assert(spec_parse_jstring(name_inner) == Option::Some((c.script_name, u4)));
    // the identifier key, colon, and value
    assert(u4[0] == ',');
    assert(spec_skip_ws(u4) == u4);
    assert(u4.drop_first() =~= u5);
    assert(u5[0] == '"');
    assert(spec_skip_ws(u5) == u5);
    lemma_take_prefix("\"scriptId\""@, u6);
    assert(u6[0] == ':');
    assert(spec_skip_ws(u6) == u6);
    assert(u6.drop_first() =~= u7);
    assert(u7[0] == '"');
    assert(spec_skip_ws(u7) == u7);
    assert(u7.drop_first() =~= id_inner);
    lemma_parse_quoted(c.script_id, u8r);
    assert(spec_parse_jstring(id_inner) == Option::Some((c.script_id, u8r)));
    // the whitelist key, colon, and value
    assert(u8r[0] == ',');
    assert(spec_skip_ws(u8r) == u8r);
    assert(u8r.drop_first() =~= u9);
    assert(u9[0] == '"');
    assert(spec_skip_ws(u9) == u9);
    lemma_take_prefix("\"whitelist\""@, u10);
    assert(u10[0] == ':');
    assert(spec_skip_ws(u10) == u10);
    assert(u10.drop_first() =~= u11);
    assert(u11[0] == '[');
    assert(spec_skip_ws(u11) == u11);
    assert(u11.drop_first() =~= wl_inner);
    lemma_parse_jarray_encoded(c.whitelist, u12);
    assert(wl_inner =~= spec_jitems(c.whitelist) + seq![']'] + u12);
    assert(spec_parse_jarray(wl_inner) == Option::Some((c.whitelist, u12)));
    // the visibility key, colon, and value
    assert(u12[0] == ',');
    assert(spec_skip_ws(u12) == u12);
    assert(u12.drop_first() =~= u13);
    assert(u13[0] == '"');
    assert(spec_skip_ws(u13) == u13);
    lemma_take_prefix("\"isPublic\""@, u14);
    assert(u14[0] == ':');
    assert(spec_skip_ws(u14) == u14);
    assert(u14.drop_first() =~= u15);
    if c.is_public {
        reveal_strlit("true");
        assert(u15[0] == 't');
    } else {
        reveal_strlit("false");
        assert(u15[0] == 'f');
    }
    assert(spec_skip_ws(u15) == u15);
    lemma_parse_jbool_encoded(c.is_public, u16);
    assert(spec_parse_jbool(u15) == Option::Some((c.is_public, u16)));
    // the closing brace and the end of the text
    assert(u16[0] == '}');
    assert(spec_skip_ws(u16) == u16);
    assert(u16.drop_first() =~= Seq::<char>::empty());
    assert(spec_skip_ws(Seq::<char>::empty()).len() == 0);
    assert(spec_parse_after_whitelist(c.script_name, c.script_id, c.whitelist, u12)
        == Option::Some(c));
    assert(spec_parse_after_id(c.script_name, c.script_id, u8r) == Option::Some(c));
    assert(spec_parse_after_name(c.script_name, u4) == Option::Some(c));
    assert(spec_parse_config_text(s) == Option::Some(c));
}

} // verus!
