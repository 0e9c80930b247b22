//! The user's custom path overrides: where the host application's data
//! directory and executable live when the user has pointed at them
//! explicitly.
//!
//! The configuration value is pure; reading and writing its file is the
//! runner's part, through the rendered document this module produces.

use vstd::prelude::*;

use crate::paths::spec_opt;
use crate::text::{
    expect_lit, lemma_scan_escaped, lemma_scan_sound, render_string_literal, scan_string_body,
    spec_escape, spec_expect, spec_string_literal, spec_unescape_at,
};

verus! {

/// The custom path overrides, both optional.
pub struct AntigravityPathConfig {
    /// The directory holding the store file, when overridden.
    pub custom_data_path: Option<String>,
    /// The executable to launch, when overridden.
    pub custom_executable_path: Option<String>,
}

impl Default for AntigravityPathConfig {
    /// No overrides.
    fn default() -> (r: AntigravityPathConfig)
        ensures
            r.custom_data_path is None,
            r.custom_executable_path is None,
    {
        AntigravityPathConfig { custom_data_path: None, custom_executable_path: None }
    }
}

fn clone_opt_string(o: &Option<String>) -> (r: Option<String>)
    ensures
        crate::paths::spec_opt(&r) == crate::paths::spec_opt(o),
{
    match o {
        Some(s) => Some(s.clone()),
        None => None,
    }
}

/// Sets the custom data directory, keeping the executable override.
pub fn save_custom_data_path(config: &AntigravityPathConfig, path: String) -> (r:
    AntigravityPathConfig)
    ensures
        r.custom_data_path matches Some(p) && p@ == path@,
        crate::paths::spec_opt(&r.custom_executable_path) == crate::paths::spec_opt(
            &config.custom_executable_path,
        ),
{
    AntigravityPathConfig {
        custom_data_path: Some(path),
        custom_executable_path: clone_opt_string(&config.custom_executable_path),
    }
}

/// Sets the custom executable path, keeping the data-directory override.
pub fn save_custom_executable_path(config: &AntigravityPathConfig, path: String) -> (r:
    AntigravityPathConfig)
    ensures
        r.custom_executable_path matches Some(p) && p@ == path@,
        crate::paths::spec_opt(&r.custom_data_path) == crate::paths::spec_opt(
            &config.custom_data_path,
        ),
{
    AntigravityPathConfig {
        custom_data_path: clone_opt_string(&config.custom_data_path),
        custom_executable_path: Some(path),
    }
}

/// The configured data directory, if any.
pub fn get_custom_data_path(config: &AntigravityPathConfig) -> (r: Option<String>)
    ensures
        crate::paths::spec_opt(&r) == crate::paths::spec_opt(&config.custom_data_path),
{
    clone_opt_string(&config.custom_data_path)
}

/// The configured executable path, if any.
pub fn get_custom_executable_path(config: &AntigravityPathConfig) -> (r: Option<String>)
    ensures
        crate::paths::spec_opt(&r) == crate::paths::spec_opt(&config.custom_executable_path),
{
    clone_opt_string(&config.custom_executable_path)
}

/// A cleared configuration: what deleting the config file leaves behind.
pub fn clear_custom_path() -> (r: AntigravityPathConfig)
    ensures
        r.custom_data_path is None,
        r.custom_executable_path is None,
{
    AntigravityPathConfig { custom_data_path: None, custom_executable_path: None }
}

/// Where the path configuration is persisted, below the configuration
/// directory.
pub fn path_config_file(config_dir: &str) -> (r: String)
    ensures
        r@ == config_dir@ + "/antigravity_path.json"@,
{
    let mut out = config_dir.to_owned();
    out.append("/antigravity_path.json");
    out
}

/// An optional path as a document member value: a string literal or null.
pub open spec fn spec_opt_literal(o: Option<Seq<char>>) -> Seq<char> {
    match o {
        Some(s) => spec_string_literal(s),
        None => "null"@,
    }
}

/// The configuration document for a path configuration.
pub open spec fn spec_render_path_config(
    data: Option<Seq<char>>,
    exec: Option<Seq<char>>,
) -> Seq<char> {
    "{\"custom_data_path\":"@ + spec_opt_literal(data) + ",\"custom_executable_path\":"@
        + spec_opt_literal(exec) + seq!['}']
}

fn opt_literal(o: &Option<String>) -> (r: String)
    ensures
        r@ == spec_opt_literal(crate::paths::spec_opt(o)),
{
    match o {
        Some(s) => render_string_literal(s.as_str()),
        None => "null".to_owned(),
    }
}

/// Renders a path configuration as its document text.
pub fn render_path_config(config: &AntigravityPathConfig) -> (r: String)
    ensures
        r@ == spec_render_path_config(
            crate::paths::spec_opt(&config.custom_data_path),
            crate::paths::spec_opt(&config.custom_executable_path),
        ),
{
    let mut out = "{\"custom_data_path\":".to_owned();
    let v1 = opt_literal(&config.custom_data_path);
    out.append(v1.as_str());
    out.append(",\"custom_executable_path\":");
    let v2 = opt_literal(&config.custom_executable_path);
    out.append(v2.as_str());
    out.push('}');
    proof {
        assert(out@ =~= spec_render_path_config(
            crate::paths::spec_opt(&config.custom_data_path),
            crate::paths::spec_opt(&config.custom_executable_path),
        ));
    }
    out
}

/// An optional path parsed at position `p`: the keyword `null`, or a
/// string literal scanned strictly.
pub open spec fn spec_parse_opt_value(text: Seq<char>, p: int) -> Option<
    (Option<Seq<char>>, int),
> {
    match spec_expect(text, p, "null"@) {
        Some(q) => Some((None, q)),
        None => if 0 <= p && p < text.len() && text[p] == '"' {
            match spec_unescape_at(text, p + 1) {
                Some(st) => Some((Some(st.0), st.1)),
                None => None,
            }
        } else {
            None
        },
    }
}

/// Parses an optional path value at `pos`.
pub fn parse_opt_value(text: &str, pos: usize) -> (r: Option<(Option<String>, usize)>)
    ensures
        match r {
            Some(pair) => spec_parse_opt_value(text@, pos as int) == Some(
                (spec_opt(&pair.0), pair.1 as int),
            ) && pair.1 <= text@.len(),
            None => spec_parse_opt_value(text@, pos as int) is None,
        },
{
    match expect_lit(text, pos, "null") {
        Some(q) => Some((None, q)),
        None => {
            let n = text.unicode_len();
            if pos < n {
                let c = text.get_char(pos);
                if c == '"' {
                    match scan_string_body(text, pos + 1) {
                        Some(pair) => Some((Some(pair.0), pair.1)),
                        None => None,
                    }
                } else {
                    None
                }
            } else {
                None
            }
        },
    }
}

/// A whole configuration document parsed strictly: the two members in
/// order, nothing before, between or after them but the fixed frame.
pub open spec fn spec_parse_path_config(text: Seq<char>) -> Option<
    (Option<Seq<char>>, Option<Seq<char>>),
> {
    match spec_expect(text, 0, "{\"custom_data_path\":"@) {
        None => None,
        Some(p1) => match spec_parse_opt_value(text, p1) {
            None => None,
            Some(v1) => match spec_expect(text, v1.1, ",\"custom_executable_path\":"@) {
                None => None,
                Some(p2) => match spec_parse_opt_value(text, p2) {
                    None => None,
                    Some(v2) => match spec_expect(text, v2.1, "}"@) {
                        None => None,
                        Some(p3) => if p3 == text.len() {
                            Some((v1.0, v2.0))
                        } else {
                            None
                        },
                    },
                },
            },
        },
    }
}

/// Parses a configuration document, strictly: it accepts exactly what
/// `render_path_config` produces.
pub fn parse_path_config(text: &str) -> (r: Option<AntigravityPathConfig>)
    ensures
        match r {
            Some(c) => spec_parse_path_config(text@) == Some(
                (spec_opt(&c.custom_data_path), spec_opt(&c.custom_executable_path)),
            ),
            None => spec_parse_path_config(text@) is None,
        },
{
    let p1 = match expect_lit(text, 0, "{\"custom_data_path\":") {
        Some(p) => p,
        None => {
            return None;
        },
    };
    let (data, q1) = match parse_opt_value(text, p1) {
        Some(v) => v,
        None => {
            return None;
        },
    };
    let p2 = match expect_lit(text, q1, ",\"custom_executable_path\":") {
        Some(p) => p,
        None => {
            return None;
        },
    };
    let (exec_path, q2) = match parse_opt_value(text, p2) {
        Some(v) => v,
        None => {
            return None;
        },
    };
    let p3 = match expect_lit(text, q2, "}") {
        Some(p) => p,
        None => {
            return None;
        },
    };
    if p3 == text.unicode_len() {
        Some(AntigravityPathConfig { custom_data_path: data, custom_executable_path: exec_path })
    } else {
        None
    }
}

proof fn lemma_parse_opt_value_at(o: Option<Seq<char>>, base: Seq<char>, tail: Seq<char>)
    ensures
        spec_parse_opt_value(base + spec_opt_literal(o) + tail, base.len() as int) == Some(
            (o, base.len() as int + spec_opt_literal(o).len()),
        ),
{
    let text = base + spec_opt_literal(o) + tail;
    let p = base.len() as int;
    reveal_strlit("null");
    match o {
        None => {
            assert(spec_opt_literal(o) == "null"@);
            assert("null"@.len() == 4);
            assert(text.subrange(p, p + 4) =~= "null"@);
            assert(spec_expect(text, p, "null"@) == Some(p + 4));
        },
        Some(s) => {
            assert(text[p] == '"');
            assert("null"@[0] == 'n');
            if p + 4 <= text.len() && text.subrange(p, p + 4) == "null"@ {
                assert(text.subrange(p, p + 4)[0] == text[p]);
                assert(false);
            }
            assert(spec_expect(text, p, "null"@) is None);
            let base2 = base + seq!['"'];
            lemma_scan_escaped(s, base2, tail);
            assert(text =~= base2 + spec_escape(s) + seq!['"'] + tail);
            assert(spec_unescape_at(text, p + 1) == Some(
                (s, base2.len() as int + spec_escape(s).len() + 1),
            ));
            assert(spec_opt_literal(o).len() == spec_escape(s).len() + 2);
        },
    }
}

proof fn lemma_parse_opt_value_sound(text: Seq<char>, p: int, o: Option<Seq<char>>, q: int)
    requires
        spec_parse_opt_value(text, p) == Some((o, q)),
    ensures
        0 <= p <= q <= text.len(),
        text.subrange(p, q) == spec_opt_literal(o),
{
    match spec_expect(text, p, "null"@) {
        Some(_) => {
            reveal_strlit("null");
            assert(o is None);
            assert(q == p + "null"@.len());
            assert(text.subrange(p, q) == "null"@);
        },
        None => {
            let st = spec_unescape_at(text, p + 1).unwrap();
            lemma_scan_sound(text, p + 1, st.0, st.1);
            assert(o == Some(st.0));
            assert(q == st.1);
            assert(text.subrange(p, q) =~= seq![text[p]] + text.subrange(p + 1, q));
            assert(spec_opt_literal(o) =~= seq!['"'] + (spec_escape(st.0) + seq!['"']));
            assert(text.subrange(p, q) =~= spec_opt_literal(o));
        },
    }
}

/// Law: the parser is strict. A text it accepts is, byte for byte, the
/// rendered document of the configuration it returns: together with the
/// round trip below, a text parses exactly when it is a rendered document.
pub proof fn lemma_path_config_parse_sound(
    text: Seq<char>,
    data: Option<Seq<char>>,
    exec: Option<Seq<char>>,
)
    requires
        spec_parse_path_config(text) == Some((data, exec)),
    ensures
        text == spec_render_path_config(data, exec),
{
    let lit1 = "{\"custom_data_path\":"@;
    let lit2 = ",\"custom_executable_path\":"@;
    let p1 = spec_expect(text, 0, lit1).unwrap();
    let v1 = spec_parse_opt_value(text, p1).unwrap();
    let q1 = v1.1;
    let p2 = spec_expect(text, q1, lit2).unwrap();
    let v2 = spec_parse_opt_value(text, p2).unwrap();
    let q2 = v2.1;
    let p3 = spec_expect(text, q2, "}"@).unwrap();
    assert(v1.0 == data && v2.0 == exec);
    assert(text.subrange(0, p1) == lit1);
    lemma_parse_opt_value_sound(text, p1, data, q1);
    assert(text.subrange(q1, p2) == lit2);
    lemma_parse_opt_value_sound(text, p2, exec, q2);
    assert(text.subrange(q2, p3) == "}"@);
    assert(p3 == text.len());
    assert("}"@ =~= seq!['}']) by {
        reveal_strlit("}");
    }
    assert(text =~= text.subrange(0, p1) + text.subrange(p1, q1) + text.subrange(q1, p2)
        + text.subrange(p2, q2) + text.subrange(q2, p3));
    assert(text =~= spec_render_path_config(data, exec));
}

/// Law: parsing a rendered configuration document gives back exactly the
/// two overrides that were rendered.
pub proof fn lemma_path_config_round_trip(data: Option<Seq<char>>, exec: Option<Seq<char>>)
    ensures
        spec_parse_path_config(spec_render_path_config(data, exec)) == Some((data, exec)),
{
    let lit1 = "{\"custom_data_path\":"@;
    let lit2 = ",\"custom_executable_path\":"@;
    let v1 = spec_opt_literal(data);
    let v2 = spec_opt_literal(exec);
    let text = spec_render_path_config(data, exec);
    assert(text =~= lit1 + v1 + (lit2 + v2 + seq!['}']));
    assert(text.subrange(0, lit1.len() as int) =~= lit1);
    assert(spec_expect(text, 0, lit1) == Some(lit1.len() as int));
    lemma_parse_opt_value_at(data, lit1, lit2 + v2 + seq!['}']);
    assert(text =~= lit1 + v1 + (lit2 + v2 + seq!['}']));
    let q1 = lit1.len() as int + v1.len();
    assert(spec_parse_opt_value(text, lit1.len() as int) == Some((data, q1)));
    assert(text.subrange(q1, q1 + lit2.len()) =~= lit2);
    assert(spec_expect(text, q1, lit2) == Some(q1 + lit2.len()));
    let base2 = lit1 + v1 + lit2;
    assert(text =~= base2 + v2 + seq!['}']);
    lemma_parse_opt_value_at(exec, base2, seq!['}']);
    let q2 = base2.len() as int + v2.len();
    assert(spec_parse_opt_value(text, base2.len() as int) == Some((exec, q2)));
    assert(text.subrange(q2, q2 + 1) =~= "}"@) by {
        reveal_strlit("}");
        assert(text[q2] == '}');
        assert("}"@.len() == 1);
        assert("}"@[0] == '}');
    }
    assert("}"@.len() == 1) by {
        reveal_strlit("}");
    }
    assert(spec_expect(text, q2, "}"@) == Some(q2 + 1));
    assert(q2 + 1 == text.len());
}

} // verus!
