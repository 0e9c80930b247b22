//! Application settings, the per-user configuration paths, and the log
//! line recorded for store operations.
//!
//! The manager owns the in-memory settings value; loading the settings
//! file and writing the rendered document back are the runner's part.

use vstd::prelude::*;

use crate::text::{expect_lit, spec_expect};

verus! {

/// The application's persisted settings.
#[derive(Clone, Copy, Debug, PartialEq, Eq, Structural)]
pub struct AppSettings {
    /// Whether the tray integration is enabled.
    pub system_tray_enabled: bool,
    /// Whether the change monitor starts with the application.
    pub db_monitoring_enabled: bool,
}

impl Default for AppSettings {
    /// Tray off (do not disturb by default), monitoring on.
    fn default() -> (r: AppSettings)
        ensures
            !r.system_tray_enabled,
            r.db_monitoring_enabled,
    {
        AppSettings { system_tray_enabled: false, db_monitoring_enabled: true }
    }
}

/// The boolean keyword of the settings document.
pub open spec fn spec_bool_text(b: bool) -> Seq<char> {
    if b {
        "true"@
    } else {
        "false"@
    }
}

fn bool_text(b: bool) -> (r: &'static str)
    ensures
        r@ == spec_bool_text(b),
{
    if b {
        "true"
    } else {
        "false"
    }
}

/// The settings document for a settings value.
pub open spec fn spec_render_settings(s: AppSettings) -> Seq<char> {
    "{\"system_tray_enabled\":"@ + spec_bool_text(s.system_tray_enabled)
        + ",\"db_monitoring_enabled\":"@ + spec_bool_text(s.db_monitoring_enabled) + seq!['}']
}

/// Renders a settings value as its document text.
pub fn render_app_settings(s: &AppSettings) -> (r: String)
    ensures
        r@ == spec_render_settings(*s),
{
    let mut out = "{\"system_tray_enabled\":".to_owned();
    out.append(bool_text(s.system_tray_enabled));
    out.append(",\"db_monitoring_enabled\":");
    out.append(bool_text(s.db_monitoring_enabled));
    out.push('}');
    proof {
        assert(out@ =~= spec_render_settings(*s));
    }
    out
}

/// A boolean keyword parsed at position `p`.
pub open spec fn spec_parse_bool(text: Seq<char>, p: int) -> Option<(bool, int)> {
    match spec_expect(text, p, "true"@) {
        Some(q) => Some((true, q)),
        None => match spec_expect(text, p, "false"@) {
            Some(q) => Some((false, q)),
            None => None,
        },
    }
}

fn parse_bool(text: &str, pos: usize) -> (r: Option<(bool, usize)>)
    ensures
        match r {
            Some(pair) => spec_parse_bool(text@, pos as int) == Some((pair.0, pair.1 as int))
                && pair.1 <= text@.len(),
            None => spec_parse_bool(text@, pos as int) is None,
        },
{
    match expect_lit(text, pos, "true") {
        Some(q) => Some((true, q)),
        None => match expect_lit(text, pos, "false") {
            Some(q) => Some((false, q)),
            None => None,
        },
    }
}

/// A whole settings document parsed strictly: the two members in order,
/// nothing but the fixed frame around them.
pub open spec fn spec_parse_settings(text: Seq<char>) -> Option<AppSettings> {
    match spec_expect(text, 0, "{\"system_tray_enabled\":"@) {
        None => None,
        Some(p1) => match spec_parse_bool(text, p1) {
            None => None,
            Some(v1) => match spec_expect(text, v1.1, ",\"db_monitoring_enabled\":"@) {
                None => None,
                Some(p2) => match spec_parse_bool(text, p2) {
                    None => None,
                    Some(v2) => match spec_expect(text, v2.1, "}"@) {
                        None => None,
                        Some(p3) => if p3 == text.len() {
                            Some(
                                AppSettings {
                                    system_tray_enabled: v1.0,
                                    db_monitoring_enabled: v2.0,
                                },
                            )
                        } else {
                            None
                        },
                    },
                },
            },
        },
    }
}

/// Parses a settings document, strictly: it accepts exactly what
/// `render_app_settings` produces.
pub fn parse_app_settings(text: &str) -> (r: Option<AppSettings>)
    ensures
        match r {
            Some(s) => spec_parse_settings(text@) == Some(s),
            None => spec_parse_settings(text@) is None,
        },
{
    let p1 = match expect_lit(text, 0, "{\"system_tray_enabled\":") {
        Some(p) => p,
        None => {
            return None;
        },
    };
    let (tray, q1) = match parse_bool(text, p1) {
        Some(v) => v,
        None => {
            return None;
        },
    };
    let p2 = match expect_lit(text, q1, ",\"db_monitoring_enabled\":") {
        Some(p) => p,
        None => {
            return None;
        },
    };
    let (monitoring, q2) = match parse_bool(text, p2) {
        Some(v) => v,
        None => {
            return None;
        },
    };
    let p3 = match expect_lit(text, q2, "}") {
        Some(p) => p,
        None => {
            return None;
        },
    };
    if p3 == text.unicode_len() {
        Some(AppSettings { system_tray_enabled: tray, db_monitoring_enabled: monitoring })
    } else {
        None
    }
}

proof fn lemma_parse_bool_at(b: bool, base: Seq<char>, tail: Seq<char>)
    ensures
        spec_parse_bool(base + spec_bool_text(b) + tail, base.len() as int) == Some(
            (b, base.len() as int + spec_bool_text(b).len()),
        ),
{
    let text = base + spec_bool_text(b) + tail;
    let p = base.len() as int;
    reveal_strlit("true");
    reveal_strlit("false");
    if b {
        assert(text.subrange(p, p + 4) =~= "true"@);
        assert(spec_expect(text, p, "true"@) == Some(p + 4));
    } else {
        assert(text[p] == 'f');
        assert("true"@[0] == 't');
        if p + 4 <= text.len() && text.subrange(p, p + 4) == "true"@ {
            assert(text.subrange(p, p + 4)[0] == text[p]);
            assert(false);
        }
        assert(spec_expect(text, p, "true"@) is None);
        assert(text.subrange(p, p + 5) =~= "false"@);
        assert(spec_expect(text, p, "false"@) == Some(p + 5));
    }
}

proof fn lemma_parse_bool_sound(text: Seq<char>, p: int, b: bool, q: int)
    requires
        spec_parse_bool(text, p) == Some((b, q)),
    ensures
        0 <= p <= q <= text.len(),
        text.subrange(p, q) == spec_bool_text(b),
{
    match spec_expect(text, p, "true"@) {
        Some(_) => {
            assert(b);
            assert(text.subrange(p, q) == "true"@);
        },
        None => {
            assert(!b);
            assert(text.subrange(p, q) == "false"@);
        },
    }
}

/// Law: the parser is strict. A text it accepts is, byte for byte, the
/// rendered document of the settings it returns: together with the round
/// trip below, a text parses exactly when it is a rendered document.
pub proof fn lemma_settings_parse_sound(text: Seq<char>, s: AppSettings)
    requires
        spec_parse_settings(text) == Some(s),
    ensures
        text == spec_render_settings(s),
{
    let lit1 = "{\"system_tray_enabled\":"@;
    let lit2 = ",\"db_monitoring_enabled\":"@;
    let p1 = spec_expect(text, 0, lit1).unwrap();
    let v1 = spec_parse_bool(text, p1).unwrap();
    let q1 = v1.1;
    let p2 = spec_expect(text, q1, lit2).unwrap();
    let v2 = spec_parse_bool(text, p2).unwrap();
    let q2 = v2.1;
    let p3 = spec_expect(text, q2, "}"@).unwrap();
    assert(v1.0 == s.system_tray_enabled && v2.0 == s.db_monitoring_enabled);
    assert(text.subrange(0, p1) == lit1);
    lemma_parse_bool_sound(text, p1, s.system_tray_enabled, q1);
    assert(text.subrange(q1, p2) == lit2);
    lemma_parse_bool_sound(text, p2, s.db_monitoring_enabled, q2);
    assert(text.subrange(q2, p3) == "}"@);
    assert(p3 == text.len());
    assert("}"@ =~= seq!['}']) by {
        reveal_strlit("}");
    }
    assert(text =~= text.subrange(0, p1) + text.subrange(p1, q1) + text.subrange(q1, p2)
        + text.subrange(p2, q2) + text.subrange(q2, p3));
    assert(text =~= spec_render_settings(s));
}

/// Law: parsing a rendered settings document gives back exactly the
/// settings that were rendered.
pub proof fn lemma_settings_round_trip(s: AppSettings)
    ensures
        spec_parse_settings(spec_render_settings(s)) == Some(s),
{
    let lit1 = "{\"system_tray_enabled\":"@;
    let lit2 = ",\"db_monitoring_enabled\":"@;
    let v1 = spec_bool_text(s.system_tray_enabled);
    let v2 = spec_bool_text(s.db_monitoring_enabled);
    let text = spec_render_settings(s);
    assert(text =~= lit1 + v1 + (lit2 + v2 + seq!['}']));
    assert(text.subrange(0, lit1.len() as int) =~= lit1);
    assert(spec_expect(text, 0, lit1) == Some(lit1.len() as int));
    lemma_parse_bool_at(s.system_tray_enabled, lit1, lit2 + v2 + seq!['}']);
    let q1 = lit1.len() as int + v1.len();
    assert(spec_parse_bool(text, lit1.len() as int) == Some((s.system_tray_enabled, q1)));
    assert(text.subrange(q1, q1 + lit2.len()) =~= lit2);
    assert(spec_expect(text, q1, lit2) == Some(q1 + lit2.len()));
    let base2 = lit1 + v1 + lit2;
    assert(text =~= base2 + v2 + seq!['}']);
    lemma_parse_bool_at(s.db_monitoring_enabled, base2, seq!['}']);
    let q2 = base2.len() as int + v2.len();
    assert(spec_parse_bool(text, base2.len() as int) == Some((s.db_monitoring_enabled, q2)));
    assert(text.subrange(q2, q2 + 1) =~= "}"@) by {
        reveal_strlit("}");
        assert(text[q2] == '}');
        assert("}"@.len() == 1);
        assert("}"@[0] == '}');
    }
    assert("}"@.len() == 1) by {
        reveal_strlit("}");
    }
    assert(spec_expect(text, q2, "}"@) == Some(q2 + 1));
    assert(q2 + 1 == text.len());
}

/// Owns the current settings and remembers where they are persisted.
pub struct AppSettingsManager {
    pub settings: AppSettings,
    pub config_path: String,
}

impl AppSettingsManager {
    /// Starts from the settings loaded out of the file at `config_path`,
    /// or from the defaults when there was no readable file.
    pub fn new(loaded: Option<AppSettings>, config_path: String) -> (r: AppSettingsManager)
        ensures
            r.config_path@ == config_path@,
            match loaded {
                Some(s) => r.settings == s,
                None => !r.settings.system_tray_enabled && r.settings.db_monitoring_enabled,
            },
    {
        let settings = match loaded {
            Some(s) => s,
            None => AppSettings::default(),
        };
        AppSettingsManager { settings, config_path }
    }

    /// A copy of the current settings.
    pub fn get_settings(&self) -> (r: AppSettings)
        ensures
            r == self.settings,
    {
        self.settings
    }

    /// Replaces the settings and hands back the document text to persist
    /// at `config_path`.
    pub fn update_settings(&mut self, new_settings: AppSettings) -> (r: String)
        ensures
            final(self).settings == new_settings,
            final(self).config_path == old(self).config_path,
            r@ == spec_render_settings(new_settings),
    {
        self.settings = new_settings;
        render_app_settings(&self.settings)
    }
}

/// Knows the per-user configuration directory and the files inside it.
pub struct ConfigManager {
    pub config_dir: String,
}

impl ConfigManager {
    /// Wraps the resolved configuration directory.
    pub fn new(config_dir: String) -> (r: ConfigManager)
        ensures
            r.config_dir@ == config_dir@,
    {
        ConfigManager { config_dir }
    }

    /// Where the window state is persisted.
    pub fn window_state_file(&self) -> (r: String)
        ensures
            r@ == self.config_dir@ + "/window_state.json"@,
    {
        let mut out = self.config_dir.clone();
        out.append("/window_state.json");
        out
    }

    /// Where the application settings are persisted.
    pub fn app_settings_file(&self) -> (r: String)
        ensures
            r@ == self.config_dir@ + "/app_settings.json"@,
    {
        let mut out = self.config_dir.clone();
        out.append("/app_settings.json");
        out
    }
}

/// The base directory the configuration lives under: on the windowed OS
/// the roaming application-data directory, with the home-derived roaming
/// path and then the standard configuration directory as fallbacks;
/// elsewhere the standard configuration directory. A final fallback is the
/// working directory.
pub fn config_base_dir(
    os: crate::paths::OsKind,
    appdata: Option<String>,
    home: Option<String>,
    config: Option<String>,
) -> (r: String)
    ensures
        r@ == spec_config_base_dir(
            os,
            crate::paths::spec_opt(&appdata),
            crate::paths::spec_opt(&home),
            crate::paths::spec_opt(&config),
        ),
{
    match os {
        crate::paths::OsKind::Windows => match appdata {
            Some(a) => a,
            None => match home {
                Some(h) => {
                    let mut out = h;
                    out.append("/AppData/Roaming");
                    out
                },
                None => match config {
                    Some(c) => c,
                    None => ".".to_owned(),
                },
            },
        },
        _ => match config {
            Some(c) => c,
            None => ".".to_owned(),
        },
    }
}

/// The configuration base directory, as a function of the OS and the
/// per-user directories.
pub open spec fn spec_config_base_dir(
    os: crate::paths::OsKind,
    appdata: Option<Seq<char>>,
    home: Option<Seq<char>>,
    config: Option<Seq<char>>,
) -> Seq<char> {
    match os {
        crate::paths::OsKind::Windows => match appdata {
            Some(a) => a,
            None => match home {
                Some(h) => h + "/AppData/Roaming"@,
                None => match config {
                    Some(c) => c,
                    None => "."@,
                },
            },
        },
        _ => match config {
            Some(c) => c,
            None => "."@,
        },
    }
}

/// The per-user configuration directory below a base directory.
pub fn config_dir_under(base: &str) -> (r: String)
    ensures
        r@ == base@ + "/.antigravity-agent"@,
{
    let mut out = base.to_owned();
    out.append("/.antigravity-agent");
    out
}

/// The directory holding the per-identifier backup records, below the
/// configuration directory.
pub fn accounts_dir_under(config_dir: &str) -> (r: String)
    ensures
        r@ == config_dir@ + "/antigravity-accounts"@,
{
    let mut out = config_dir.to_owned();
    out.append("/antigravity-accounts");
    out
}

/// One line of the database-operation log: the operation, the table when
/// one is involved, and whether it succeeded.
pub open spec fn spec_db_log_line(
    operation: Seq<char>,
    table: Option<Seq<char>>,
    success: bool,
) -> Seq<char> {
    (if success {
        "database operation succeeded: "@
    } else {
        "database operation failed: "@
    }) + operation + (match table {
        Some(t) => " - table: "@ + t,
        None => Seq::<char>::empty(),
    })
}

/// Formats the log line recorded for one database operation.
pub fn log_database_operation(operation: &str, table: Option<&str>, success: bool) -> (r: String)
    ensures
        r@ == spec_db_log_line(
            operation@,
            match table {
                Some(t) => Some(t@),
                None => None,
            },
            success,
        ),
{
    let mut out = if success {
        "database operation succeeded: ".to_owned()
    } else {
        "database operation failed: ".to_owned()
    };
    out.append(operation);
    match table {
        Some(t) => {
            out.append(" - table: ");
            out.append(t);
        },
        None => {
        },
    }
    out
}

} // verus!
