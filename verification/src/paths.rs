//! Candidate locations of the host application's data and executable, per
//! operating system, and the ordered launch strategies.
//!
//! All path arithmetic is pure and fully specified; the per-user base
//! directories come from trusted wrappers, and probing the filesystem for
//! existence is the caller's part — the results are handed back in as
//! plain booleans.

use vstd::prelude::*;

use crate::keys::spec_db_file_name;

verus! {

#[derive(Clone, Copy, Debug, PartialEq, Eq, Structural)]
pub enum OsKind {
    Windows,
    MacOs,
    Linux,
    Other,
}

/// Relies on dirs::config_dir: the per-user configuration directory, if
/// the platform defines one.
#[verifier::external_body]
pub(crate) fn config_dir() -> (r: Option<String>) {
    dirs::config_dir().map(|p| p.to_string_lossy().to_string())
}

/// Relies on dirs::data_dir: the per-user data directory, if the platform
/// defines one.
#[verifier::external_body]
pub(crate) fn data_dir() -> (r: Option<String>) {
    dirs::data_dir().map(|p| p.to_string_lossy().to_string())
}

/// Relies on dirs::home_dir: the user's home directory, if known.
#[verifier::external_body]
pub(crate) fn home_dir() -> (r: Option<String>) {
    dirs::home_dir().map(|p| p.to_string_lossy().to_string())
}

/// Relies on dirs::data_local_dir: the per-user local data directory, if
/// the platform defines one.
#[verifier::external_body]
pub(crate) fn data_local_dir() -> (r: Option<String>) {
    dirs::data_local_dir().map(|p| p.to_string_lossy().to_string())
}

/// The host application's state directory below a base directory.
pub open spec fn spec_state_dir(base: Seq<char>) -> Seq<char> {
    base + "/Antigravity/User/globalStorage"@
}

fn state_dir(base: &str) -> (r: String)
    ensures
        r@ == spec_state_dir(base@),
{
    let mut out = base.to_owned();
    out.append("/Antigravity/User/globalStorage");
    out
}

/// Where the host application's data directory lives, given the OS and the
/// per-user base directories: the configuration base on Windows, the data
/// base on the bundled-application OS, the configuration base with the
/// data base as fallback elsewhere on the free desktops, and the data base
/// on anything else.
pub open spec fn spec_data_dir_for_os(
    os: OsKind,
    config: Option<Seq<char>>,
    data: Option<Seq<char>>,
) -> Option<Seq<char>> {
    match os {
        OsKind::Windows => match config {
            Some(c) => Some(spec_state_dir(c)),
            None => None,
        },
        OsKind::MacOs => match data {
            Some(d) => Some(spec_state_dir(d)),
            None => None,
        },
        OsKind::Linux => match config {
            Some(c) => Some(spec_state_dir(c)),
            None => match data {
                Some(d) => Some(spec_state_dir(d)),
                None => None,
            },
        },
        OsKind::Other => match data {
            Some(d) => Some(spec_state_dir(d)),
            None => None,
        },
    }
}

/// Resolves the host application's data directory from the given base
/// directories.
pub fn data_dir_for_os(os: OsKind, config: Option<String>, data: Option<String>) -> (r: Option<
    String,
>)
    ensures
        match r {
            Some(p) => spec_data_dir_for_os(os, spec_opt(&config), spec_opt(&data)) == Some(p@),
            None => spec_data_dir_for_os(os, spec_opt(&config), spec_opt(&data)) is None,
        },
{
    let base = match os {
        OsKind::Windows => config,
        OsKind::MacOs => data,
        OsKind::Linux => match config {
            Some(c) => Some(c),
            None => data,
        },
        OsKind::Other => data,
    };
    match base {
        Some(b) => Some(state_dir(b.as_str())),
        None => None,
    }
}

/// The view of an optional owned string.
pub open spec fn spec_opt(o: &Option<String>) -> Option<Seq<char>> {
    match o {
        Some(s) => Some(s@),
        None => None,
    }
}

/// Detects the host application's data directory for this OS, from the
/// per-user base directories. Whatever those are on this machine, a
/// detected directory is the state directory below one of them.
pub fn get_antigravity_data_dir(os: OsKind) -> (r: Option<String>)
    ensures
        r matches Some(p) ==> exists|base: Seq<char>| p@ == #[trigger] spec_state_dir(base),
{
    let config = config_dir();
    let data = data_dir();
    let r = data_dir_for_os(os, config, data);
    proof {
        match &r {
            Some(p) => {
                assert(exists|base: Seq<char>| p@ == #[trigger] spec_state_dir(base)) by {
                    let found = spec_data_dir_for_os(os, spec_opt(&config), spec_opt(&data));
                    assert(found == Some(p@));
                }
            },
            None => {
            },
        }
    }
    r
}

/// The store file below a data directory.
pub fn data_path_candidate(dir: &str) -> (r: String)
    ensures
        r@ == dir@ + "/"@ + spec_db_file_name(),
{
    let mut out = dir.to_owned();
    out.append("/");
    out.append("state.vscdb");
    out
}

/// Resolves the store file path: a configured custom data directory that
/// probed as valid takes precedence over the detected directory.
pub fn get_antigravity_db_path(
    custom_data_path: Option<String>,
    custom_valid: bool,
    detected_dir: Option<String>,
) -> (r: Option<String>)
    ensures
        match custom_data_path {
            Some(p) => {
                if custom_valid {
                    r matches Some(q) && q@ == p@ + "/"@ + spec_db_file_name()
                } else {
                    match detected_dir {
                        Some(d) => r matches Some(q) && q@ == d@ + "/"@ + spec_db_file_name(),
                        None => r is None,
                    }
                }
            },
            None => match detected_dir {
                Some(d) => r matches Some(q) && q@ == d@ + "/"@ + spec_db_file_name(),
                None => r is None,
            },
        },
{
    match custom_data_path {
        Some(p) if custom_valid => Some(data_path_candidate(p.as_str())),
        _ => match detected_dir {
            Some(d) => Some(data_path_candidate(d.as_str())),
            None => None,
        },
    }
}

/// Whether the host application is installed: its store path resolved and
/// the file probed as existing.
pub fn is_antigravity_available(db_path: &Option<String>, exists: bool) -> (r: bool)
    ensures
        r == (db_path is Some && exists),
{
    match db_path {
        Some(_) => exists,
        None => false,
    }
}

/// A data directory is valid when the store file below it probed as an
/// existing regular file.
pub fn validate_data_path(db_file_exists: bool, db_file_is_file: bool) -> (r: bool)
    ensures
        r == (db_file_exists && db_file_is_file),
{
    db_file_exists && db_file_is_file
}

/// An executable path is valid when it probed as an existing regular file.
pub fn validate_executable_path(exists: bool, is_file: bool) -> (r: bool)
    ensures
        r == (exists && is_file),
{
    exists && is_file
}

/// The historical name of the data-path validation.
pub fn validate_antigravity_path(db_file_exists: bool, db_file_is_file: bool) -> (r: bool)
    ensures
        r == (db_file_exists && db_file_is_file),
{
    validate_data_path(db_file_exists, db_file_is_file)
}

/// The installation directories worth scanning for stray store files.
pub fn find_antigravity_installations(data: Option<String>, config: Option<String>) -> (r: Vec<
    String,
>)
    ensures
        r.deep_view() == spec_installations(spec_opt(&data), spec_opt(&config)),
{
    let mut out: Vec<String> = Vec::new();
    match &data {
        Some(d) => {
            let mut p = d.clone();
            p.append("/Antigravity");
            out.push(p);
        },
        None => {
        },
    }
    match &config {
        Some(c) => {
            let mut p = c.clone();
            p.append("/Antigravity");
            out.push(p);
        },
        None => {
        },
    }
    proof {
        assert(out.deep_view() =~= spec_installations(spec_opt(&data), spec_opt(&config)));
    }
    out
}

/// Every store file worth looking at: the resolved main path first, then
/// the store files a scan of the installation directories turned up.
pub fn get_all_antigravity_db_paths(main: Option<String>, scanned: Vec<String>) -> (r: Vec<String>)
    ensures
        r.deep_view() == (match main {
            Some(m) => seq![m@],
            None => Seq::<Seq<char>>::empty(),
        }) + scanned.deep_view(),
{
    let mut out: Vec<String> = Vec::new();
    match &main {
        Some(m) => {
            out.push(m.clone());
        },
        None => {
        },
    }
    let n = scanned.len();
    let mut i: usize = 0;
    while i < n
        invariant
            n == scanned@.len(),
            i <= n,
            out.deep_view() == (match main {
                Some(m) => seq![m@],
                None => Seq::<Seq<char>>::empty(),
            }) + scanned.deep_view().take(i as int),
        decreases n - i,
    {
        let ghost prev = out.deep_view();
        out.push(scanned[i].clone());
        proof {
            assert(out.deep_view() =~= prev.push(scanned.deep_view()[i as int]));
            assert(scanned.deep_view().take(i as int + 1) =~= scanned.deep_view().take(
                i as int,
            ).push(scanned.deep_view()[i as int]));
        }
        i = i + 1;
    }
    proof {
        assert(scanned.deep_view().take(n as int) =~= scanned.deep_view());
    }
    out
}

/// The candidate executable locations on the windowed OS, in probe order.
pub open spec fn spec_windows_paths(
    home: Option<Seq<char>>,
    data_local: Option<Seq<char>>,
) -> Seq<Seq<char>> {
    (match home {
        Some(h) => seq![
            h + "\\AppData\\Local\\Programs\\Antigravity\\Antigravity.exe"@,
            h + "\\AppData\\Roaming\\Local\\Programs\\Antigravity\\Antigravity.exe"@,
        ],
        None => Seq::empty(),
    }) + (match data_local {
        Some(d) => seq![d + "\\Programs\\Antigravity\\Antigravity.exe"@],
        None => Seq::empty(),
    }) + seq![
        "C:\\Program Files\\Antigravity\\Antigravity.exe"@,
        "C:\\Program Files (x86)\\Antigravity\\Antigravity.exe"@,
    ]
}

pub fn get_antigravity_windows_paths(home: Option<String>, data_local: Option<String>) -> (r: Vec<
    String,
>)
    ensures
        r.deep_view() == spec_windows_paths(spec_opt(&home), spec_opt(&data_local)),
{
    let mut out: Vec<String> = Vec::new();
    match &home {
        Some(h) => {
            let mut p1 = h.clone();
            p1.append("\\AppData\\Local\\Programs\\Antigravity\\Antigravity.exe");
            out.push(p1);
            let mut p2 = h.clone();
            p2.append("\\AppData\\Roaming\\Local\\Programs\\Antigravity\\Antigravity.exe");
            out.push(p2);
        },
        None => {
        },
    }
    match &data_local {
        Some(d) => {
            let mut p = d.clone();
            p.append("\\Programs\\Antigravity\\Antigravity.exe");
            out.push(p);
        },
        None => {
        },
    }
    out.push("C:\\Program Files\\Antigravity\\Antigravity.exe".to_owned());
    out.push("C:\\Program Files (x86)\\Antigravity\\Antigravity.exe".to_owned());
    proof {
        assert(out.deep_view() =~= spec_windows_paths(spec_opt(&home), spec_opt(&data_local)));
    }
    out
}

/// The candidate application-bundle locations on the bundled-application
/// OS, in probe order: the system application directory first, then the
/// user's, each with the known bundle name variants.
pub open spec fn spec_macos_bundles(home: Option<Seq<char>>) -> Seq<Seq<char>> {
    seq![
        "/Applications/Antigravity.app"@,
        "/Applications/Antigravity-electron.app"@,
        "/Applications/Antigravity-alpha.app"@,
        "/Applications/Antigravity-beta.app"@,
    ] + (match home {
        Some(h) => seq![
            h + "/Applications/Antigravity.app"@,
            h + "/Applications/Antigravity-electron.app"@,
            h + "/Applications/Antigravity-alpha.app"@,
            h + "/Applications/Antigravity-beta.app"@,
        ],
        None => Seq::empty(),
    })
}

pub fn get_antigravity_macos_paths(home: Option<String>) -> (r: Vec<String>)
    ensures
        r.deep_view() == spec_macos_bundles(spec_opt(&home)),
{
    let mut out: Vec<String> = Vec::new();
    out.push("/Applications/Antigravity.app".to_owned());
    out.push("/Applications/Antigravity-electron.app".to_owned());
    out.push("/Applications/Antigravity-alpha.app".to_owned());
    out.push("/Applications/Antigravity-beta.app".to_owned());
    match &home {
        Some(h) => {
            let mut p1 = h.clone();
            p1.append("/Applications/Antigravity.app");
            out.push(p1);
            let mut p2 = h.clone();
            p2.append("/Applications/Antigravity-electron.app");
            out.push(p2);
            let mut p3 = h.clone();
            p3.append("/Applications/Antigravity-alpha.app");
            out.push(p3);
            let mut p4 = h.clone();
            p4.append("/Applications/Antigravity-beta.app");
            out.push(p4);
        },
        None => {
        },
    }
    proof {
        assert(out.deep_view() =~= spec_macos_bundles(spec_opt(&home)));
    }
    out
}

/// The candidate executable locations on the free desktops, in probe
/// order: system-wide installs, the containerised-package exports, and the
/// user-local places.
pub open spec fn spec_linux_paths(home: Option<Seq<char>>) -> Seq<Seq<char>> {
    seq![
        "/usr/share/antigravity/antigravity"@,
        "/usr/bin/antigravity"@,
        "/usr/local/bin/antigravity"@,
        "/snap/bin/antigravity"@,
    ] + (match home {
        Some(h) => seq![
            h + "/Applications/Antigravity.AppImage"@,
            h + "/.local/bin/antigravity"@,
            h + "/bin/antigravity"@,
        ],
        None => Seq::empty(),
    }) + seq!["/var/lib/flatpak/exports/bin/antigravity"@] + (match home {
        Some(h) => seq![h + "/.local/share/flatpak/exports/bin/antigravity"@],
        None => Seq::empty(),
    })
}

pub fn get_antigravity_linux_paths(home: Option<String>) -> (r: Vec<String>)
    ensures
        r.deep_view() == spec_linux_paths(spec_opt(&home)),
{
    let mut out: Vec<String> = Vec::new();
    out.push("/usr/share/antigravity/antigravity".to_owned());
    out.push("/usr/bin/antigravity".to_owned());
    out.push("/usr/local/bin/antigravity".to_owned());
    out.push("/snap/bin/antigravity".to_owned());
    match &home {
        Some(h) => {
            let mut p1 = h.clone();
            p1.append("/Applications/Antigravity.AppImage");
            out.push(p1);
            let mut p2 = h.clone();
            p2.append("/.local/bin/antigravity");
            out.push(p2);
            let mut p3 = h.clone();
            p3.append("/bin/antigravity");
            out.push(p3);
        },
        None => {
        },
    }
    out.push("/var/lib/flatpak/exports/bin/antigravity".to_owned());
    match &home {
        Some(h) => {
            let mut p = h.clone();
            p.append("/.local/share/flatpak/exports/bin/antigravity");
            out.push(p);
        },
        None => {
        },
    }
    proof {
        assert(out.deep_view() =~= spec_linux_paths(spec_opt(&home)));
    }
    out
}

/// The candidate executable locations for an OS, from the per-user base
/// directories the wrappers supply. Whatever those are on this machine,
/// the list is the OS's candidate list for some base directories.
pub fn candidate_executable_paths(os: OsKind) -> (r: Vec<String>)
    ensures
        match os {
            OsKind::Windows => exists|home: Option<Seq<char>>, data_local: Option<Seq<char>>|
                r.deep_view() == #[trigger] spec_windows_paths(home, data_local),
            OsKind::MacOs => exists|home: Option<Seq<char>>|
                r.deep_view() == #[trigger] spec_macos_bundles(home),
            OsKind::Linux => exists|home: Option<Seq<char>>|
                r.deep_view() == #[trigger] spec_linux_paths(home),
            OsKind::Other => r.deep_view().len() == 0,
        },
{
    match os {
        OsKind::Windows => {
            let home = home_dir();
            let data_local = data_local_dir();
            let r = get_antigravity_windows_paths(home, data_local);
            proof {
                assert(r.deep_view() == spec_windows_paths(spec_opt(&home), spec_opt(&data_local)));
            }
            r
        },
        OsKind::MacOs => {
            let home = home_dir();
            let r = get_antigravity_macos_paths(home);
            proof {
                assert(r.deep_view() == spec_macos_bundles(spec_opt(&home)));
            }
            r
        },
        OsKind::Linux => {
            let home = home_dir();
            let r = get_antigravity_linux_paths(home);
            proof {
                assert(r.deep_view() == spec_linux_paths(spec_opt(&home)));
            }
            r
        },
        OsKind::Other => {
            let r: Vec<String> = Vec::new();
            proof {
                assert(r.deep_view() =~= Seq::<Seq<char>>::empty());
            }
            r
        },
    }
}

/// The first candidate whose probe said it exists.
///
/// `exists` gives, for each candidate in order, what the filesystem probe
/// reported.
pub fn detect_antigravity_executable(paths: &Vec<String>, exists: &Vec<bool>) -> (r: Option<
    String,
>)
    requires
        paths@.len() == exists@.len(),
    ensures
        match r {
            Some(p) => exists|i: int|
                0 <= i < paths@.len() && exists@[i] && p@ == paths@[i]@ && forall|j: int|
                    0 <= j < i ==> !exists@[j],
            None => forall|j: int| 0 <= j < exists@.len() ==> !exists@[j],
        },
{
    let n = paths.len();
    let mut i: usize = 0;
    while i < n
        invariant
            n == paths@.len(),
            n == exists@.len(),
            i <= n,
            forall|j: int| 0 <= j < i ==> !exists@[j],
        decreases n - i,
    {
        if exists[i] {
            return Some(paths[i].clone());
        }
        i = i + 1;
    }
    None
}

/// A bundle candidate is a valid application bundle when it exists, is a
/// directory, and holds the executable directory and the bundle manifest.
pub fn macos_bundle_is_valid(
    exists: bool,
    is_dir: bool,
    macos_dir_exists: bool,
    info_plist_exists: bool,
) -> (r: bool)
    ensures
        r == (exists && is_dir && macos_dir_exists && info_plist_exists),
{
    exists && is_dir && macos_dir_exists && info_plist_exists
}

/// The executable directory inside an application bundle.
pub fn bundle_macos_dir(bundle: &str) -> (r: String)
    ensures
        r@ == bundle@ + "/Contents/MacOS"@,
{
    let mut out = bundle.to_owned();
    out.append("/Contents/MacOS");
    out
}

/// The manifest file inside an application bundle.
pub fn bundle_info_plist(bundle: &str) -> (r: String)
    ensures
        r@ == bundle@ + "/Contents/Info.plist"@,
{
    let mut out = bundle.to_owned();
    out.append("/Contents/Info.plist");
    out
}

/// One way to start the host application: a program and its arguments.
pub struct LaunchCommand {
    pub program: String,
    pub args: Vec<String>,
}

impl View for LaunchCommand {
    type V = (Seq<char>, Seq<Seq<char>>);

    open spec fn view(&self) -> (Seq<char>, Seq<Seq<char>>) {
        (self.program@, self.args.deep_view())
    }
}

/// The ordered launch strategies for a candidate path. On the
/// bundled-application OS the bundle is opened in the background first,
/// then each known inner executable is tried directly, then a plain open;
/// elsewhere the path is executed directly.
pub open spec fn spec_launch_strategies(path: Seq<char>, os: OsKind) -> Seq<
    (Seq<char>, Seq<Seq<char>>),
> {
    match os {
        OsKind::MacOs => seq![
            ("open"@, seq!["-g"@, path]),
            (path + "/Contents/MacOS/Electron"@, Seq::<Seq<char>>::empty()),
            (path + "/Contents/MacOS/Antigravity"@, Seq::<Seq<char>>::empty()),
            (path + "/Contents/MacOS/antigravity"@, Seq::<Seq<char>>::empty()),
            ("open"@, seq![path]),
        ],
        _ => seq![(path, Seq::<Seq<char>>::empty())],
    }
}

/// Builds the ordered launch strategies for one candidate path.
pub fn launch_strategies_for_path(path: &str, os: OsKind) -> (r: Vec<LaunchCommand>)
    ensures
        r@.map_values(|c: LaunchCommand| c@) == spec_launch_strategies(path@, os),
{
    let mut out: Vec<LaunchCommand> = Vec::new();
    match os {
        OsKind::MacOs => {
            let mut open_bg_args: Vec<String> = Vec::new();
            open_bg_args.push("-g".to_owned());
            open_bg_args.push(path.to_owned());
            out.push(LaunchCommand { program: "open".to_owned(), args: open_bg_args });
            let mut exe1 = path.to_owned();
            exe1.append("/Contents/MacOS/Electron");
            out.push(LaunchCommand { program: exe1, args: Vec::new() });
            let mut exe2 = path.to_owned();
            exe2.append("/Contents/MacOS/Antigravity");
            out.push(LaunchCommand { program: exe2, args: Vec::new() });
            let mut exe3 = path.to_owned();
            exe3.append("/Contents/MacOS/antigravity");
            out.push(LaunchCommand { program: exe3, args: Vec::new() });
            let mut open_args: Vec<String> = Vec::new();
            open_args.push(path.to_owned());
            out.push(LaunchCommand { program: "open".to_owned(), args: open_args });
        },
        _ => {
            out.push(LaunchCommand { program: path.to_owned(), args: Vec::new() });
        },
    }
    proof {
        assert(out@.map_values(|c: LaunchCommand| c@) =~~= spec_launch_strategies(path@, os));
    }
    out
}

/// The bare commands tried through the executable search path when no
/// candidate file worked, in OS-specific preference order.
pub open spec fn spec_fallback_commands(os: OsKind) -> Seq<Seq<char>> {
    match os {
        OsKind::Linux => seq!["antigravity"@, "Antigravity"@],
        _ => seq!["Antigravity"@, "antigravity"@],
    }
}

pub fn fallback_commands(os: OsKind) -> (r: Vec<String>)
    ensures
        r.deep_view() == spec_fallback_commands(os),
{
    let mut out: Vec<String> = Vec::new();
    match os {
        OsKind::Linux => {
            out.push("antigravity".to_owned());
            out.push("Antigravity".to_owned());
        },
        _ => {
            out.push("Antigravity".to_owned());
            out.push("antigravity".to_owned());
        },
    }
    proof {
        assert(out.deep_view() =~= spec_fallback_commands(os));
    }
    out
}

/// The aggregated failure report when every launch strategy failed: each
/// attempted strategy with its error, in order.
pub open spec fn spec_failure_report(attempts: Seq<(Seq<char>, Seq<char>)>) -> Seq<char>
    decreases attempts.len(),
{
    if attempts.len() == 0 {
        "Could not start the host application; attempts:"@
    } else {
        spec_failure_report(attempts.drop_last()) + "\n"@ + attempts.last().0 + ": "@
            + attempts.last().1
    }
}

/// Aggregates the attempted strategies and their failures into the final
/// error message.
pub fn aggregate_launch_failures(attempts: &Vec<(String, String)>) -> (r: String)
    ensures
        r@ == spec_failure_report(attempts.deep_view()),
{
    let mut out = "Could not start the host application; attempts:".to_owned();
    let n = attempts.len();
    let mut i: usize = 0;
    while i < n
        invariant
            n == attempts@.len(),
            attempts.deep_view().len() == n,
            i <= n,
            out@ == spec_failure_report(attempts.deep_view().take(i as int)),
        decreases n - i,
    {
        out.append("\n");
        out.append(attempts[i].0.as_str());
        out.append(": ");
        out.append(attempts[i].1.as_str());
        proof {
            let av = attempts.deep_view();
            assert(av.take(i as int + 1).drop_last() =~= av.take(i as int));
            assert(av.take(i as int + 1).last() == av[i as int]);
            assert(av[i as int].0 == attempts@[i as int].0@);
            assert(av[i as int].1 == attempts@[i as int].1@);
            assert(out@ =~= spec_failure_report(av.take(i as int + 1)));
        }
        i = i + 1;
    }
    proof {
        assert(attempts.deep_view().take(n as int) =~= attempts.deep_view());
    }
    out
}

/// The installation directories, as a function of the base directories.
pub open spec fn spec_installations(
    data: Option<Seq<char>>,
    config: Option<Seq<char>>,
) -> Seq<Seq<char>> {
    (match data {
        Some(d) => seq![d + "/Antigravity"@],
        None => Seq::empty(),
    }) + (match config {
        Some(c) => seq![c + "/Antigravity"@],
        None => Seq::empty(),
    })
}

} // verus!
