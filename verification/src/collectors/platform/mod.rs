//! Platform-specific collectors.
//!
//! One capability interface with three mutually exclusive
//! implementations, selected once at startup by a platform-detection
//! switch; each implementation decides per field whether its probe is
//! cheap enough for fast mode.

pub mod linux;
pub mod macos;
pub mod windows;

use vstd::prelude::*;
use vstd::string::*;
use crate::collectors::CollectMode;
use crate::text::{
    all_digits, dec_val, is_digit, spec_split, spec_starts_with, spec_tokens, spec_trim, parse_u64,
    split_on, starts_with_str, str_eq, tokens, trim_str, views_of,
};

verus! {

/// The operating-system family the process runs on, detected once at
/// startup.
#[derive(Debug, Clone, Copy, PartialEq, Eq, Structural)]
pub enum OsFamily {
    Linux,
    MacOs,
    Windows,
    Other,
}

/// Platform-specific extended information. Every field is independently
/// optional: absence means the probe was skipped (fast mode) or failed.
#[derive(Debug, Clone)]
pub struct PlatformInfo {
    /// Desktop environment (Linux).
    pub desktop_environment: Option<String>,
    /// Display server (Linux: X11/Wayland).
    pub display_server: Option<String>,
    /// Windows edition (Windows).
    pub windows_edition: Option<String>,
    /// macOS codename.
    pub macos_codename: Option<String>,
    /// Boot mode (UEFI/Legacy).
    pub boot_mode: Option<String>,
    /// Virtualization platform if running in a VM.
    pub virtualization: Option<String>,
    /// GPU names, first-seen order.
    pub gpus: Vec<String>,
    /// System architecture (x86_64, aarch64, ...).
    pub architecture: Option<String>,
    /// Terminal emulator name.
    pub terminal: Option<String>,
    /// Shell name and version.
    pub shell: Option<String>,
    /// Display resolution.
    pub display_resolution: Option<String>,
    /// Battery status (percentage and charging state).
    pub battery: Option<String>,
    /// System locale.
    pub locale: Option<String>,
}

impl Default for PlatformInfo {
    /// The all-absent record: what an unsupported platform reports.
    fn default() -> (r: Self)
        ensures
            r.desktop_environment is None,
            r.display_server is None,
            r.windows_edition is None,
            r.macos_codename is None,
            r.boot_mode is None,
            r.virtualization is None,
            r.gpus@.len() == 0,
            r.architecture is None,
            r.terminal is None,
            r.shell is None,
            r.display_resolution is None,
            r.battery is None,
            r.locale is None,
    {
        PlatformInfo {
            desktop_environment: None,
            display_server: None,
            windows_edition: None,
            macos_codename: None,
            boot_mode: None,
            virtualization: None,
            gpus: Vec::new(),
            architecture: None,
            terminal: None,
            shell: None,
            display_resolution: None,
            battery: None,
            locale: None,
        }
    }
}

/// The probe inputs of whichever platform implementation is active.
pub enum PlatformProbes {
    Linux(linux::LinuxProbes),
    MacOs(macos::MacProbes),
    Windows(windows::WindowsProbes),
    Other,
}

/// Collect platform-specific information, dispatching to the
/// implementation selected at startup. Whatever the platform, fast mode
/// leaves the subprocess-backed fields absent: no GPUs, no display
/// resolution, no boot mode.
pub fn collect(mode: CollectMode, probes: PlatformProbes) -> (r: PlatformInfo)
    ensures
        mode == CollectMode::Fast ==> r.gpus@.len() == 0 && r.display_resolution is None
            && r.boot_mode is None,
        probes is Other ==> r.desktop_environment is None && r.display_server is None
            && r.windows_edition is None && r.macos_codename is None && r.boot_mode is None
            && r.virtualization is None && r.gpus@.len() == 0 && r.architecture is None
            && r.terminal is None && r.shell is None && r.display_resolution is None && r.battery
            is None && r.locale is None,
{
    match probes {
        PlatformProbes::Linux(p) => linux::collect(mode, p),
        PlatformProbes::MacOs(p) => macos::collect(mode, p),
        PlatformProbes::Windows(p) => windows::collect(mode, p),
        PlatformProbes::Other => Default::default(),
    }
}

/// The shell label a path and a version line yield: the path's last
/// `/`-separated component, then a space and the version when the line
/// carries one; absent without a path.
pub open spec fn spec_shell_label(shell_path: Option<String>, version_line: Option<String>) -> Option<
    Seq<char>,
> {
    match shell_path {
        Some(path) => {
            let segs = spec_split(path@, '/');
            let name = segs[segs.len() - 1];
            Some(
                match version_line {
                    Some(l) => match spec_version_token(l@) {
                        Some(ver) => name + " "@ + ver,
                        None => name,
                    },
                    None => name,
                },
            )
        },
        None => None,
    }
}

/// The shell name with its version: the path's last `/`-separated
/// component, then a space and the version when the version line
/// yielded one.
pub fn shell_from_parts(shell_path: Option<String>, version_line: Option<String>) -> (r: Option<
    String,
>)
    ensures
        crate::text::opt_view(r) == spec_shell_label(shell_path, version_line),
{
    let path = match shell_path {
        Some(p) => p,
        None => {
            return None;
        },
    };
    let segs = split_on(path.as_str(), '/');
    proof {
        crate::text::lemma_split_len(path@, '/');
        assert(views_of(segs@)[segs@.len() - 1] == segs@[segs@.len() - 1]@);
    }
    let name: &String = &segs[segs.len() - 1];
    match version_line {
        Some(line) => {
            match version_token(line.as_str()) {
                Some(ver) => {
                    let mut r = name.clone();
                    r.append(" ");
                    r.append(ver.as_str());
                    Some(r)
                },
                None => Some(name.clone()),
            }
        },
        None => Some(name.clone()),
    }
}

/// The version the first digit-led token of a line carries: its
/// digits-and-dots prefix; absent when no token starts with a digit.
pub open spec fn first_version_token(toks: Seq<Seq<char>>, i: int) -> Option<Seq<char>>
    decreases toks.len() - i,
{
    if 0 <= i < toks.len() {
        if toks[i].len() > 0 && is_digit(toks[i][0]) {
            Some(version_prefix(toks[i]))
        } else {
            first_version_token(toks, i + 1)
        }
    } else {
        None
    }
}

/// The version number a version line carries.
pub open spec fn spec_version_token(line: Seq<char>) -> Option<Seq<char>> {
    first_version_token(spec_tokens(line), 0)
}

/// The leading digits-and-dots prefix of the first token of `line` that
/// starts with a digit; `None` exactly when no token does.
pub fn version_token(line: &str) -> (r: Option<String>)
    ensures
        crate::text::opt_view(r) == spec_version_token(line@),
{
    let toks = tokens(line);
    let ghost tv = spec_tokens(line@);
    let mut i: usize = 0;
    while i < toks.len()
        invariant
            tv == views_of(toks@),
            tv == spec_tokens(line@),
            i <= toks@.len(),
            first_version_token(tv, 0) == first_version_token(tv, i as int),
        decreases toks@.len() - i,
    {
        proof {
            assert(views_of(toks@)[i as int] == toks@[i as int]@);
        }
        let tok: &String = &toks[i];
        let tn = tok.as_str().unicode_len();
        if tn > 0 {
            let c0 = tok.as_str().get_char(0);
            let code0 = c0 as u32;
            if 48 <= code0 && code0 <= 57 {
                // take the digits-and-dots prefix
                let mut j: usize = 1;
                while j < tn && digit_or_dot_at(tok.as_str(), j)
                    invariant
                        tn == tok@.len(),
                        1 <= j <= tn,
                        forall|m: int| 0 <= m < j ==> is_digit(tok@[m]) || tok@[m] == '.',
                        is_digit(tok@[0]),
                    decreases tn - j,
                {
                    j = j + 1;
                }
                proof {
                    lemma_version_prefix(tok@, j as int);
                    assert(first_version_token(tv, i as int) == Some(version_prefix(tv[i as int])));
                }
                let v = tok.as_str().substring_char(0, j).to_owned();
                return Some(v);
            }
        }
        i = i + 1;
    }
    None
}

fn digit_or_dot_at(s: &str, j: usize) -> (r: bool)
    requires
        j < s@.len(),
    ensures
        r == (is_digit(s@[j as int]) || s@[j as int] == '.'),
{
    let c = s.get_char(j);
    let code = c as u32;
    (48 <= code && code <= 57) || c == '.'
}

/// The longest prefix of digits and dots.
pub open spec fn version_prefix(s: Seq<char>) -> Seq<char>
    decreases s.len(),
{
    if s.len() == 0 {
        Seq::empty()
    } else if is_digit(s[0]) || s[0] == '.' {
        seq![s[0]] + version_prefix(s.skip(1))
    } else {
        Seq::empty()
    }
}

proof fn lemma_version_prefix(s: Seq<char>, j: int)
    requires
        0 <= j <= s.len(),
        forall|m: int| 0 <= m < j ==> is_digit(s[m]) || s[m] == '.',
        j < s.len() ==> !(is_digit(s[j]) || s[j] == '.'),
    ensures
        version_prefix(s) == s.subrange(0, j),
    decreases s.len(),
{
    if j == 0 {
        assert(s.subrange(0, 0) =~= Seq::<char>::empty());
    } else {
        let t = s.skip(1);
        assert forall|m: int| 0 <= m < j - 1 implies is_digit(t[m]) || t[m] == '.' by {
            assert(t[m] == s[m + 1]);
        }
        if j - 1 < t.len() {
            assert(t[j - 1] == s[j]);
        }
        lemma_version_prefix(t, j - 1);
        assert(seq![s[0]] + t.subrange(0, j - 1) =~= s.subrange(0, j));
    }
}

/// The locale a `LANG` value carries: everything before the first dot.
pub open spec fn spec_lang_locale(lang: Option<String>) -> Option<Seq<char>> {
    match lang {
        Some(l) => Some(spec_split(l@, '.')[0]),
        None => None,
    }
}

/// The locale from the `LANG` value: everything before the first dot.
pub fn locale_from_lang(lang: Option<String>) -> (r: Option<String>)
    ensures
        crate::text::opt_view(r) == spec_lang_locale(lang),
{
    match lang {
        Some(l) => {
            let parts = split_on(l.as_str(), '.');
            proof {
                crate::text::lemma_split_len(l@, '.');
                assert(views_of(parts@)[0] == parts@[0]@);
            }
            let mut parts = parts;
            let first = parts.remove(0);
            Some(first)
        },
        None => None,
    }
}

} // verus!
