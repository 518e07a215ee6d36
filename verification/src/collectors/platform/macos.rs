//! macOS-specific information collectors.
//!
//! In fast mode every hardware-profiler probe (slow, one to two seconds
//! each) is skipped: no boot mode, no virtualization, no GPU list, no
//! display resolution. The GPU list and the display resolution both come
//! from one profiler call, issued once; this module derives both fields
//! from that single output.

use vstd::prelude::*;
use vstd::string::*;
use crate::collectors::CollectMode;
use crate::collectors::platform::{locale_from_lang, shell_from_parts, PlatformInfo};
use crate::text::{
    all_digits, collect_somes, dec_val, is_digit, spec_ascii_lower, spec_contains, spec_split,
    spec_starts_with, spec_tokens, spec_trim, ascii_lower, contains_str, split_on,
    starts_with_str, str_eq, tokens, trim_str, views_of,
};

verus! {

/// The raw probe inputs of the macOS implementation.
pub struct MacProbes {
    /// Output of the version probe (the product version, like `"14.5"`).
    pub sw_vers_out: Option<String>,
    /// Output of the machine-hardware-name probe (`"arm64"` or `"x86_64"`).
    pub uname_m_out: Option<String>,
    /// Output of the hardware-profiler probe.
    pub sp_hardware_out: Option<String>,
    /// Output of the hypervisor-presence probe (`"1"` inside a VM).
    pub hv_vmm_out: Option<String>,
    /// Output of the display-profiler probe (one call for GPUs and
    /// resolution both).
    pub sp_displays_out: Option<String>,
    /// The running binary's architecture.
    pub architecture: Option<String>,
    /// The `TERM_PROGRAM` value.
    pub term_program: Option<String>,
    /// The `TERM` value.
    pub term: Option<String>,
    /// The `SHELL` value.
    pub shell_path: Option<String>,
    /// First line of the shell's version output, when probed.
    pub shell_version_line: Option<String>,
    /// Output of the power-management battery probe.
    pub pmset_out: Option<String>,
    /// The `LANG` value.
    pub lang: Option<String>,
    /// Output of the locale-defaults probe.
    pub apple_locale_out: Option<String>,
}

/// The GPU list the display profiler's output implies: the chipset
/// lines in order, de-duplicated first-seen-wins.
pub open spec fn spec_mac_gpus(sp_displays_out: Option<String>) -> Seq<Seq<char>> {
    let listed = match sp_displays_out {
        Some(t) => collect_somes(
            spec_split(t@, '\n').map_values(|l: Seq<char>| spec_chipset_line(l)),
        ),
        None => Seq::<Seq<char>>::empty(),
    };
    crate::text::spec_dedup(listed, Seq::<Seq<char>>::empty())
}

/// Collect macOS-specific information. In fast mode the profiler-backed
/// fields are absent whatever the caller passed; in full mode every
/// field equals its probe derivation; the desktop is always reported as
/// Aqua over Quartz.
pub fn collect(mode: CollectMode, p: MacProbes) -> (r: PlatformInfo)
    ensures
        mode == CollectMode::Fast ==> r.boot_mode is None && r.virtualization is None
            && r.gpus@.len() == 0 && r.display_resolution is None,
        mode == CollectMode::Full ==> crate::text::opt_view(r.boot_mode) == (
        match p.uname_m_out {
            Some(t) => Some(
                if spec_trim(t@) == "arm64"@ {
                    "Apple Silicon"@
                } else {
                    "UEFI"@
                },
            ),
            None => None::<Seq<char>>,
        }),
        mode == CollectMode::Full ==> crate::text::opt_view(r.virtualization) == spec_mac_virt(
            p.sp_hardware_out,
            p.hv_vmm_out,
        ),
        mode == CollectMode::Full ==> views_of(r.gpus@) == spec_mac_gpus(p.sp_displays_out),
        mode == CollectMode::Full ==> crate::text::opt_view(r.display_resolution) == (
        match p.sp_displays_out {
            Some(t) => spec_profile_resolution(spec_split(t@, '\n'), 0),
            None => None::<Seq<char>>,
        }),
        crate::text::opt_view(r.macos_codename) == (match p.sw_vers_out {
            Some(t) => spec_codename_of(t@),
            None => None::<Seq<char>>,
        }),
        crate::text::opt_view(r.terminal) == spec_mac_terminal(p.term_program, p.term),
        crate::text::opt_view(r.shell) == crate::collectors::platform::spec_shell_label(
            p.shell_path,
            p.shell_version_line,
        ),
        crate::text::opt_view(r.battery) == (match p.pmset_out {
            Some(t) => spec_pmset_battery(spec_split(t@, '\n'), 0),
            None => None::<Seq<char>>,
        }),
        crate::text::opt_view(r.locale) == spec_mac_locale(p.lang, p.apple_locale_out),
        r.desktop_environment matches Some(d) && d@ == "Aqua"@,
        r.display_server matches Some(d) && d@ == "Quartz"@,
        r.windows_edition is None,
        r.architecture == p.architecture,
{
    let macos_codename = match &p.sw_vers_out {
        Some(t) => codename_from_version(t.as_str()),
        None => None,
    };
    let terminal = terminal_from_probes(p.term_program, p.term);
    let shell = shell_from_parts(p.shell_path, p.shell_version_line);
    let battery = match &p.pmset_out {
        Some(t) => battery_from_pmset(t.as_str()),
        None => None,
    };
    let locale = locale_from_defaults(p.lang, p.apple_locale_out);
    if mode == CollectMode::Fast {
        return PlatformInfo {
            macos_codename,
            boot_mode: None,
            virtualization: None,
            desktop_environment: Some("Aqua".to_owned()),
            display_server: Some("Quartz".to_owned()),
            windows_edition: None,
            gpus: Vec::new(),
            architecture: p.architecture,
            terminal,
            shell,
            display_resolution: None,
            battery,
            locale,
        };
    }
    let boot_mode = match &p.uname_m_out {
        Some(t) => Some(detect_boot_mode(t.as_str())),
        None => None,
    };
    let virtualization = detect_virtualization(p.sp_hardware_out, p.hv_vmm_out);
    let (listed_gpus, display_resolution) = match &p.sp_displays_out {
        Some(t) => display_info_from_profile(t.as_str()),
        None => (Vec::new(), None),
    };
    let gpus = crate::text::dedup_keep_order(&listed_gpus);
    PlatformInfo {
        macos_codename,
        boot_mode,
        virtualization,
        desktop_environment: Some("Aqua".to_owned()),
        display_server: Some("Quartz".to_owned()),
        windows_edition: None,
        gpus,
        architecture: p.architecture,
        terminal,
        shell,
        display_resolution,
        battery,
        locale,
    }
}

/// The codename a major version number carries.
pub open spec fn spec_codename(major: nat) -> Option<Seq<char>> {
    if major == 15 {
        Some("Sequoia"@)
    } else if major == 14 {
        Some("Sonoma"@)
    } else if major == 13 {
        Some("Ventura"@)
    } else if major == 12 {
        Some("Monterey"@)
    } else if major == 11 {
        Some("Big Sur"@)
    } else if major == 10 {
        Some("Catalina"@)
    } else {
        None
    }
}

/// The codename the version probe's output carries: decided by the
/// major version (the text before the first dot of the trimmed output).
pub open spec fn spec_codename_of(text: Seq<char>) -> Option<Seq<char>> {
    let major_txt = spec_split(spec_trim(text), '.')[0];
    if major_txt.len() > 0 && all_digits(major_txt) && dec_val(major_txt) <= u64::MAX {
        spec_codename(dec_val(major_txt))
    } else {
        None
    }
}

/// The codename of the product version in the version probe's output:
/// decided by the major version (the text before the first dot of the
/// trimmed output).
pub fn codename_from_version(text: &str) -> (r: Option<String>)
    ensures
        crate::text::opt_view(r) == spec_codename_of(text@),
{
    let version = trim_str(text);
    let parts = split_on(version.as_str(), '.');
    proof {
        crate::text::lemma_split_len(version@, '.');
        assert(views_of(parts@)[0] == parts@[0]@);
    }
    let major = match crate::text::parse_u64(parts[0].as_str()) {
        Some(m) => m,
        None => {
            return None;
        },
    };
    if major == 15 {
        Some("Sequoia".to_owned())
    } else if major == 14 {
        Some("Sonoma".to_owned())
    } else if major == 13 {
        Some("Ventura".to_owned())
    } else if major == 12 {
        Some("Monterey".to_owned())
    } else if major == 11 {
        Some("Big Sur".to_owned())
    } else if major == 10 {
        Some("Catalina".to_owned())
    } else {
        None
    }
}

/// The boot-mode label of the machine-hardware name: Apple Silicon for
/// the ARM name, UEFI for anything else.
pub fn detect_boot_mode(uname_m: &str) -> (r: String)
    ensures
        spec_trim(uname_m@) == "arm64"@ ==> r@ == "Apple Silicon"@,
        spec_trim(uname_m@) != "arm64"@ ==> r@ == "UEFI"@,
{
    let arch = trim_str(uname_m);
    if str_eq(arch.as_str(), "arm64") {
        "Apple Silicon".to_owned()
    } else {
        "UEFI".to_owned()
    }
}

/// The hypervisor label the hardware-profiler text implies.
pub open spec fn spec_profile_virt(t: Seq<char>) -> Option<Seq<char>> {
    let low = spec_ascii_lower(t);
    if spec_contains(low, "vmware"@) {
        Some("VMware"@)
    } else if spec_contains(low, "virtualbox"@) {
        Some("VirtualBox"@)
    } else if spec_contains(low, "parallels"@) {
        Some("Parallels"@)
    } else if spec_contains(low, "qemu"@) {
        Some("QEMU"@)
    } else {
        None
    }
}

/// The hypervisor fact the probes imply: the hardware profile's label,
/// else a reported hypervisor presence; either probe's absence ends its
/// part of the chain.
pub open spec fn spec_mac_virt(sp_hardware: Option<String>, hv_vmm: Option<String>) -> Option<
    Seq<char>,
> {
    match sp_hardware {
        Some(t) => match spec_profile_virt(t@) {
            Some(name) => Some(name),
            None => match hv_vmm {
                Some(h) => if spec_trim(h@) == "1"@ {
                    Some("Virtual Machine"@)
                } else {
                    None
                },
                None => None,
            },
        },
        None => None,
    }
}

/// Detect virtualization: the hardware profile names the hypervisor;
/// failing that, the hypervisor-presence probe reporting `1` means some
/// virtual machine. Either probe's absence ends its part of the chain.
pub fn detect_virtualization(sp_hardware: Option<String>, hv_vmm: Option<String>) -> (r: Option<
    String,
>)
    ensures
        crate::text::opt_view(r) == spec_mac_virt(sp_hardware, hv_vmm),
{
    let t = match sp_hardware {
        Some(t) => t,
        None => {
            return None;
        },
    };
    let low = ascii_lower(t.as_str());
    if contains_str(low.as_str(), "vmware") {
        return Some("VMware".to_owned());
    }
    if contains_str(low.as_str(), "virtualbox") {
        return Some("VirtualBox".to_owned());
    }
    if contains_str(low.as_str(), "parallels") {
        return Some("Parallels".to_owned());
    }
    if contains_str(low.as_str(), "qemu") {
        return Some("QEMU".to_owned());
    }
    match hv_vmm {
        Some(h) => {
            let v = trim_str(h.as_str());
            if str_eq(v.as_str(), "1") {
                Some("Virtual Machine".to_owned())
            } else {
                None
            }
        },
        None => None,
    }
}

/// The GPU name a display-profile line contributes: the trimmed value
/// of a `Chipset Model:` line, when non-empty.
pub open spec fn spec_chipset_line(l: Seq<char>) -> Option<Seq<char>> {
    let t = spec_trim(l);
    if spec_starts_with(t, "Chipset Model:"@) {
        let v = spec_trim(t.skip(14));
        if v.len() > 0 {
            Some(v)
        } else {
            None
        }
    } else {
        None
    }
}

/// The resolution a display-profile line offers: for a `Resolution:`
/// line, its value reduced to digits and `x` when that carries an `x`,
/// else the raw trimmed value when non-empty.
pub open spec fn spec_profile_res_line(l: Seq<char>) -> Option<Seq<char>> {
    let t = spec_trim(l);
    if spec_starts_with(t, "Resolution:"@) {
        let raw = spec_trim(t.skip(11));
        let clean = spec_keep_resolution(raw);
        if spec_contains(clean, "x"@) {
            Some(clean)
        } else if raw.len() > 0 {
            Some(raw)
        } else {
            None
        }
    } else {
        None
    }
}

/// The first display-profile line offering a resolution, from index `i`
/// on.
pub open spec fn spec_profile_resolution(lines: Seq<Seq<char>>, i: int) -> Option<Seq<char>>
    decreases lines.len() - i,
{
    if 0 <= i < lines.len() {
        match spec_profile_res_line(lines[i]) {
            Some(v) => Some(v),
            None => spec_profile_resolution(lines, i + 1),
        }
    } else {
        None
    }
}

/// GPU names and the display resolution, both from the one
/// display-profiler output: `Chipset Model:` lines in order, and the
/// first `Resolution:` line, its value kept to digits and `x` when that
/// spells a resolution, else taken trimmed and whole.
pub fn display_info_from_profile(text: &str) -> (r: (Vec<String>, Option<String>))
    ensures
        views_of(r.0@) == collect_somes(
            spec_split(text@, '\n').map_values(|l: Seq<char>| spec_chipset_line(l)),
        ),
        crate::text::opt_view(r.1) == spec_profile_resolution(spec_split(text@, '\n'), 0),
{
    let lines = split_on(text, '\n');
    let ghost lv = spec_split(text@, '\n');
    let ghost goal = spec_split(text@, '\n').map_values(|l: Seq<char>| spec_chipset_line(l));
    let mut gpus: Vec<String> = Vec::new();
    let mut resolution: Option<String> = None;
    let mut i: usize = 0;
    proof {
        assert(views_of(gpus@) =~= collect_somes(goal.take(0)));
    }
    while i < lines.len()
        invariant
            lv == views_of(lines@),
            lv == spec_split(text@, '\n'),
            goal == spec_split(text@, '\n').map_values(|l: Seq<char>| spec_chipset_line(l)),
            i <= lines@.len(),
            views_of(gpus@) == collect_somes(goal.take(i as int)),
            resolution is None ==> spec_profile_resolution(lv, 0) == spec_profile_resolution(
                lv,
                i as int,
            ),
            resolution matches Some(v) ==> spec_profile_resolution(lv, 0) == Some(v@),
        decreases lines@.len() - i,
    {
        proof {
            assert(views_of(lines@)[i as int] == lines@[i as int]@);
            assert(goal[i as int] == spec_chipset_line(lines@[i as int]@));
            assert(goal.take(i + 1).drop_last() =~= goal.take(i as int));
            assert(goal.take(i + 1).last() == goal[i as int]);
        }
        let line: &String = &lines[i];
        let trimmed = trim_str(line.as_str());
        let cand: Option<String> = if starts_with_str(trimmed.as_str(), "Chipset Model:") {
            proof {
                reveal_strlit("Chipset Model:");
            }
            let n = trimmed.as_str().unicode_len();
            let tail = trimmed.as_str().substring_char(14, n);
            let v = trim_str(tail);
            if v.as_str().unicode_len() > 0 {
                proof {
                    assert(trimmed@.subrange(14, n as int) =~= trimmed@.skip(14));
                }
                Some(v)
            } else {
                proof {
                    assert(trimmed@.subrange(14, n as int) =~= trimmed@.skip(14));
                }
                None
            }
        } else {
            None
        };
        match cand {
            Some(g) => {
                proof {
                    assert(views_of(gpus@.push(g)) =~= views_of(gpus@).push(g@));
                    assert(collect_somes(goal.take(i as int)).push(g@) =~= collect_somes(
                        goal.take(i as int),
                    ) + seq![g@]);
                }
                gpus.push(g);
            },
            None => {},
        }
        if resolution.is_none() {
            if starts_with_str(trimmed.as_str(), "Resolution:") {
                proof {
                    reveal_strlit("Resolution:");
                }
                let n = trimmed.as_str().unicode_len();
                let tail = trimmed.as_str().substring_char(11, n);
                proof {
                    assert(trimmed@.subrange(11, n as int) =~= trimmed@.skip(11));
                }
                let res_raw = trim_str(tail);
                let clean = keep_resolution_chars(res_raw.as_str());
                if contains_str(clean.as_str(), "x") {
                    proof {
                        assert(spec_profile_res_line(lv[i as int]) == Some(clean@));
                    }
                    resolution = Some(clean);
                } else if res_raw.as_str().unicode_len() > 0 {
                    proof {
                        assert(spec_profile_res_line(lv[i as int]) == Some(res_raw@));
                    }
                    resolution = Some(res_raw);
                } else {
                    proof {
                        assert(spec_profile_res_line(lv[i as int]) is None);
                    }
                }
            } else {
                proof {
                    assert(spec_profile_res_line(lv[i as int]) is None);
                }
            }
        }
        i = i + 1;
    }
    proof {
        assert(goal.take(lines@.len() as int) =~= goal);
    }
    (gpus, resolution)
}

/// The characters of `s` that can spell a resolution: digits and `x`.
pub open spec fn spec_keep_resolution(s: Seq<char>) -> Seq<char>
    decreases s.len(),
{
    if s.len() == 0 {
        Seq::empty()
    } else {
        spec_keep_resolution(s.drop_last()) + if is_digit(s.last()) || s.last() == 'x' {
            seq![s.last()]
        } else {
            Seq::empty()
        }
    }
}

fn keep_resolution_chars(s: &str) -> (r: String)
    ensures
        r@ == spec_keep_resolution(s@),
{
    let n = s.unicode_len();
    let mut r = String::new();
    let mut i: usize = 0;
    proof {
        assert(r@ =~= spec_keep_resolution(s@.take(0)));
    }
    while i < n
        invariant
            n == s@.len(),
            i <= n,
            r@ == spec_keep_resolution(s@.take(i as int)),
        decreases n - i,
    {
        proof {
            assert(s@.take(i + 1).drop_last() =~= s@.take(i as int));
            assert(s@.take(i + 1).last() == s@[i as int]);
        }
        let c = s.get_char(i);
        let code = c as u32;
        if (48 <= code && code <= 57) || c == 'x' {
            crate::text::push_char(&mut r, c);
        }
        i = i + 1;
    }
    proof {
        assert(s@.take(n as int) =~= s@);
    }
    r
}

/// The terminal fact the probes imply: the session variable's
/// well-known values mapped to display names, any other value as
/// itself, the plain `TERM` value as the fallback.
pub open spec fn spec_mac_terminal(term_program: Option<String>, term: Option<String>) -> Option<
    Seq<char>,
> {
    match term_program {
        Some(tp) => Some(
            if tp@ == "Apple_Terminal"@ {
                "Terminal.app"@
            } else if tp@ == "iTerm.app"@ {
                "iTerm2"@
            } else if tp@ == "vscode"@ {
                "VS Code"@
            } else {
                tp@
            },
        ),
        None => crate::text::opt_view(term),
    }
}

/// The terminal name: the session variable's well-known values get
/// their display names, any other value stands for itself, and the
/// plain `TERM` value is the fallback.
pub fn terminal_from_probes(term_program: Option<String>, term: Option<String>) -> (r: Option<
    String,
>)
    ensures
        crate::text::opt_view(r) == spec_mac_terminal(term_program, term),
{
    match term_program {
        Some(tp) => {
            if str_eq(tp.as_str(), "Apple_Terminal") {
                Some("Terminal.app".to_owned())
            } else if str_eq(tp.as_str(), "iTerm.app") {
                Some("iTerm2".to_owned())
            } else if str_eq(tp.as_str(), "vscode") {
                Some("VS Code".to_owned())
            } else {
                Some(tp)
            }
        },
        None => term,
    }
}

/// The part scan of one battery line: the last part whose trimmed text
/// ends with the percent sign becomes the percentage; otherwise the
/// last part naming a charging state or mains power becomes the status.
pub open spec fn scan_parts(
    parts: Seq<Seq<char>>,
    i: int,
    pct: Option<Seq<char>>,
    st: Option<Seq<char>>,
) -> (Option<Seq<char>>, Option<Seq<char>>)
    decreases parts.len() - i,
{
    if 0 <= i < parts.len() {
        let v = spec_trim(parts[i]);
        if v.len() > 0 && v.last() == '%' {
            scan_parts(parts, i + 1, Some(v), st)
        } else if spec_contains(v, "charging"@) || spec_contains(v, "discharging"@)
            || spec_contains(v, "charged"@) || spec_contains(v, "AC"@) {
            scan_parts(parts, i + 1, pct, Some(v))
        } else {
            scan_parts(parts, i + 1, pct, st)
        }
    } else {
        (pct, st)
    }
}

/// The first whitespace token ending with the percent sign, from index
/// `i` on (the fallback when no `;`-part carried one).
pub open spec fn first_pct_token(toks: Seq<Seq<char>>, i: int) -> Option<Seq<char>>
    decreases toks.len() - i,
{
    if 0 <= i < toks.len() {
        if toks[i].len() > 0 && toks[i].last() == '%' {
            Some(toks[i])
        } else {
            first_pct_token(toks, i + 1)
        }
    } else {
        None
    }
}

/// A lower-case ASCII letter raised to upper case; anything else
/// unchanged.
pub open spec fn upper_char(c: char) -> char {
    if 97 <= c as u32 <= 122 {
        ((c as u8) - 32) as char
    } else {
        c
    }
}

/// The text with its first character raised to upper case.
pub open spec fn spec_capitalize(s: Seq<char>) -> Seq<char> {
    if s.len() == 0 {
        s
    } else {
        seq![upper_char(s[0])] + s.skip(1)
    }
}

/// The battery text a listing line offers: for a line naming the
/// battery or carrying a percent sign, the scanned percentage (or the
/// first percent-ending token), with the capitalized status in
/// parentheses when one was scanned.
pub open spec fn spec_pmset_line(l: Seq<char>) -> Option<Seq<char>> {
    if spec_contains(l, "InternalBattery"@) || spec_contains(l, "%"@) {
        let s = scan_parts(spec_split(l, ';'), 0, None, None);
        let pct = match s.0 {
            Some(v) => Some(v),
            None => first_pct_token(spec_tokens(l), 0),
        };
        match pct {
            Some(v) => Some(
                match s.1 {
                    Some(st) => v + " ("@ + spec_capitalize(st) + ")"@,
                    None => v,
                },
            ),
            None => None,
        }
    } else {
        None
    }
}

/// The first listing line offering a battery text, from index `i` on.
pub open spec fn spec_pmset_battery(lines: Seq<Seq<char>>, i: int) -> Option<Seq<char>>
    decreases lines.len() - i,
{
    if 0 <= i < lines.len() {
        match spec_pmset_line(lines[i]) {
            Some(v) => Some(v),
            None => spec_pmset_battery(lines, i + 1),
        }
    } else {
        None
    }
}

/// The battery field parsed from the power-management probe's output:
/// from the first line naming the battery or a percentage, the scanned
/// percentage with the capitalized status in parentheses; absent only
/// when no line offers a percentage.
pub fn battery_from_pmset(text: &str) -> (r: Option<String>)
    ensures
        crate::text::opt_view(r) == spec_pmset_battery(spec_split(text@, '\n'), 0),
{
    let lines = split_on(text, '\n');
    let ghost lv = spec_split(text@, '\n');
    let mut i: usize = 0;
    while i < lines.len()
        invariant
            lv == views_of(lines@),
            lv == spec_split(text@, '\n'),
            i <= lines@.len(),
            spec_pmset_battery(lv, 0) == spec_pmset_battery(lv, i as int),
        decreases lines@.len() - i,
    {
        proof {
            assert(views_of(lines@)[i as int] == lines@[i as int]@);
        }
        let line: &String = &lines[i];
        if contains_str(line.as_str(), "InternalBattery") || contains_str(line.as_str(), "%") {
            let parts = split_on(line.as_str(), ';');
            let ghost pv = spec_split(line@, ';');
            let mut percentage: Option<String> = None;
            let mut status: Option<String> = None;
            let mut j: usize = 0;
            while j < parts.len()
                invariant
                    pv == views_of(parts@),
                    j <= parts@.len(),
                    scan_parts(pv, 0, None, None) == scan_parts(
                        pv,
                        j as int,
                        crate::text::opt_view(percentage),
                        crate::text::opt_view(status),
                    ),
                decreases parts@.len() - j,
            {
                proof {
                    assert(views_of(parts@)[j as int] == parts@[j as int]@);
                }
                let part = trim_str(parts[j].as_str());
                if ends_with_pct(part.as_str()) {
                    percentage = Some(part);
                } else if contains_str(part.as_str(), "charging") || contains_str(
                    part.as_str(),
                    "discharging",
                ) || contains_str(part.as_str(), "charged") || contains_str(part.as_str(), "AC") {
                    status = Some(part);
                }
                j = j + 1;
            }
            let pct_final: Option<String> = match percentage {
                Some(v) => Some(v),
                None => first_pct_token_exec(line.as_str()),
            };
            match pct_final {
                Some(pct) => {
                    match status {
                        Some(st) => {
                            let ghost pval = pct@;
                            let mut r = pct;
                            r.append(" (");
                            let cap = capitalize_first(st.as_str());
                            r.append(cap.as_str());
                            r.append(")");
                            proof {
                                assert(r@ =~= pval + " ("@ + spec_capitalize(st@) + ")"@);
                                assert(spec_pmset_line(lv[i as int]) == Some(r@));
                            }
                            return Some(r);
                        },
                        None => {
                            proof {
                                assert(spec_pmset_line(lv[i as int]) == Some(pct@));
                            }
                            return Some(pct);
                        },
                    }
                },
                None => {
                    proof {
                        assert(spec_pmset_line(lv[i as int]) is None);
                    }
                },
            }
        }
        i = i + 1;
    }
    None
}

/// The first whitespace token of the line that ends with the percent
/// sign.
fn first_pct_token_exec(line: &str) -> (r: Option<String>)
    ensures
        crate::text::opt_view(r) == first_pct_token(spec_tokens(line@), 0),
{
    let toks = tokens(line);
    let ghost tv = spec_tokens(line@);
    let mut k: usize = 0;
    while k < toks.len()
        invariant
            tv == views_of(toks@),
            tv == spec_tokens(line@),
            k <= toks@.len(),
            first_pct_token(tv, 0) == first_pct_token(tv, k as int),
        decreases toks@.len() - k,
    {
        proof {
            assert(views_of(toks@)[k as int] == toks@[k as int]@);
        }
        let tok: &String = &toks[k];
        if ends_with_pct(tok.as_str()) {
            proof {
                assert(first_pct_token(tv, k as int) == Some(tok@));
            }
            return Some(tok.clone());
        }
        k = k + 1;
    }
    None
}

/// Whether the text ends with the percent sign.
fn ends_with_pct(s: &str) -> (r: bool)
    ensures
        r == (s@.len() > 0 && s@[s@.len() - 1] == '%'),
{
    let n = s.unicode_len();
    if n == 0 {
        return false;
    }
    s.get_char(n - 1) == '%'
}

/// The text with its first character raised to upper case (ASCII).
fn capitalize_first(s: &str) -> (r: String)
    ensures
        r@ == spec_capitalize(s@),
{
    let n = s.unicode_len();
    if n == 0 {
        let r = String::new();
        proof {
            assert(r@ =~= s@);
        }
        return r;
    }
    let c = s.get_char(0);
    let code = c as u32;
    let up: char = if 97 <= code && code <= 122 {
        ((c as u8) - 32) as char
    } else {
        c
    };
    let mut r = String::new();
    crate::text::push_char(&mut r, up);
    let rest = s.substring_char(1, n);
    r.append(rest);
    proof {
        assert(s@.subrange(1, n as int) =~= s@.skip(1));
        assert(r@ =~= spec_capitalize(s@));
    }
    r
}

/// The locale the probes imply: the `LANG` value up to its first dot,
/// else the trimmed locale-defaults output when non-empty.
pub open spec fn spec_mac_locale(lang: Option<String>, apple_locale_out: Option<String>) -> Option<
    Seq<char>,
> {
    match crate::collectors::platform::spec_lang_locale(lang) {
        Some(v) => Some(v),
        None => match apple_locale_out {
            Some(t) => if spec_trim(t@).len() > 0 {
                Some(spec_trim(t@))
            } else {
                None
            },
            None => None,
        },
    }
}

/// The locale: the `LANG` value up to its first dot, else the trimmed
/// locale-defaults output when non-empty.
pub fn locale_from_defaults(lang: Option<String>, apple_locale_out: Option<String>) -> (r: Option<
    String,
>)
    ensures
        crate::text::opt_view(r) == spec_mac_locale(lang, apple_locale_out),
{
    match locale_from_lang(lang) {
        Some(v) => Some(v),
        None => {
            match &apple_locale_out {
                Some(t) => {
                    let v = trim_str(t.as_str());
                    if v.as_str().unicode_len() > 0 {
                        Some(v)
                    } else {
                        None
                    }
                },
                None => None,
            }
        },
    }
}

} // verus!
