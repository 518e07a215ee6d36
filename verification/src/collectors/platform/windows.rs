//! Windows-specific information collectors.
//!
//! In fast mode every management-interface and subprocess probe is
//! skipped: only the environment-derived fields remain. In full mode
//! the caller queries the system-management interface (with a
//! shell-command fallback chain) and hands the raw values in; the
//! decisions are made here.

use vstd::prelude::*;
use vstd::string::*;
use crate::collectors::CollectMode;
use crate::collectors::platform::PlatformInfo;
use crate::numfmt::{spec_dec, u64_to_string};
use crate::text::{
    spec_ascii_lower, spec_contains, spec_split, spec_trim, ascii_lower, contains_str, split_on,
    str_eq, trim_str,
};

verus! {

/// The raw probe inputs of the Windows implementation.
pub struct WindowsProbes {
    /// The running binary's architecture.
    pub architecture: Option<String>,
    /// Whether a Windows Terminal session variable is present.
    pub has_wt_session: bool,
    /// Whether `TERM_PROGRAM` names the code editor.
    pub term_program_vscode: bool,
    /// The OS edition caption, from the management interface or its
    /// shell fallback.
    pub edition: Option<String>,
    /// The firmware-type environment value.
    pub firmware_env: Option<String>,
    /// Output of the boot-configuration listing, when probed.
    pub bcdedit_out: Option<String>,
    /// The hardware manufacturer, from the management interface.
    pub manufacturer: Option<String>,
    /// The hardware model, from the management interface.
    pub model: Option<String>,
    /// Whether the management interface reports a hypervisor present.
    pub hypervisor_present: Option<bool>,
    /// GPU names, from the management interface or its shell fallback.
    pub gpus: Vec<String>,
    /// The `SHELL` value (set by alternative shells).
    pub shell_env: Option<String>,
    /// First line of the alternative shell's version output.
    pub shell_version_line: Option<String>,
    /// The PowerShell engine version, from the registry listing.
    pub powershell_version: Option<String>,
    /// Display width in pixels, from the native metrics call.
    pub screen_w: Option<u64>,
    /// Display height in pixels, from the native metrics call.
    pub screen_h: Option<u64>,
    /// Battery charge percentage, from the management interface.
    pub battery_charge: Option<u64>,
    /// Battery status code, from the management interface.
    pub battery_status: Option<u64>,
    /// The decoded battery text from the shell fallback, when the
    /// management interface gave no charge reading.
    pub battery_fallback: Option<String>,
    /// The user's locale name, from the native call.
    pub locale: Option<String>,
}

/// Collect Windows-specific information. In fast mode only the
/// environment-derived fields are present; in full mode every field
/// equals its probe derivation; the desktop is always reported as the
/// Windows shell over the desktop window manager.
pub fn collect(mode: CollectMode, p: WindowsProbes) -> (r: PlatformInfo)
    ensures
        mode == CollectMode::Fast ==> r.windows_edition is None && r.boot_mode is None
            && r.virtualization is None && r.gpus@.len() == 0 && r.shell is None
            && r.display_resolution is None && r.battery is None && r.locale is None,
        mode == CollectMode::Full ==> r.windows_edition == p.edition,
        mode == CollectMode::Full ==> crate::text::opt_view(r.boot_mode) == spec_windows_boot(
            p.firmware_env,
            p.bcdedit_out,
        ),
        mode == CollectMode::Full ==> crate::text::opt_view(r.virtualization) == spec_windows_virt(
            p.manufacturer,
            p.model,
            p.hypervisor_present,
        ),
        mode == CollectMode::Full ==> crate::text::views_of(r.gpus@) == crate::text::spec_dedup(
            crate::text::views_of(p.gpus@),
            Seq::<Seq<char>>::empty(),
        ),
        mode == CollectMode::Full ==> crate::text::opt_view(r.shell) == Some(
            spec_windows_shell(p.shell_env, p.shell_version_line, p.powershell_version),
        ),
        mode == CollectMode::Full ==> crate::text::opt_view(r.display_resolution)
            == spec_resolution_label(p.screen_w, p.screen_h),
        mode == CollectMode::Full ==> crate::text::opt_view(r.battery) == (
        match spec_battery_label(p.battery_charge, p.battery_status) {
            Some(b) => Some(b),
            None => crate::text::opt_view(p.battery_fallback),
        }),
        mode == CollectMode::Full ==> r.locale == p.locale,
        r.terminal matches Some(term) && term@ == (if p.has_wt_session {
            "Windows Terminal"@
        } else if p.term_program_vscode {
            "VS Code"@
        } else {
            "Console"@
        }),
        r.desktop_environment matches Some(d) && d@ == "Windows Shell"@,
        r.display_server matches Some(d) && d@ == "DWM"@,
        r.macos_codename is None,
        r.architecture == p.architecture,
{
    let terminal = Some(terminal_fast(p.has_wt_session, p.term_program_vscode));
    if mode == CollectMode::Fast {
        return PlatformInfo {
            architecture: p.architecture,
            desktop_environment: Some("Windows Shell".to_owned()),
            display_server: Some("DWM".to_owned()),
            windows_edition: None,
            boot_mode: None,
            virtualization: None,
            macos_codename: None,
            gpus: Vec::new(),
            terminal,
            shell: None,
            display_resolution: None,
            battery: None,
            locale: None,
        };
    }
    let gpus = crate::text::dedup_keep_order(&p.gpus);
    let boot_mode = detect_boot_mode(p.firmware_env, p.bcdedit_out);
    let virtualization = detect_virtualization(p.manufacturer, p.model, p.hypervisor_present);
    let shell = Some(shell_label(p.shell_env, p.shell_version_line, p.powershell_version));
    let display_resolution = resolution_label(p.screen_w, p.screen_h);
    let battery = match battery_label(p.battery_charge, p.battery_status) {
        Some(b) => Some(b),
        None => p.battery_fallback,
    };
    PlatformInfo {
        windows_edition: p.edition,
        boot_mode,
        virtualization,
        desktop_environment: Some("Windows Shell".to_owned()),
        display_server: Some("DWM".to_owned()),
        macos_codename: None,
        gpus,
        architecture: p.architecture,
        terminal,
        shell,
        display_resolution,
        battery,
        locale: p.locale,
    }
}

/// The terminal name from the session variables alone (no subprocess):
/// Windows Terminal, the code editor, or the plain console.
pub fn terminal_fast(has_wt_session: bool, term_program_vscode: bool) -> (r: String)
    ensures
        has_wt_session ==> r@ == "Windows Terminal"@,
        !has_wt_session && term_program_vscode ==> r@ == "VS Code"@,
        !has_wt_session && !term_program_vscode ==> r@ == "Console"@,
{
    if has_wt_session {
        "Windows Terminal".to_owned()
    } else if term_program_vscode {
        "VS Code".to_owned()
    } else {
        "Console".to_owned()
    }
}

/// What the firmware-type environment value decides.
pub open spec fn spec_firmware_boot(f: Seq<char>) -> Option<Seq<char>> {
    let low = spec_ascii_lower(f);
    if spec_contains(low, "uefi"@) {
        Some("UEFI"@)
    } else if spec_contains(low, "legacy"@) || spec_contains(low, "bios"@) {
        Some("Legacy BIOS"@)
    } else {
        None
    }
}

/// The boot mode the probes imply: the firmware-type value's decision,
/// else the boot-configuration listing's loader name, else absence.
pub open spec fn spec_windows_boot(firmware_env: Option<String>, bcdedit_out: Option<String>) -> Option<
    Seq<char>,
> {
    let env_hit = match firmware_env {
        Some(f) => spec_firmware_boot(f@),
        None => None,
    };
    match env_hit {
        Some(name) => Some(name),
        None => match bcdedit_out {
            Some(b) => if spec_contains(spec_ascii_lower(b@), "winload.efi"@) {
                Some("UEFI"@)
            } else {
                Some("Legacy BIOS"@)
            },
            None => None,
        },
    }
}

/// The boot mode: decided by the firmware-type environment value, else
/// by whether the boot-configuration listing names the UEFI loader;
/// with neither probe, the field is absent.
pub fn detect_boot_mode(firmware_env: Option<String>, bcdedit_out: Option<String>) -> (r: Option<
    String,
>)
    ensures
        crate::text::opt_view(r) == spec_windows_boot(firmware_env, bcdedit_out),
{
    let env_hit: Option<String> = match &firmware_env {
        Some(f) => {
            let low = ascii_lower(f.as_str());
            if contains_str(low.as_str(), "uefi") {
                Some("UEFI".to_owned())
            } else if contains_str(low.as_str(), "legacy") || contains_str(low.as_str(), "bios") {
                Some("Legacy BIOS".to_owned())
            } else {
                None
            }
        },
        None => None,
    };
    match env_hit {
        Some(v) => Some(v),
        None => {
            match &bcdedit_out {
                Some(b) => {
                    let low = ascii_lower(b.as_str());
                    if contains_str(low.as_str(), "winload.efi") {
                        Some("UEFI".to_owned())
                    } else {
                        Some("Legacy BIOS".to_owned())
                    }
                },
                None => None,
            }
        },
    }
}

/// The hypervisor label the hardware identification strings imply.
pub open spec fn spec_strings_virt(info: Seq<char>) -> Option<Seq<char>> {
    if spec_contains(info, "vmware"@) {
        Some("VMware"@)
    } else if spec_contains(info, "virtualbox"@) || spec_contains(info, "vbox"@) {
        Some("VirtualBox"@)
    } else if spec_contains(info, "microsoft"@) && spec_contains(info, "virtual"@) {
        Some("Hyper-V"@)
    } else if spec_contains(info, "qemu"@) {
        Some("QEMU"@)
    } else if spec_contains(info, "xen"@) {
        Some("Xen"@)
    } else if spec_contains(info, "parallels"@) {
        Some("Parallels"@)
    } else {
        None
    }
}

/// The manufacturer and model joined for matching, lowered.
pub open spec fn spec_virt_info(manufacturer: Option<String>, model: Option<String>) -> Seq<char> {
    spec_ascii_lower(
        (match manufacturer {
            Some(m) => m@,
            None => Seq::empty(),
        }) + "|"@ + (match model {
            Some(m) => m@,
            None => Seq::empty(),
        }),
    )
}

/// The hypervisor fact the probes imply: the identification strings'
/// label, else a reported hypervisor presence, else absence.
pub open spec fn spec_windows_virt(
    manufacturer: Option<String>,
    model: Option<String>,
    hypervisor_present: Option<bool>,
) -> Option<Seq<char>> {
    match spec_strings_virt(spec_virt_info(manufacturer, model)) {
        Some(name) => Some(name),
        None => if hypervisor_present == Some(true) {
            Some("Hypervisor Present"@)
        } else {
            None
        },
    }
}

/// Detect virtualization from the hardware identification strings; when
/// they name no hypervisor, a reported hypervisor-present flag still
/// counts; with nothing, the field is absent.
pub fn detect_virtualization(
    manufacturer: Option<String>,
    model: Option<String>,
    hypervisor_present: Option<bool>,
) -> (r: Option<String>)
    ensures
        crate::text::opt_view(r) == spec_windows_virt(manufacturer, model, hypervisor_present),
{
    let mut info = String::new();
    match &manufacturer {
        Some(m) => info.append(m.as_str()),
        None => {},
    }
    info.append("|");
    match &model {
        Some(m) => info.append(m.as_str()),
        None => {},
    }
    let low = ascii_lower(info.as_str());
    proof {
        assert(info@ =~= (match manufacturer {
            Some(m) => m@,
            None => Seq::<char>::empty(),
        }) + "|"@ + (match model {
            Some(m) => m@,
            None => Seq::<char>::empty(),
        }));
    }
    if contains_str(low.as_str(), "vmware") {
        return Some("VMware".to_owned());
    }
    if contains_str(low.as_str(), "virtualbox") || contains_str(low.as_str(), "vbox") {
        return Some("VirtualBox".to_owned());
    }
    if contains_str(low.as_str(), "microsoft") && contains_str(low.as_str(), "virtual") {
        return Some("Hyper-V".to_owned());
    }
    if contains_str(low.as_str(), "qemu") {
        return Some("QEMU".to_owned());
    }
    if contains_str(low.as_str(), "xen") {
        return Some("Xen".to_owned());
    }
    if contains_str(low.as_str(), "parallels") {
        return Some("Parallels".to_owned());
    }
    match hypervisor_present {
        Some(true) => Some("Hypervisor Present".to_owned()),
        _ => None,
    }
}

/// The status word for a battery status code.
pub open spec fn spec_battery_status(code: nat) -> Seq<char> {
    if code == 1 {
        "Discharging"@
    } else if code == 2 {
        "AC Power"@
    } else if code == 3 || code == 6 {
        "Charging"@
    } else if code == 4 {
        "Low"@
    } else if code == 5 {
        "Critical"@
    } else if code == 7 {
        "Charging High"@
    } else if code == 8 {
        "Charging Low"@
    } else if code == 9 {
        "Charging Critical"@
    } else {
        "Unknown"@
    }
}

/// The battery text the management-interface values imply: the charge
/// with the decoded status word; absent without a charge reading.
pub open spec fn spec_battery_label(charge: Option<u64>, status_code: Option<u64>) -> Option<
    Seq<char>,
> {
    match charge {
        Some(c) => Some(
            spec_dec(c as nat) + "% ("@ + spec_battery_status(
                match status_code {
                    Some(s) => s as nat,
                    None => 0,
                },
            ) + ")"@,
        ),
        None => None,
    }
}

/// The battery field from the management-interface values: the charge
/// with the decoded status (`"85% (Charging)"`); absent without a
/// charge reading, and a missing status code decodes as unknown.
pub fn battery_label(charge: Option<u64>, status_code: Option<u64>) -> (r: Option<String>)
    ensures
        crate::text::opt_view(r) == spec_battery_label(charge, status_code),
{
    let c = match charge {
        Some(c) => c,
        None => {
            return None;
        },
    };
    let code: u64 = match status_code {
        Some(s) => s,
        None => 0,
    };
    let mut r = u64_to_string(c);
    r.append("% (");
    if code == 1 {
        r.append("Discharging");
    } else if code == 2 {
        r.append("AC Power");
    } else if code == 3 || code == 6 {
        r.append("Charging");
    } else if code == 4 {
        r.append("Low");
    } else if code == 5 {
        r.append("Critical");
    } else if code == 7 {
        r.append("Charging High");
    } else if code == 8 {
        r.append("Charging Low");
    } else if code == 9 {
        r.append("Charging Critical");
    } else {
        r.append("Unknown");
    }
    r.append(")");
    Some(r)
}

/// The resolution text the native metrics imply: `"WxH"` when both
/// measures are positive.
pub open spec fn spec_resolution_label(w: Option<u64>, h: Option<u64>) -> Option<Seq<char>> {
    match (w, h) {
        (Some(cw), Some(ch)) => if cw > 0 && ch > 0 {
            Some(spec_dec(cw as nat) + "x"@ + spec_dec(ch as nat))
        } else {
            None
        },
        _ => None,
    }
}

/// The resolution text `"WxH"` from the native metrics, when both are
/// positive.
pub fn resolution_label(w: Option<u64>, h: Option<u64>) -> (r: Option<String>)
    ensures
        crate::text::opt_view(r) == spec_resolution_label(w, h),
{
    match (w, h) {
        (Some(cw), Some(ch)) => {
            if cw > 0 && ch > 0 {
                let mut r = u64_to_string(cw);
                r.append("x");
                let hs = u64_to_string(ch);
                r.append(hs.as_str());
                Some(r)
            } else {
                None
            }
        },
        _ => None,
    }
}

/// The GPU name a shell-fallback listing line contributes: the line
/// itself, trimmed, when anything is left.
pub open spec fn gpu_line_cand(l: Seq<char>) -> Option<Seq<char>> {
    if spec_trim(l).len() > 0 {
        Some(spec_trim(l))
    } else {
        None
    }
}

/// The GPU names in the shell fallback's one-per-line output, in order.
pub fn gpus_from_lines(text: &str) -> (out: Vec<String>)
    ensures
        crate::text::views_of(out@) == crate::text::collect_somes(
            spec_split(text@, '\n').map_values(|l: Seq<char>| gpu_line_cand(l)),
        ),
{
    let lines = split_on(text, '\n');
    let ghost goal = spec_split(text@, '\n').map_values(|l: Seq<char>| gpu_line_cand(l));
    let mut out: Vec<String> = Vec::new();
    let mut i: usize = 0;
    proof {
        assert(crate::text::views_of(out@) =~= crate::text::collect_somes(goal.take(0)));
    }
    while i < lines.len()
        invariant
            crate::text::views_of(lines@) == spec_split(text@, '\n'),
            goal == spec_split(text@, '\n').map_values(|l: Seq<char>| gpu_line_cand(l)),
            i <= lines@.len(),
            crate::text::views_of(out@) == crate::text::collect_somes(goal.take(i as int)),
        decreases lines@.len() - i,
    {
        proof {
            assert(crate::text::views_of(lines@)[i as int] == lines@[i as int]@);
            assert(goal[i as int] == gpu_line_cand(lines@[i as int]@));
            assert(goal.take(i + 1).drop_last() =~= goal.take(i as int));
            assert(goal.take(i + 1).last() == goal[i as int]);
        }
        let line: &String = &lines[i];
        let t = trim_str(line.as_str());
        if t.as_str().unicode_len() > 0 {
            proof {
                assert(crate::text::views_of(out@.push(t)) =~= crate::text::views_of(out@).push(
                    t@,
                ));
                assert(crate::text::collect_somes(goal.take(i as int)).push(t@)
                    =~= crate::text::collect_somes(goal.take(i as int)) + seq![t@]);
            }
            out.push(t);
        }
        i = i + 1;
    }
    proof {
        assert(goal.take(lines@.len() as int) =~= goal);
    }
    out
}

/// The battery text from the shell fallback's output: the trimmed
/// value, when it carries a percentage, with a trailing status code in
/// parentheses decoded into its status word.
pub open spec fn spec_battery_from_ps(text: Seq<char>) -> Option<Seq<char>> {
    let t = spec_trim(text);
    if t.len() == 0 || !spec_contains(t, "%"@) {
        None
    } else {
        Some(
            if spec_ends_with_code(t) {
                t.take(t.len() - 3) + "("@ + spec_battery_status(
                    crate::text::digit_val(t[t.len() - 2]),
                ) + ")"@
            } else {
                t
            },
        )
    }
}

/// Whether the text ends with a one-digit status code in parentheses.
pub open spec fn spec_ends_with_code(t: Seq<char>) -> bool {
    t.len() >= 3 && t[t.len() - 3] == '(' && crate::text::is_digit(t[t.len() - 2]) && t[t.len()
        - 1] == ')' && 1 <= crate::text::digit_val(t[t.len() - 2]) <= 9
}

/// Decode the shell fallback's battery output: absent when empty or
/// without a percentage; a trailing status code becomes its word.
pub fn battery_from_ps(text: &str) -> (r: Option<String>)
    ensures
        match r {
            Some(v) => spec_battery_from_ps(text@) == Some(v@),
            None => spec_battery_from_ps(text@) is None,
        },
{
    let t = trim_str(text);
    let n = t.as_str().unicode_len();
    if n == 0 || !contains_str(t.as_str(), "%") {
        return None;
    }
    if n >= 3 {
        let open = t.as_str().get_char(n - 3);
        let digit = t.as_str().get_char(n - 2);
        let close = t.as_str().get_char(n - 1);
        let code = digit as u32;
        if open == '(' && close == ')' && 49 <= code && code <= 57 {
            let mut r = t.as_str().substring_char(0, n - 3).to_owned();
            r.append("(");
            let word: &str = match code - 48 {
                1 => "Discharging",
                2 => "AC Power",
                3 => "Charging",
                4 => "Low",
                5 => "Critical",
                6 => "Charging",
                7 => "Charging High",
                8 => "Charging Low",
                _ => "Charging Critical",
            };
            r.append(word);
            r.append(")");
            proof {
                assert(t@.subrange(0, n - 3) =~= t@.take(n - 3));
                reveal_strlit("Discharging");
                reveal_strlit("AC Power");
                reveal_strlit("Charging");
                reveal_strlit("Low");
                reveal_strlit("Critical");
                reveal_strlit("Charging High");
                reveal_strlit("Charging Low");
                reveal_strlit("Charging Critical");
                assert(r@ =~= spec_battery_from_ps(text@).unwrap());
            }
            return Some(r);
        }
    }
    Some(t)
}

/// The shell text the probes imply: an alternative shell named by the
/// environment keeps its name (with the probed version); else
/// PowerShell, with the engine version when the registry listing gave
/// one.
pub open spec fn spec_windows_shell(
    shell_env: Option<String>,
    shell_version_line: Option<String>,
    powershell_version: Option<String>,
) -> Seq<char> {
    let bash = match shell_env {
        Some(s) => spec_contains(s@, "bash"@),
        None => false,
    };
    if bash {
        match shell_version_line {
            Some(l) => match crate::collectors::platform::spec_version_token(l@) {
                Some(ver) => "bash "@ + ver,
                None => "bash"@,
            },
            None => "bash"@,
        }
    } else {
        match powershell_version {
            Some(v) => "PowerShell "@ + v@,
            None => "PowerShell"@,
        }
    }
}

/// The shell label: an alternative shell named by the environment keeps
/// its name (with the version when one was probed); else PowerShell,
/// with the engine version when the registry listing gave one.
pub fn shell_label(
    shell_env: Option<String>,
    shell_version_line: Option<String>,
    powershell_version: Option<String>,
) -> (r: String)
    ensures
        r@ == spec_windows_shell(shell_env, shell_version_line, powershell_version),
{
    let is_bash = match &shell_env {
        Some(s) => contains_str(s.as_str(), "bash"),
        None => false,
    };
    if is_bash {
        let probed: Option<String> = match &shell_version_line {
            Some(l) => crate::collectors::platform::version_token(l.as_str()),
            None => None,
        };
        match probed {
            Some(v) => {
                let mut r = "bash ".to_owned();
                r.append(v.as_str());
                r
            },
            None => "bash".to_owned(),
        }
    } else {
        match powershell_version {
            Some(v) => {
                let mut r = "PowerShell ".to_owned();
                r.append(v.as_str());
                r
            },
            None => "PowerShell".to_owned(),
        }
    }
}

} // verus!
