//! Linux-specific information collectors.
//!
//! Linux probes are mostly cheap (environment values, kernel files), so
//! fast mode only skips the subprocess-backed facts: boot mode, the GPU
//! listing and the display resolution.

use vstd::prelude::*;
use vstd::string::*;
use crate::collectors::CollectMode;
use crate::collectors::platform::{locale_from_lang, shell_from_parts, PlatformInfo};
use crate::text::{
    collect_somes, is_digit, matches_at, lemma_spec_find, lemma_spec_find_none, spec_ascii_lower,
    spec_contains, spec_find, spec_split, spec_starts_with, spec_trim, spec_tokens, ascii_lower,
    contains_str, find_str, split_on, starts_with_str, str_eq, tokens, trim_str, views_of,
};

verus! {

/// The raw probe inputs of the Linux implementation: environment
/// values, kernel-file contents and command output, each absent when
/// unavailable (or not probed).
pub struct LinuxProbes {
    /// The `XDG_CURRENT_DESKTOP` value.
    pub xdg_current_desktop: Option<String>,
    /// The `DESKTOP_SESSION` value.
    pub desktop_session: Option<String>,
    /// Whether a GNOME session variable is present.
    pub has_gnome_session: bool,
    /// Whether a KDE session variable is present.
    pub has_kde_session: bool,
    /// The `XDG_SESSION_TYPE` value.
    pub xdg_session_type: Option<String>,
    /// Whether a Wayland display variable is present.
    pub has_wayland_display: bool,
    /// Whether an X11 display variable is present.
    pub has_x11_display: bool,
    /// Whether the firmware interface directory exists (UEFI boot).
    pub has_efi_dir: bool,
    /// The hardware product name published by the kernel.
    pub dmi_product: Option<String>,
    /// The processor-table text published by the kernel.
    pub cpuinfo: Option<String>,
    /// Output of the PCI-listing probe.
    pub lspci_out: Option<String>,
    /// Graphics device nodes: name and whether a vendor entry exists.
    pub drm_cards: Vec<(String, bool)>,
    /// The running binary's architecture.
    pub architecture: Option<String>,
    /// The `TERM_PROGRAM` value.
    pub term_program: Option<String>,
    /// The `TERMINAL` value.
    pub terminal_var: Option<String>,
    /// The parent process command name, when the probe found one.
    pub parent_comm: Option<String>,
    /// The `TERM` value.
    pub term: Option<String>,
    /// The `SHELL` value.
    pub shell_path: Option<String>,
    /// First line of the shell's version output, when probed.
    pub shell_version_line: Option<String>,
    /// Output of the display-listing probe for X11.
    pub xrandr_out: Option<String>,
    /// Output of the display-listing probe for Wayland.
    pub wlr_out: Option<String>,
    /// The battery capacity file's content.
    pub battery_capacity: Option<String>,
    /// The battery status file's content.
    pub battery_status: Option<String>,
    /// The `LANG` value.
    pub lang: Option<String>,
    /// Output of the locale-listing probe.
    pub locale_out: Option<String>,
}

/// The GPU list the probes imply: the PCI listing's display devices,
/// else the graphics device nodes, de-duplicated first-seen-wins.
pub open spec fn spec_linux_gpus(lspci_out: Option<String>, drm_cards: Seq<(String, bool)>) -> Seq<
    Seq<char>,
> {
    let pci = match lspci_out {
        Some(t) => collect_somes(
            spec_split(t@, '\n').map_values(|l: Seq<char>| spec_lspci_line_gpu(l)),
        ),
        None => Seq::<Seq<char>>::empty(),
    };
    let listed = if pci.len() == 0 {
        collect_somes(drm_cards.map_values(|c: (String, bool)| spec_drm_card_gpu(c)))
    } else {
        pci
    };
    crate::text::spec_dedup(listed, Seq::<Seq<char>>::empty())
}

/// The display resolution the probes imply: the X11 listing's first
/// offer, else the Wayland listing's.
pub open spec fn spec_linux_resolution(xrandr_out: Option<String>, wlr_out: Option<String>) -> Option<
    Seq<char>,
> {
    let from_x = match xrandr_out {
        Some(t) => spec_xrandr_resolution(spec_split(t@, '\n'), 0),
        None => None,
    };
    match from_x {
        Some(res) => Some(res),
        None => match wlr_out {
            Some(t) => spec_wlr_resolution(spec_split(t@, '\n'), 0),
            None => None,
        },
    }
}

/// Collect Linux-specific information. In fast mode the boot-mode, GPU
/// and display-resolution probes are skipped and those fields are
/// absent, whatever the caller passed for them; in full mode every
/// field equals its probe derivation.
pub fn collect(mode: CollectMode, p: LinuxProbes) -> (r: PlatformInfo)
    ensures
        mode == CollectMode::Fast ==> r.boot_mode is None && r.gpus@.len() == 0
            && r.display_resolution is None,
        mode == CollectMode::Full ==> (r.boot_mode matches Some(b) && b@ == (if p.has_efi_dir {
            "UEFI"@
        } else {
            "Legacy BIOS"@
        })),
        mode == CollectMode::Full ==> views_of(r.gpus@) == spec_linux_gpus(
            p.lspci_out,
            p.drm_cards@,
        ),
        mode == CollectMode::Full ==> crate::text::opt_view(r.display_resolution)
            == spec_linux_resolution(p.xrandr_out, p.wlr_out),
        crate::text::opt_view(r.desktop_environment) == spec_desktop_environment(
            p.xdg_current_desktop,
            p.desktop_session,
            p.has_gnome_session,
            p.has_kde_session,
        ),
        crate::text::opt_view(r.display_server) == spec_display_server(
            p.xdg_session_type,
            p.has_wayland_display,
            p.has_x11_display,
        ),
        crate::text::opt_view(r.virtualization) == spec_linux_virt(p.dmi_product, p.cpuinfo),
        crate::text::opt_view(r.terminal) == spec_linux_terminal(
            p.term_program,
            p.terminal_var,
            p.parent_comm,
            p.term,
        ),
        crate::text::opt_view(r.shell) == crate::collectors::platform::spec_shell_label(
            p.shell_path,
            p.shell_version_line,
        ),
        crate::text::opt_view(r.battery) == spec_battery_sysfs(
            p.battery_capacity,
            p.battery_status,
        ),
        crate::text::opt_view(r.locale) == spec_linux_locale(p.lang, p.locale_out),
        r.windows_edition is None,
        r.macos_codename is None,
        r.architecture == p.architecture,
{
    let desktop_environment = desktop_environment_from_env(
        p.xdg_current_desktop,
        p.desktop_session,
        p.has_gnome_session,
        p.has_kde_session,
    );
    let display_server = display_server_from_env(
        p.xdg_session_type,
        p.has_wayland_display,
        p.has_x11_display,
    );
    let boot_mode: Option<String> = if mode == CollectMode::Fast {
        None
    } else {
        Some(detect_boot_mode(p.has_efi_dir))
    };
    let virtualization = detect_virtualization(p.dmi_product, p.cpuinfo);
    let gpus: Vec<String> = if mode == CollectMode::Fast {
        Vec::new()
    } else {
        let from_pci = match &p.lspci_out {
            Some(t) => gpus_from_lspci(t.as_str()),
            None => Vec::new(),
        };
        let listed = if from_pci.len() == 0 {
            gpus_from_drm(&p.drm_cards)
        } else {
            from_pci
        };
        crate::text::dedup_keep_order(&listed)
    };
    let terminal = terminal_from_probes(p.term_program, p.terminal_var, p.parent_comm, p.term);
    let shell = shell_from_parts(p.shell_path, p.shell_version_line);
    let display_resolution: Option<String> = if mode == CollectMode::Fast {
        None
    } else {
        let from_x = match &p.xrandr_out {
            Some(t) => resolution_from_xrandr(t.as_str()),
            None => None,
        };
        match from_x {
            Some(res) => Some(res),
            None => match &p.wlr_out {
                Some(t) => resolution_from_wlr(t.as_str()),
                None => None,
            },
        }
    };
    let battery = battery_from_sysfs(p.battery_capacity, p.battery_status);
    let locale = locale_from_probes(p.lang, p.locale_out);
    PlatformInfo {
        desktop_environment,
        display_server,
        windows_edition: None,
        macos_codename: None,
        boot_mode,
        virtualization,
        gpus,
        architecture: p.architecture,
        terminal,
        shell,
        display_resolution,
        battery,
        locale,
    }
}

/// The desktop environment the session variables imply: the first of
/// the two variables, else the GNOME or KDE marker.
pub open spec fn spec_desktop_environment(
    xdg_current_desktop: Option<String>,
    desktop_session: Option<String>,
    has_gnome_session: bool,
    has_kde_session: bool,
) -> Option<Seq<char>> {
    match xdg_current_desktop {
        Some(de) => Some(de@),
        None => match desktop_session {
            Some(s) => Some(s@),
            None => if has_gnome_session {
                Some("GNOME"@)
            } else if has_kde_session {
                Some("KDE"@)
            } else {
                None
            },
        },
    }
}

/// The desktop environment, from the session variables in order, then
/// the GNOME/KDE markers.
pub fn desktop_environment_from_env(
    xdg_current_desktop: Option<String>,
    desktop_session: Option<String>,
    has_gnome_session: bool,
    has_kde_session: bool,
) -> (r: Option<String>)
    ensures
        crate::text::opt_view(r) == spec_desktop_environment(
            xdg_current_desktop,
            desktop_session,
            has_gnome_session,
            has_kde_session,
        ),
{
    match xdg_current_desktop {
        Some(de) => Some(de),
        None => match desktop_session {
            Some(s) => Some(s),
            None => {
                if has_gnome_session {
                    Some("GNOME".to_owned())
                } else if has_kde_session {
                    Some("KDE".to_owned())
                } else {
                    None
                }
            },
        },
    }
}

/// The display server the session variables imply: the session-type
/// value, else the Wayland or X11 display markers.
pub open spec fn spec_display_server(
    xdg_session_type: Option<String>,
    has_wayland_display: bool,
    has_x11_display: bool,
) -> Option<Seq<char>> {
    match xdg_session_type {
        Some(st) => Some(st@),
        None => if has_wayland_display {
            Some("wayland"@)
        } else if has_x11_display {
            Some("x11"@)
        } else {
            None
        },
    }
}

/// The display server: the session-type value, else the Wayland or X11
/// display markers.
pub fn display_server_from_env(
    xdg_session_type: Option<String>,
    has_wayland_display: bool,
    has_x11_display: bool,
) -> (r: Option<String>)
    ensures
        crate::text::opt_view(r) == spec_display_server(
            xdg_session_type,
            has_wayland_display,
            has_x11_display,
        ),
{
    match xdg_session_type {
        Some(t) => Some(t),
        None => {
            if has_wayland_display {
                Some("wayland".to_owned())
            } else if has_x11_display {
                Some("x11".to_owned())
            } else {
                None
            }
        },
    }
}

/// The boot-mode label for the firmware-directory check.
pub fn detect_boot_mode(has_efi_dir: bool) -> (r: String)
    ensures
        has_efi_dir ==> r@ == "UEFI"@,
        !has_efi_dir ==> r@ == "Legacy BIOS"@,
{
    if has_efi_dir {
        "UEFI".to_owned()
    } else {
        "Legacy BIOS".to_owned()
    }
}

/// The hypervisor label a hardware product name implies.
pub open spec fn spec_product_virt(prod: Seq<char>) -> Option<Seq<char>> {
    let p = spec_ascii_lower(spec_trim(prod));
    if spec_contains(p, "virtualbox"@) {
        Some("VirtualBox"@)
    } else if spec_contains(p, "vmware"@) {
        Some("VMware"@)
    } else if spec_contains(p, "qemu"@) || spec_contains(p, "kvm"@) {
        Some("QEMU/KVM"@)
    } else if spec_contains(p, "hyper-v"@) {
        Some("Hyper-V"@)
    } else {
        None
    }
}

/// The hypervisor fact the kernel files imply: the product name's
/// label, else the processor table's hypervisor flag, else absence.
pub open spec fn spec_linux_virt(dmi_product: Option<String>, cpuinfo: Option<String>) -> Option<
    Seq<char>,
> {
    let prod_hit = match dmi_product {
        Some(t) => spec_product_virt(t@),
        None => None,
    };
    match prod_hit {
        Some(name) => Some(name),
        None => {
            let cpu_hit = match cpuinfo {
                Some(c) => spec_contains(c@, "hypervisor"@),
                None => false,
            };
            if cpu_hit {
                Some("Virtual Machine"@)
            } else {
                None
            }
        },
    }
}

/// Detect virtualization: the hardware product name names the
/// hypervisor; failing that, a hypervisor flag in the processor table
/// means some virtual machine; with neither, the field is absent.
pub fn detect_virtualization(dmi_product: Option<String>, cpuinfo: Option<String>) -> (r: Option<
    String,
>)
    ensures
        crate::text::opt_view(r) == spec_linux_virt(dmi_product, cpuinfo),
{
    let prod_hit: Option<String> = match &dmi_product {
        Some(t) => {
            let trimmed = trim_str(t.as_str());
            let p = ascii_lower(trimmed.as_str());
            if contains_str(p.as_str(), "virtualbox") {
                Some("VirtualBox".to_owned())
            } else if contains_str(p.as_str(), "vmware") {
                Some("VMware".to_owned())
            } else if contains_str(p.as_str(), "qemu") || contains_str(p.as_str(), "kvm") {
                Some("QEMU/KVM".to_owned())
            } else if contains_str(p.as_str(), "hyper-v") {
                Some("Hyper-V".to_owned())
            } else {
                None
            }
        },
        None => None,
    };
    match prod_hit {
        Some(v) => Some(v),
        None => {
            match &cpuinfo {
                Some(c) => {
                    if contains_str(c.as_str(), "hypervisor") {
                        Some("Virtual Machine".to_owned())
                    } else {
                        None
                    }
                },
                None => None,
            }
        },
    }
}

/// The GPU name a PCI-listing line contributes: for a display-class
/// line, the trimmed text after the first `": "`, when non-empty.
pub open spec fn spec_lspci_line_gpu(l: Seq<char>) -> Option<Seq<char>> {
    let low = spec_ascii_lower(l);
    if spec_contains(low, "vga"@) || spec_contains(low, "3d controller"@) || spec_contains(
        low,
        "display"@,
    ) {
        let at = spec_find(l, ": "@);
        if at >= 0 {
            let cand = spec_trim(l.skip(at + 2));
            if cand.len() > 0 {
                Some(cand)
            } else {
                None
            }
        } else {
            None
        }
    } else {
        None
    }
}

/// The GPU names in PCI-listing output, in listing order.
pub fn gpus_from_lspci(text: &str) -> (out: Vec<String>)
    ensures
        views_of(out@) == collect_somes(
            spec_split(text@, '\n').map_values(|l: Seq<char>| spec_lspci_line_gpu(l)),
        ),
{
    let lines = split_on(text, '\n');
    let ghost goal = spec_split(text@, '\n').map_values(|l: Seq<char>| spec_lspci_line_gpu(l));
    let mut out: Vec<String> = Vec::new();
    let mut i: usize = 0;
    proof {
        assert(views_of(out@) =~= collect_somes(goal.take(0)));
    }
    while i < lines.len()
        invariant
            views_of(lines@) == spec_split(text@, '\n'),
            goal == spec_split(text@, '\n').map_values(|l: Seq<char>| spec_lspci_line_gpu(l)),
            i <= lines@.len(),
            views_of(out@) == collect_somes(goal.take(i as int)),
        decreases lines@.len() - i,
    {
        proof {
            assert(views_of(lines@)[i as int] == lines@[i as int]@);
            assert(goal[i as int] == spec_lspci_line_gpu(lines@[i as int]@));
            assert(goal.take(i + 1).drop_last() =~= goal.take(i as int));
            assert(goal.take(i + 1).last() == goal[i as int]);
        }
        let line: &String = &lines[i];
        let n = line.as_str().unicode_len();
        let low = ascii_lower(line.as_str());
        let cand: Option<String> = if contains_str(low.as_str(), "vga") || contains_str(
            low.as_str(),
            "3d controller",
        ) || contains_str(low.as_str(), "display") {
            match find_str(line.as_str(), ": ") {
                Some(at) => {
                    proof {
                        reveal_strlit(": ");
                        lemma_spec_find(line@, ": "@, at as int);
                        assert(line@.subrange(at + 2, n as int) =~= line@.skip(at + 2));
                    }
                    let tail = line.as_str().substring_char(at + 2, n);
                    let cand0 = trim_str(tail);
                    if cand0.as_str().unicode_len() > 0 {
                        Some(cand0)
                    } else {
                        None
                    }
                },
                None => {
                    proof {
                        lemma_spec_find_none(line@, ": "@);
                    }
                    None
                },
            }
        } else {
            None
        };
        match cand {
            Some(g) => {
                proof {
                    assert(views_of(out@.push(g)) =~= views_of(out@).push(g@));
                    assert(collect_somes(goal.take(i as int)).push(g@) =~= collect_somes(
                        goal.take(i as int),
                    ) + seq![g@]);
                }
                out.push(g);
            },
            None => {},
        }
        i = i + 1;
    }
    proof {
        assert(goal.take(lines@.len() as int) =~= goal);
    }
    out
}

/// The GPU label a graphics device node contributes: nodes named like
/// cards, without an instance dash, that carry a vendor entry.
pub open spec fn spec_drm_card_gpu(c: (String, bool)) -> Option<Seq<char>> {
    if spec_starts_with(c.0@, "card"@) && !spec_contains(c.0@, "-"@) && c.1 {
        Some("GPU "@ + c.0@)
    } else {
        None
    }
}

/// The fallback GPU labels from the graphics device nodes.
pub fn gpus_from_drm(cards: &Vec<(String, bool)>) -> (out: Vec<String>)
    ensures
        views_of(out@) == collect_somes(
            cards@.map_values(|c: (String, bool)| spec_drm_card_gpu(c)),
        ),
{
    let ghost goal = cards@.map_values(|c: (String, bool)| spec_drm_card_gpu(c));
    let mut out: Vec<String> = Vec::new();
    let mut i: usize = 0;
    proof {
        assert(views_of(out@) =~= collect_somes(goal.take(0)));
    }
    while i < cards.len()
        invariant
            goal == cards@.map_values(|c: (String, bool)| spec_drm_card_gpu(c)),
            i <= cards@.len(),
            views_of(out@) == collect_somes(goal.take(i as int)),
        decreases cards@.len() - i,
    {
        proof {
            assert(goal[i as int] == spec_drm_card_gpu(cards@[i as int]));
            assert(goal.take(i + 1).drop_last() =~= goal.take(i as int));
            assert(goal.take(i + 1).last() == goal[i as int]);
        }
        let card: &(String, bool) = &cards[i];
        if starts_with_str(card.0.as_str(), "card") && !contains_str(card.0.as_str(), "-")
            && card.1 {
            let mut g = "GPU ".to_owned();
            g.append(card.0.as_str());
            proof {
                assert(views_of(out@.push(g)) =~= views_of(out@).push(g@));
                assert(collect_somes(goal.take(i as int)).push(g@) =~= collect_somes(
                    goal.take(i as int),
                ) + seq![g@]);
            }
            out.push(g);
        }
        i = i + 1;
    }
    proof {
        assert(goal.take(cards@.len() as int) =~= goal);
    }
    out
}

/// The terminal name a parent-process command implies: the well-known
/// emulators get their display names, any other non-empty command
/// stands for itself, and an empty one decides nothing.
pub open spec fn spec_parent_terminal(p: Seq<char>) -> Option<Seq<char>> {
    if p == "gnome-terminal"@ || p == "gnome-terminal-"@ {
        Some("GNOME Terminal"@)
    } else if p == "konsole"@ {
        Some("Konsole"@)
    } else if p == "xterm"@ {
        Some("xterm"@)
    } else if p == "alacritty"@ {
        Some("Alacritty"@)
    } else if p == "kitty"@ {
        Some("kitty"@)
    } else if p == "tilix"@ {
        Some("Tilix"@)
    } else if p == "terminator"@ {
        Some("Terminator"@)
    } else if p.len() > 0 {
        Some(p)
    } else {
        None
    }
}

/// The terminal fact the probes imply: the terminal variables in
/// order, else the parent process's display name, else the plain `TERM`
/// value.
pub open spec fn spec_linux_terminal(
    term_program: Option<String>,
    terminal_var: Option<String>,
    parent_comm: Option<String>,
    term: Option<String>,
) -> Option<Seq<char>> {
    match term_program {
        Some(tp) => Some(tp@),
        None => match terminal_var {
            Some(tv) => Some(tv@),
            None => {
                let ph = match parent_comm {
                    Some(pc) => spec_parent_terminal(pc@),
                    None => None,
                };
                match ph {
                    Some(v) => Some(v),
                    None => crate::text::opt_view(term),
                }
            },
        },
    }
}

/// The terminal emulator name, from the terminal variables in order,
/// then the parent process, then the plain `TERM` value.
pub fn terminal_from_probes(
    term_program: Option<String>,
    terminal_var: Option<String>,
    parent_comm: Option<String>,
    term: Option<String>,
) -> (r: Option<String>)
    ensures
        crate::text::opt_view(r) == spec_linux_terminal(term_program, terminal_var, parent_comm, term),
{
    match term_program {
        Some(tp) => Some(tp),
        None => match terminal_var {
            Some(tv) => Some(tv),
            None => {
                let ph: Option<String> = match parent_comm {
                    Some(pc) => {
                        if str_eq(pc.as_str(), "gnome-terminal") || str_eq(
                            pc.as_str(),
                            "gnome-terminal-",
                        ) {
                            Some("GNOME Terminal".to_owned())
                        } else if str_eq(pc.as_str(), "konsole") {
                            Some("Konsole".to_owned())
                        } else if str_eq(pc.as_str(), "xterm") {
                            Some("xterm".to_owned())
                        } else if str_eq(pc.as_str(), "alacritty") {
                            Some("Alacritty".to_owned())
                        } else if str_eq(pc.as_str(), "kitty") {
                            Some("kitty".to_owned())
                        } else if str_eq(pc.as_str(), "tilix") {
                            Some("Tilix".to_owned())
                        } else if str_eq(pc.as_str(), "terminator") {
                            Some("Terminator".to_owned())
                        } else if pc.as_str().unicode_len() > 0 {
                            Some(pc)
                        } else {
                            None
                        }
                    },
                    None => None,
                };
                match ph {
                    Some(v) => Some(v),
                    None => term,
                }
            },
        },
    }
}

/// Length of the leading run of digits and `x` characters.
pub open spec fn res_run(s: Seq<char>) -> nat
    decreases s.len(),
{
    if s.len() == 0 {
        0
    } else if is_digit(s[0]) || s[0] == 'x' {
        1 + res_run(s.skip(1))
    } else {
        0
    }
}

proof fn lemma_res_run_eq(s: Seq<char>, k: nat)
    requires
        k <= s.len(),
        forall|m: int| 0 <= m < k ==> is_digit(#[trigger] s[m]) || s[m] == 'x',
        k < s.len() ==> !(is_digit(s[k as int]) || s[k as int] == 'x'),
    ensures
        res_run(s) == k,
    decreases s.len(),
{
    if k == 0 {
    } else {
        assert(is_digit(s[0]) || s[0] == 'x');
        let t = s.skip(1);
        assert forall|m: int| 0 <= m < k - 1 implies is_digit(#[trigger] t[m]) || t[m] == 'x' by {
            assert(t[m] == s[m + 1]);
        }
        if k - 1 < t.len() {
            assert(t[k - 1] == s[k as int]);
        }
        lemma_res_run_eq(t, (k - 1) as nat);
    }
}

/// The resolution a token spells: its leading digits-and-`x` run, when
/// the token starts with a digit and the run carries an `x`.
pub open spec fn spec_resolution_prefix(tok: Seq<char>) -> Option<Seq<char>> {
    if tok.len() > 0 && is_digit(tok[0]) {
        let p = tok.take(res_run(tok) as int);
        if spec_contains(p, "x"@) {
            Some(p)
        } else {
            None
        }
    } else {
        None
    }
}

/// The first token of the list, from index `i` on, that spells a
/// resolution.
pub open spec fn first_res_token(toks: Seq<Seq<char>>, i: int) -> Option<Seq<char>>
    decreases toks.len() - i,
{
    if 0 <= i < toks.len() {
        match spec_resolution_prefix(toks[i]) {
            Some(p) => Some(p),
            None => first_res_token(toks, i + 1),
        }
    } else {
        None
    }
}

/// What an X11 display-listing line offers: from a line marked
/// `" connected"` that carries an `x`, the first token spelling a
/// resolution.
pub open spec fn spec_xrandr_line(l: Seq<char>) -> Option<Seq<char>> {
    if spec_contains(l, " connected"@) && spec_contains(l, "x"@) {
        first_res_token(spec_tokens(l), 0)
    } else {
        None
    }
}

/// The first X11 listing line offering a resolution, from index `i` on.
pub open spec fn spec_xrandr_resolution(lines: Seq<Seq<char>>, i: int) -> Option<Seq<char>>
    decreases lines.len() - i,
{
    if 0 <= i < lines.len() {
        match spec_xrandr_line(lines[i]) {
            Some(p) => Some(p),
            None => spec_xrandr_resolution(lines, i + 1),
        }
    } else {
        None
    }
}

/// What a Wayland display-listing line offers: from a line marked
/// `current`, the first token spelling a resolution.
pub open spec fn spec_wlr_line(l: Seq<char>) -> Option<Seq<char>> {
    if spec_contains(l, "current"@) {
        first_res_token(spec_tokens(l), 0)
    } else {
        None
    }
}

/// The first Wayland listing line offering a resolution, from index `i`
/// on.
pub open spec fn spec_wlr_resolution(lines: Seq<Seq<char>>, i: int) -> Option<Seq<char>>
    decreases lines.len() - i,
{
    if 0 <= i < lines.len() {
        match spec_wlr_line(lines[i]) {
            Some(p) => Some(p),
            None => spec_wlr_resolution(lines, i + 1),
        }
    } else {
        None
    }
}

/// The display resolution in the X11 display-listing output: from the
/// first `" connected"` line with one, the leading digits-and-`x` run
/// of the first digit-led token that carries an `x`; absent only when
/// no line offers one.
pub fn resolution_from_xrandr(text: &str) -> (r: Option<String>)
    ensures
        crate::text::opt_view(r) == spec_xrandr_resolution(spec_split(text@, '\n'), 0),
{
    let lines = split_on(text, '\n');
    let ghost lv = spec_split(text@, '\n');
    let mut i: usize = 0;
    while i < lines.len()
        invariant
            lv == views_of(lines@),
            lv == spec_split(text@, '\n'),
            i <= lines@.len(),
            spec_xrandr_resolution(lv, 0) == spec_xrandr_resolution(lv, i as int),
        decreases lines@.len() - i,
    {
        proof {
            assert(views_of(lines@)[i as int] == lines@[i as int]@);
        }
        let line: &String = &lines[i];
        if contains_str(line.as_str(), " connected") && contains_str(line.as_str(), "x") {
            match first_resolution_token(line.as_str()) {
                Some(res) => {
                    proof {
                        assert(spec_xrandr_line(lv[i as int]) == Some(res@));
                    }
                    return Some(res);
                },
                None => {},
            }
        }
        i = i + 1;
    }
    None
}

/// The display resolution in the Wayland display-listing output: from
/// the first `current` line with one, the same digits-and-`x` run;
/// absent only when no line offers one.
pub fn resolution_from_wlr(text: &str) -> (r: Option<String>)
    ensures
        crate::text::opt_view(r) == spec_wlr_resolution(spec_split(text@, '\n'), 0),
{
    let lines = split_on(text, '\n');
    let ghost lv = spec_split(text@, '\n');
    let mut i: usize = 0;
    while i < lines.len()
        invariant
            lv == views_of(lines@),
            lv == spec_split(text@, '\n'),
            i <= lines@.len(),
            spec_wlr_resolution(lv, 0) == spec_wlr_resolution(lv, i as int),
        decreases lines@.len() - i,
    {
        proof {
            assert(views_of(lines@)[i as int] == lines@[i as int]@);
        }
        let line: &String = &lines[i];
        if contains_str(line.as_str(), "current") {
            match first_resolution_token(line.as_str()) {
                Some(res) => {
                    proof {
                        assert(spec_wlr_line(lv[i as int]) == Some(res@));
                    }
                    return Some(res);
                },
                None => {},
            }
        }
        i = i + 1;
    }
    None
}

/// The first token of the line that spells a resolution.
fn first_resolution_token(line: &str) -> (r: Option<String>)
    ensures
        crate::text::opt_view(r) == first_res_token(spec_tokens(line@), 0),
{
    let toks = tokens(line);
    let ghost tv = spec_tokens(line@);
    let mut j: usize = 0;
    while j < toks.len()
        invariant
            tv == views_of(toks@),
            tv == spec_tokens(line@),
            j <= toks@.len(),
            first_res_token(tv, 0) == first_res_token(tv, j as int),
        decreases toks@.len() - j,
    {
        proof {
            assert(views_of(toks@)[j as int] == toks@[j as int]@);
        }
        let tok: &String = &toks[j];
        match resolution_prefix(tok.as_str()) {
            Some(res) => {
                proof {
                    assert(first_res_token(tv, j as int) == Some(res@));
                }
                return Some(res);
            },
            None => {},
        }
        j = j + 1;
    }
    None
}

/// The leading digits-and-`x` run of a token, when it starts with a
/// digit and an `x` occurs in the run.
fn resolution_prefix(tok: &str) -> (r: Option<String>)
    ensures
        crate::text::opt_view(r) == spec_resolution_prefix(tok@),
{
    let n = tok.unicode_len();
    if n == 0 {
        return None;
    }
    let c0 = tok.get_char(0);
    let code0 = c0 as u32;
    if !(48 <= code0 && code0 <= 57) {
        return None;
    }
    let mut j: usize = 1;
    let mut has_x = false;
    while j < n && res_char_at(tok, j)
        invariant
            n == tok@.len(),
            1 <= j <= n,
            forall|m: int| 0 <= m < j ==> is_digit(#[trigger] tok@[m]) || tok@[m] == 'x',
            is_digit(tok@[0]),
            has_x == (exists|m: int| 0 <= m < j && tok@[m] == 'x'),
        decreases n - j,
    {
        if tok.get_char(j) == 'x' {
            has_x = true;
        }
        j = j + 1;
    }
    proof {
        lemma_res_run_eq(tok@, j as nat);
        reveal_strlit("x");
    }
    let ghost p = tok@.take(j as int);
    if !has_x {
        proof {
            assert forall|at: int| !matches_at(p, "x"@, at) by {
                if 0 <= at && at + 1 <= p.len() {
                    if matches_at(p, "x"@, at) {
                        assert(p.subrange(at, at + 1)[0] == p[at]);
                        assert(p[at] == 'x');
                        assert(tok@[at] == 'x');
                    }
                }
            }
            assert(!spec_contains(p, "x"@));
        }
        return None;
    }
    let v = tok.substring_char(0, j).to_owned();
    proof {
        let m = choose|m: int| 0 <= m < j && tok@[m] == 'x';
        assert(v@[m] == 'x');
        assert(v@.subrange(m, m + 1) =~= "x"@);
        assert(matches_at(v@, "x"@, m));
        assert(v@ =~= p);
    }
    Some(v)
}

fn res_char_at(s: &str, j: usize) -> (r: bool)
    requires
        j < s@.len(),
    ensures
        r == (is_digit(s@[j as int]) || s@[j as int] == 'x'),
{
    let c = s.get_char(j);
    let code = c as u32;
    (48 <= code && code <= 57) || c == 'x'
}

/// The battery text the power-supply files imply: the trimmed capacity
/// with the trimmed status (or `"Unknown"`) in parentheses; absent
/// without a readable capacity.
pub open spec fn spec_battery_sysfs(capacity: Option<String>, status: Option<String>) -> Option<
    Seq<char>,
> {
    match capacity {
        Some(c) => Some(
            spec_trim(c@) + "% ("@ + (match status {
                Some(s) => spec_trim(s@),
                None => "Unknown"@,
            }) + ")"@,
        ),
        None => None,
    }
}

/// The battery field from the power-supply files: the trimmed capacity
/// with the trimmed status in parentheses (`"85% (Charging)"`); absent
/// without a readable capacity, and `"Unknown"` for a missing status.
pub fn battery_from_sysfs(capacity: Option<String>, status: Option<String>) -> (r: Option<String>)
    ensures
        crate::text::opt_view(r) == spec_battery_sysfs(capacity, status),
{
    match capacity {
        Some(c) => {
            let mut r = trim_str(c.as_str());
            r.append("% (");
            let st = match &status {
                Some(s) => trim_str(s.as_str()),
                None => "Unknown".to_owned(),
            };
            r.append(st.as_str());
            r.append(")");
            Some(r)
        },
        None => None,
    }
}

/// What a locale-listing line offers: for a `LANG=` line, its value up
/// to the first dot, when non-empty.
pub open spec fn spec_lang_line(l: Seq<char>) -> Option<Seq<char>> {
    if spec_starts_with(l, "LANG="@) {
        let v = spec_split(l.skip(5), '.')[0];
        if v.len() > 0 {
            Some(v)
        } else {
            None
        }
    } else {
        None
    }
}

/// The first locale-listing line offering a value, from index `i` on.
pub open spec fn spec_locale_listing(lines: Seq<Seq<char>>, i: int) -> Option<Seq<char>>
    decreases lines.len() - i,
{
    if 0 <= i < lines.len() {
        match spec_lang_line(lines[i]) {
            Some(v) => Some(v),
            None => spec_locale_listing(lines, i + 1),
        }
    } else {
        None
    }
}

/// The locale the probes imply: the `LANG` value up to its first dot,
/// else the first non-empty `LANG=` value of the locale listing.
pub open spec fn spec_linux_locale(lang: Option<String>, locale_out: Option<String>) -> Option<
    Seq<char>,
> {
    match crate::collectors::platform::spec_lang_locale(lang) {
        Some(v) => Some(v),
        None => match locale_out {
            Some(t) => spec_locale_listing(spec_split(t@, '\n'), 0),
            None => None,
        },
    }
}

/// The locale: the `LANG` value up to its first dot, else the first
/// non-empty `LANG=` value of the locale listing, likewise truncated;
/// absent only with neither.
pub fn locale_from_probes(lang: Option<String>, locale_out: Option<String>) -> (r: Option<String>)
    ensures
        crate::text::opt_view(r) == spec_linux_locale(lang, locale_out),
{
    match locale_from_lang(lang) {
        Some(v) => Some(v),
        None => {
            match &locale_out {
                Some(t) => locale_from_listing(t.as_str()),
                None => None,
            }
        },
    }
}

/// The first non-empty `LANG=` value in the locale listing, up to its
/// first dot.
fn locale_from_listing(text: &str) -> (r: Option<String>)
    ensures
        crate::text::opt_view(r) == spec_locale_listing(spec_split(text@, '\n'), 0),
{
    let lines = split_on(text, '\n');
    let ghost lv = spec_split(text@, '\n');
    let mut i: usize = 0;
    while i < lines.len()
        invariant
            lv == views_of(lines@),
            lv == spec_split(text@, '\n'),
            i <= lines@.len(),
            spec_locale_listing(lv, 0) == spec_locale_listing(lv, i as int),
        decreases lines@.len() - i,
    {
        proof {
            assert(views_of(lines@)[i as int] == lines@[i as int]@);
        }
        let line: &String = &lines[i];
        if starts_with_str(line.as_str(), "LANG=") {
            proof {
                reveal_strlit("LANG=");
            }
            let n = line.as_str().unicode_len();
            let val = line.as_str().substring_char(5, n);
            proof {
                assert(line@.subrange(5, n as int) =~= line@.skip(5));
            }
            let parts = split_on(val, '.');
            proof {
                crate::text::lemma_split_len(val@, '.');
                assert(views_of(parts@)[0] == parts@[0]@);
            }
            let first: &String = &parts[0];
            if first.as_str().unicode_len() > 0 {
                proof {
                    assert(spec_lang_line(lv[i as int]) == Some(first@));
                }
                return Some(first.clone());
            }
        }
        i = i + 1;
    }
    None
}

} // verus!
