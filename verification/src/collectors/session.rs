//! User session information collector.
//!
//! Environment values and the last-login command output are read at the
//! process edge and parsed here. The last-login lookup is gated off in
//! fast mode on platforms where the only probe is a slow call.

use vstd::prelude::*;
use vstd::string::*;
use crate::collectors::CollectMode;
use crate::collectors::platform::OsFamily;
use crate::sysapi;
use crate::text::{
    spec_contains, spec_join, spec_split, spec_starts_with, spec_tokens, contains_str, join_range,
    split_on, starts_with_str, tokens, views_of,
};

verus! {

/// Session/user information.
#[derive(Debug, Clone)]
pub struct SessionInfo {
    /// Current username.
    pub username: String,
    /// User's home directory.
    pub home_dir: String,
    /// Current shell (or the command interpreter on Windows).
    pub shell: String,
    /// Current working directory.
    pub current_dir: String,
    /// Terminal type.
    pub terminal: String,
    /// Last login time (`None` when skipped in fast mode).
    pub last_login: Option<String>,
    /// Last login origin (if recorded).
    pub last_login_ip: Option<String>,
}

/// Whether the last-login lookup must be skipped in fast mode on this
/// platform: only the Windows probe is a slow call.
pub fn should_skip_last_login_on_platform(family: OsFamily) -> (r: bool)
    ensures
        r == (family == OsFamily::Windows),
{
    family == OsFamily::Windows
}

/// First of the candidates, or `"Unknown"`.
pub open spec fn spec_first_or_unknown(a: Option<String>, b: Option<String>) -> Seq<char> {
    match a {
        Some(v) => v@,
        None => match b {
            Some(w) => w@,
            None => "Unknown"@,
        },
    }
}

/// The username: a probe result, else the environment value, else
/// `"Unknown"`.
pub fn username_fallback(primary: Option<String>, env: Option<String>) -> (r: String)
    ensures
        r@ == spec_first_or_unknown(primary, env),
{
    match primary {
        Some(v) => v,
        None => match env {
            Some(w) => w,
            None => "Unknown".to_owned(),
        },
    }
}

/// The shell: on Unix-like hosts the `SHELL` value or `"Unknown"`; on
/// Windows the interpreter value, else `"PowerShell"` when a PowerShell
/// module path is present, else `"cmd.exe"`.
pub fn shell_from_env(
    family: OsFamily,
    shell_env: Option<String>,
    comspec: Option<String>,
    has_psmodulepath: bool,
) -> (r: String)
    ensures
        family != OsFamily::Windows ==> r@ == (match shell_env {
            Some(s) => s@,
            None => "Unknown"@,
        }),
        family == OsFamily::Windows ==> r@ == (match comspec {
            Some(c) => c@,
            None => if has_psmodulepath {
                "PowerShell"@
            } else {
                "cmd.exe"@
            },
        }),
{
    if family == OsFamily::Windows {
        match comspec {
            Some(c) => c,
            None => if has_psmodulepath {
                "PowerShell".to_owned()
            } else {
                "cmd.exe".to_owned()
            },
        }
    } else {
        match shell_env {
            Some(s) => s,
            None => "Unknown".to_owned(),
        }
    }
}

/// The terminal type, from the common environment values in order:
/// `TERM_PROGRAM`, a non-empty `WT_SESSION` (Windows Terminal), `TERM`;
/// then on Windows `ConEmu` or `"Console"`, elsewhere `"Unknown"`.
pub fn terminal_from_env(
    family: OsFamily,
    term_program: Option<String>,
    wt_session: Option<String>,
    term: Option<String>,
    has_conemu: bool,
) -> (r: String)
    ensures
        r@ == (match term_program {
            Some(tp) => tp@,
            None => match wt_session {
                Some(w) => if w@.len() > 0 {
                    "Windows Terminal"@
                } else {
                    spec_terminal_rest(family, term, has_conemu)
                },
                None => spec_terminal_rest(family, term, has_conemu),
            },
        }),
{
    match term_program {
        Some(tp) => tp,
        None => {
            let wt_hit = match &wt_session {
                Some(w) => w.as_str().unicode_len() > 0,
                None => false,
            };
            if wt_hit {
                "Windows Terminal".to_owned()
            } else {
                match term {
                    Some(t) => t,
                    None => {
                        if family == OsFamily::Windows {
                            if has_conemu {
                                "ConEmu".to_owned()
                            } else {
                                "Console".to_owned()
                            }
                        } else {
                            "Unknown".to_owned()
                        }
                    },
                }
            }
        },
    }
}

/// The terminal fallback once the session variables are exhausted.
pub open spec fn spec_terminal_rest(family: OsFamily, term: Option<String>, has_conemu: bool) -> Seq<
    char,
> {
    match term {
        Some(t) => t@,
        None => if family == OsFamily::Windows {
            if has_conemu {
                "ConEmu"@
            } else {
                "Console"@
            }
        } else {
            "Unknown"@
        },
    }
}

/// What the newer login-record probe's output parses to: the second
/// line's tokens 1..4 joined as the date, token 4 as the origin.
pub open spec fn spec_lastlog2(t: Seq<char>) -> Option<(Seq<char>, Option<Seq<char>>)> {
    let lines = spec_split(t, '\n');
    if lines.len() >= 2 {
        let parts = spec_tokens(lines[1]);
        if parts.len() >= 4 {
            Some(
                (
                    spec_join(parts.subrange(1, 4), " "@),
                    if parts.len() >= 5 {
                        Some(parts[4])
                    } else {
                        None
                    },
                ),
            )
        } else {
            None
        }
    } else {
        None
    }
}

/// Parse the newer login-record listing.
pub fn parse_lastlog2(text: &str) -> (r: Option<(String, Option<String>)>)
    ensures
        match r {
            Some(p) => spec_lastlog2(text@) == Some(
                (
                    p.0@,
                    match p.1 {
                        Some(ip) => Some(ip@),
                        None => None::<Seq<char>>,
                    },
                ),
            ),
            None => spec_lastlog2(text@) is None,
        },
{
    let lines = split_on(text, '\n');
    if lines.len() >= 2 {
        proof {
            assert(views_of(lines@)[1] == lines@[1]@);
        }
        let parts = tokens(lines[1].as_str());
        if parts.len() >= 4 {
            let date = join_range(&parts, 1, 4, " ");
            let ip: Option<String> = if parts.len() >= 5 {
                proof {
                    assert(views_of(parts@)[4] == parts@[4]@);
                }
                Some(parts[4].clone())
            } else {
                None
            };
            proof {
                assert(views_of(parts@).subrange(1, 4) =~= views_of(parts@.subrange(1, 4)));
            }
            return Some((date, ip));
        }
        return None;
    }
    None
}

/// What the older login-record probe's output parses to: a "never
/// logged in" marker, or token 2 as the origin and tokens 3.. joined as
/// the date.
pub open spec fn spec_lastlog(t: Seq<char>) -> Option<(Seq<char>, Option<Seq<char>>)> {
    let lines = spec_split(t, '\n');
    if lines.len() >= 2 {
        if spec_contains(lines[1], "Never logged in"@) {
            Some(("Never logged in"@, None::<Seq<char>>))
        } else {
            let parts = spec_tokens(lines[1]);
            if parts.len() >= 5 {
                Some((spec_join(parts.skip(3), " "@), Some(parts[2])))
            } else {
                None
            }
        }
    } else {
        None
    }
}

/// Parse the older login-record listing.
pub fn parse_lastlog(text: &str) -> (r: Option<(String, Option<String>)>)
    ensures
        match r {
            Some(p) => spec_lastlog(text@) == Some(
                (
                    p.0@,
                    match p.1 {
                        Some(ip) => Some(ip@),
                        None => None::<Seq<char>>,
                    },
                ),
            ),
            None => spec_lastlog(text@) is None,
        },
{
    let lines = split_on(text, '\n');
    if lines.len() >= 2 {
        proof {
            assert(views_of(lines@)[1] == lines@[1]@);
        }
        if contains_str(lines[1].as_str(), "Never logged in") {
            return Some(("Never logged in".to_owned(), None));
        }
        let parts = tokens(lines[1].as_str());
        if parts.len() >= 5 {
            let date = join_range(&parts, 3, parts.len(), " ");
            proof {
                assert(views_of(parts@)[2] == parts@[2]@);
                assert(views_of(parts@).subrange(3, views_of(parts@).len() as int) =~= views_of(
                    parts@.subrange(3, parts@.len() as int),
                ));
                assert(views_of(parts@).skip(3) =~= views_of(parts@).subrange(
                    3,
                    views_of(parts@).len() as int,
                ));
            }
            let ip = Some(parts[2].clone());
            return Some((date, ip));
        }
        return None;
    }
    None
}

/// True when a login origin token is really a local terminal, not an
/// address: it starts with `:`, `pts` or `tty` (or `console`).
pub open spec fn spec_local_origin(tok: Seq<char>, console: bool) -> bool {
    spec_starts_with(tok, ":"@) || spec_starts_with(tok, "pts"@) || spec_starts_with(tok, "tty"@)
        || (console && spec_starts_with(tok, "console"@))
}

fn local_origin(tok: &str, console: bool) -> (r: bool)
    ensures
        r == spec_local_origin(tok@, console),
{
    starts_with_str(tok, ":") || starts_with_str(tok, "pts") || starts_with_str(tok, "tty") || (
    console && starts_with_str(tok, "console"))
}

/// What the login-history probe's output parses to: from the first
/// line, unless it is the empty-history marker: token 2 as the origin
/// (suppressed for local terminals), tokens 3..7 joined as the date.
pub open spec fn spec_last_line(t: Seq<char>, console: bool) -> Option<
    (Seq<char>, Option<Seq<char>>),
> {
    let lines = spec_split(t, '\n');
    if lines.len() >= 1 && !spec_contains(lines[0], "wtmp begins"@) && lines[0].len() > 0 {
        let parts = spec_tokens(lines[0]);
        if parts.len() >= 5 {
            let hi = if parts.len() < 7 {
                parts.len() as int
            } else {
                7
            };
            Some(
                (
                    spec_join(parts.subrange(3, hi), " "@),
                    if spec_local_origin(parts[2], console) {
                        None
                    } else {
                        Some(parts[2])
                    },
                ),
            )
        } else {
            None
        }
    } else {
        None
    }
}

/// Parse the login-history listing (`console` marks the platform whose
/// local sessions are labelled so).
pub fn parse_last(text: &str, console: bool) -> (r: Option<(String, Option<String>)>)
    ensures
        match r {
            Some(p) => spec_last_line(text@, console) == Some(
                (
                    p.0@,
                    match p.1 {
                        Some(ip) => Some(ip@),
                        None => None::<Seq<char>>,
                    },
                ),
            ),
            None => spec_last_line(text@, console) is None,
        },
{
    let lines = split_on(text, '\n');
    if lines.len() >= 1 {
        proof {
            assert(views_of(lines@)[0] == lines@[0]@);
        }
        let first: &String = &lines[0];
        if contains_str(first.as_str(), "wtmp begins") || first.as_str().unicode_len() == 0 {
            return None;
        }
        let parts = tokens(first.as_str());
        if parts.len() >= 5 {
            let hi = if parts.len() < 7 {
                parts.len()
            } else {
                7
            };
            let date = join_range(&parts, 3, hi, " ");
            proof {
                assert(views_of(parts@)[2] == parts@[2]@);
                assert(views_of(parts@).subrange(3, hi as int) =~= views_of(
                    parts@.subrange(3, hi as int),
                ));
            }
            let origin: Option<String> = if local_origin(parts[2].as_str(), console) {
                None
            } else {
                Some(parts[2].clone())
            };
            return Some((date, origin));
        }
        return None;
    }
    None
}

/// What the account-listing probe's output parses to: from the first
/// line naming the last logon, token 2 as the date and the following
/// tokens as the time, joined with one space; no origin is recorded.
pub open spec fn spec_net_user_logon(t: Seq<char>) -> Option<Seq<char>> {
    spec_net_user_lines(spec_split(t, '\n'), 0)
}

/// The first last-logon line of the listing, from index `i` on.
pub open spec fn spec_net_user_lines(lines: Seq<Seq<char>>, i: int) -> Option<Seq<char>>
    decreases lines.len() - i,
{
    if 0 <= i < lines.len() {
        if spec_contains(lines[i], "Last logon"@) {
            let parts = spec_tokens(lines[i]);
            if parts.len() >= 3 {
                Some(parts[2] + " "@ + spec_join(parts.skip(3), " "@))
            } else {
                None
            }
        } else {
            spec_net_user_lines(lines, i + 1)
        }
    } else {
        None
    }
}

/// Parse the account listing's last-logon line.
pub fn parse_net_user_logon(text: &str) -> (r: Option<String>)
    ensures
        match r {
            Some(v) => spec_net_user_logon(text@) == Some(v@),
            None => spec_net_user_logon(text@) is None,
        },
{
    let lines = split_on(text, '\n');
    let ghost lview = spec_split(text@, '\n');
    let mut i: usize = 0;
    while i < lines.len()
        invariant
            lview == views_of(lines@),
            lview == spec_split(text@, '\n'),
            i <= lines@.len(),
            spec_net_user_lines(lview, 0) == spec_net_user_lines(lview, i as int),
        decreases lines@.len() - i,
    {
        proof {
            assert(views_of(lines@)[i as int] == lines@[i as int]@);
        }
        let line: &String = &lines[i];
        if contains_str(line.as_str(), "Last logon") {
            let parts = tokens(line.as_str());
            if parts.len() >= 3 {
                proof {
                    assert(views_of(parts@)[2] == parts@[2]@);
                    assert(views_of(parts@).skip(3) =~= views_of(parts@).subrange(
                        3,
                        views_of(parts@).len() as int,
                    ));
                    assert(views_of(parts@).subrange(3, views_of(parts@).len() as int)
                        =~= views_of(parts@.subrange(3, parts@.len() as int)));
                }
                let mut r = parts[2].clone();
                r.append(" ");
                let time = join_range(&parts, 3, parts.len(), " ");
                r.append(time.as_str());
                return Some(r);
            }
            return None;
        }
        i = i + 1;
    }
    None
}

/// What the login-record fallback chain yields: the date and origin of
/// the first probe output that parses, else the unavailable marker.
pub open spec fn spec_login_lookup(
    lastlog2_out: Option<String>,
    lastlog_out: Option<String>,
    last_out: Option<String>,
    console: bool,
) -> (Seq<char>, Option<Seq<char>>) {
    let c1 = match lastlog2_out {
        Some(t) => spec_lastlog2(t@),
        None => None,
    };
    let c2 = match lastlog_out {
        Some(t) => spec_lastlog(t@),
        None => None,
    };
    let c3 = match last_out {
        Some(t) => spec_last_line(t@, console),
        None => None,
    };
    let picked = if c1 is Some {
        c1
    } else if c2 is Some {
        c2
    } else {
        c3
    };
    match picked {
        Some(p) => p,
        None => ("Login tracking unavailable"@, None),
    }
}

/// What the account-listing lookup yields on the platform whose only
/// probe is the account listing: the parsed last logon, else the
/// unavailable marker.
pub open spec fn spec_account_login(net_user_out: Option<String>) -> Seq<char> {
    match net_user_out {
        Some(t) => match spec_net_user_logon(t@) {
            Some(v) => v,
            None => "Login tracking unavailable"@,
        },
        None => "Login tracking unavailable"@,
    }
}

/// The last-login fact on a host with login records: the first probe
/// output that parses wins; with none, login tracking is reported
/// unavailable.
pub fn last_login_from_outputs(
    lastlog2_out: Option<String>,
    lastlog_out: Option<String>,
    last_out: Option<String>,
    console: bool,
) -> (r: (String, Option<String>))
    ensures
        r.0@ == spec_login_lookup(lastlog2_out, lastlog_out, last_out, console).0,
        crate::text::opt_view(r.1) == spec_login_lookup(
            lastlog2_out,
            lastlog_out,
            last_out,
            console,
        ).1,
{
    match lastlog2_out {
        Some(t) => {
            match parse_lastlog2(t.as_str()) {
                Some(p) => {
                    return p;
                },
                None => {},
            }
        },
        None => {},
    }
    match lastlog_out {
        Some(t) => {
            match parse_lastlog(t.as_str()) {
                Some(p) => {
                    return p;
                },
                None => {},
            }
        },
        None => {},
    }
    match last_out {
        Some(t) => {
            match parse_last(t.as_str(), console) {
                Some(p) => {
                    return p;
                },
                None => {},
            }
        },
        None => {},
    }
    ("Login tracking unavailable".to_owned(), None)
}

/// The raw, environment-derived inputs of the session collector.
pub struct SessionProbes {
    /// The `USER`/`USERNAME` environment value.
    pub username_env: Option<String>,
    /// The `SHELL` environment value.
    pub shell_env: Option<String>,
    /// The Windows `COMSPEC` value.
    pub comspec: Option<String>,
    /// Whether a PowerShell module path is present.
    pub has_psmodulepath: bool,
    /// The working directory, as text.
    pub current_dir: Option<String>,
    /// The `TERM_PROGRAM` value.
    pub term_program: Option<String>,
    /// The `WT_SESSION` value.
    pub wt_session: Option<String>,
    /// The `TERM` value.
    pub term: Option<String>,
    /// Whether a ConEmu session variable is present.
    pub has_conemu: bool,
    /// Output of the newest login-record probe, when it ran and succeeded.
    pub lastlog2_out: Option<String>,
    /// Output of the older login-record probe.
    pub lastlog_out: Option<String>,
    /// Output of the login-history probe.
    pub last_out: Option<String>,
    /// Output of the account-listing probe (the slow last-logon lookup).
    pub net_user_out: Option<String>,
}

/// Collect session information. In fast mode, on a platform whose only
/// last-login probe is slow, the last-login fields are absent no matter
/// what outputs the caller passes.
pub fn collect(mode: CollectMode, family: OsFamily, probes: SessionProbes) -> (r: Result<
    SessionInfo,
    crate::error::AppError,
>)
    ensures
        r.is_ok(),
        r matches Ok(s) ==> {
            &&& (mode == CollectMode::Fast && family == OsFamily::Windows ==> s.last_login is None
                && s.last_login_ip is None)
            &&& !(mode == CollectMode::Fast && family == OsFamily::Windows) ==> s.last_login
                is Some
            &&& !(mode == CollectMode::Fast && family == OsFamily::Windows) && family
                == OsFamily::Windows ==> crate::text::opt_view(s.last_login) == Some(
                spec_account_login(probes.net_user_out),
            ) && s.last_login_ip is None
            &&& family != OsFamily::Windows ==> ({
                let looked = spec_login_lookup(
                    probes.lastlog2_out,
                    probes.lastlog_out,
                    probes.last_out,
                    family == OsFamily::MacOs,
                );
                crate::text::opt_view(s.last_login) == Some(looked.0) && crate::text::opt_view(
                    s.last_login_ip,
                ) == looked.1
            })
            &&& s.current_dir@ == (match probes.current_dir {
                Some(d) => d@,
                None => "Unknown"@,
            })
            &&& family == OsFamily::Windows ==> s.username@ == spec_first_or_unknown(
                None,
                probes.username_env,
            )
            &&& s.shell@ == (if family == OsFamily::Windows {
                match probes.comspec {
                    Some(c) => c@,
                    None => if probes.has_psmodulepath {
                        "PowerShell"@
                    } else {
                        "cmd.exe"@
                    },
                }
            } else {
                match probes.shell_env {
                    Some(sh) => sh@,
                    None => "Unknown"@,
                }
            })
            &&& s.terminal@ == (match probes.term_program {
                Some(tp) => tp@,
                None => match probes.wt_session {
                    Some(w) => if w@.len() > 0 {
                        "Windows Terminal"@
                    } else {
                        spec_terminal_rest(family, probes.term, probes.has_conemu)
                    },
                    None => spec_terminal_rest(family, probes.term, probes.has_conemu),
                },
            })
        },
{
    let username = if family == OsFamily::Windows {
        username_fallback(None, probes.username_env)
    } else {
        let probe = sysapi::current_username();
        username_fallback(probe, probes.username_env)
    };
    let home_dir = match sysapi::home_dir_string() {
        Some(h) => h,
        None => "Unknown".to_owned(),
    };
    let shell = shell_from_env(family, probes.shell_env, probes.comspec, probes.has_psmodulepath);
    let current_dir = match probes.current_dir {
        Some(d) => d,
        None => "Unknown".to_owned(),
    };
    let terminal = terminal_from_env(
        family,
        probes.term_program,
        probes.wt_session,
        probes.term,
        probes.has_conemu,
    );
    let skip = mode == CollectMode::Fast && should_skip_last_login_on_platform(family);
    let (last_login, last_login_ip): (Option<String>, Option<String>) = if skip {
        (None, None)
    } else if family == OsFamily::Windows {
        let login: String = match probes.net_user_out {
            Some(t) => match parse_net_user_logon(t.as_str()) {
                Some(v) => v,
                None => "Login tracking unavailable".to_owned(),
            },
            None => "Login tracking unavailable".to_owned(),
        };
        (Some(login), None)
    } else {
        let console = family == OsFamily::MacOs;
        let (login, ip) = last_login_from_outputs(
            probes.lastlog2_out,
            probes.lastlog_out,
            probes.last_out,
            console,
        );
        (Some(login), ip)
    };
    Ok(
        SessionInfo {
            username,
            home_dir,
            shell,
            current_dir,
            terminal,
            last_login,
            last_login_ip,
        },
    )
}

} // verus!
