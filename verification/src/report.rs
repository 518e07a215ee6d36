//! Report generation: the fixed-format table and the JSON document,
//! both pure functions of the snapshot and the configuration.

use vstd::prelude::*;
use vstd::string::*;
use crate::collectors::SystemInfo;
use crate::config::{Config, OutputFormat, BoxChars, MAX_DATA_WIDTH};
use crate::collectors::os::spec_uptime_formatted;
use crate::numfmt::{spec_dec, spec_fixed2, u64_to_string, fixed2_string, tenths_half_up};
use crate::render::bar::{render_bar_hundredths, spec_bar_h};
use crate::render::table::TableRenderer;
use crate::text::{join_range, push_char, spec_join, views_of};

verus! {

/// A percentage in hundredths clamped into bar range.
pub open spec fn capped_h(h: u64) -> nat {
    if h > 10000 {
        10000
    } else {
        h as nat
    }
}

fn cap_h(h: u64) -> (r: u64)
    ensures
        r as nat == capped_h(h),
        r <= 10000,
{
    if h > 10000 {
        10000
    } else {
        h
    }
}

/// The table's middle divider.
pub open spec fn spec_mid(rd: TableRenderer) -> Seq<char> {
    rd.spec_divider(rd.chars.cross, rd.chars.t_right, rd.chars.t_left)
}

/// The header block: top border, underline, centered title and
/// subtitle, divider into the body.
pub open spec fn spec_table_header(rd: TableRenderer, title: Seq<char>, subtitle: Seq<char>) -> Seq<
    char,
> {
    rd.spec_top_header() + rd.spec_header_bottom() + rd.spec_centered(title) + rd.spec_centered(
        subtitle,
    ) + rd.spec_divider(rd.chars.t_down, rd.chars.t_right, rd.chars.t_left)
}

/// The OS section: name and version, kernel, architecture.
pub open spec fn spec_os_section(rd: TableRenderer, info: SystemInfo) -> Seq<char> {
    rd.spec_row("OS"@, info.os_name@ + " "@ + info.os_version@) + rd.spec_row(
        "KERNEL"@,
        info.kernel@,
    ) + rd.spec_row("ARCH"@, info.architecture@) + spec_mid(rd)
}

/// The DNS rows from index `i` on: one numbered row per server, at most
/// five.
pub open spec fn spec_dns_rows(rd: TableRenderer, dns: Seq<Seq<char>>, i: int) -> Seq<char>
    decreases 5 - i,
{
    if 0 <= i < dns.len() && i < 5 {
        rd.spec_row("DNS  IP "@ + spec_dec((i + 1) as nat), dns[i]) + spec_dns_rows(rd, dns, i + 1)
    } else {
        Seq::empty()
    }
}

/// The network section: hostname, the machine address when known, the
/// client address (or a placeholder), up to five DNS rows, the user.
pub open spec fn spec_network_section(rd: TableRenderer, info: SystemInfo) -> Seq<char> {
    rd.spec_row("HOSTNAME"@, info.hostname@) + (match info.machine_ip {
        Some(ip) => rd.spec_row("MACHINE IP"@, ip@),
        None => Seq::empty(),
    }) + rd.spec_row(
        "CLIENT  IP"@,
        match info.client_ip {
            Some(c) => c@,
            None => "Not connected"@,
        },
    ) + spec_dns_rows(rd, views_of(info.dns_servers@), 0) + rd.spec_row("USER"@, info.username@)
        + spec_mid(rd)
}

/// The GPU rows from index `i` on, one per device; a single device is
/// labelled plainly, several are numbered.
pub open spec fn spec_gpu_rows(rd: TableRenderer, gpus: Seq<Seq<char>>, i: int) -> Seq<char>
    decreases gpus.len() - i,
{
    if 0 <= i < gpus.len() {
        let label = if gpus.len() == 1 {
            "GPU"@
        } else {
            "GPU "@ + spec_dec((i + 1) as nat)
        };
        rd.spec_row(label, gpus[i]) + spec_gpu_rows(rd, gpus, i + 1)
    } else {
        Seq::empty()
    }
}

/// The GPU block: nothing without devices, one row per device for up to
/// three, one compact comma-joined row beyond that.
pub open spec fn spec_gpu_section(rd: TableRenderer, gpus: Seq<Seq<char>>) -> Seq<char> {
    if gpus.len() == 0 {
        Seq::empty()
    } else if gpus.len() <= 3 {
        spec_gpu_rows(rd, gpus, 0)
    } else {
        rd.spec_row("GPUs"@, spec_join(gpus, ", "@))
    }
}

/// The CPU section: processor, cores, the GPU block, the hypervisor
/// when known, the frequency, and the three load bars when all loads
/// were collected.
pub open spec fn spec_cpu_section(rd: TableRenderer, info: SystemInfo, fc: char, ec: char) -> Seq<
    char,
> {
    rd.spec_row("PROCESSOR"@, info.processor@) + rd.spec_row("CORES"@, info.spec_cores_str())
        + spec_gpu_section(rd, views_of(info.gpus@)) + (match info.hypervisor {
        Some(h) => rd.spec_row("HYPERVISOR"@, h@),
        None => Seq::empty(),
    }) + rd.spec_row("CPU FREQ"@, info.spec_freq_str()) + (match (
        info.load_1m,
        info.load_5m,
        info.load_15m,
    ) {
        (Some(l1), Some(l5), Some(l15)) => rd.spec_row(
            "LOAD  1m"@,
            spec_bar_h(capped_h(l1), rd.data_width as nat, fc, ec),
        ) + rd.spec_row("LOAD  5m"@, spec_bar_h(capped_h(l5), rd.data_width as nat, fc, ec))
            + rd.spec_row("LOAD 15m"@, spec_bar_h(capped_h(l15), rd.data_width as nat, fc, ec)),
        _ => Seq::empty(),
    }) + spec_mid(rd)
}

/// The disk section: the volume row, the usage bar, and the pool-health
/// row when known.
pub open spec fn spec_disk_section(rd: TableRenderer, info: SystemInfo, fc: char, ec: char) -> Seq<
    char,
> {
    rd.spec_row("VOLUME"@, info.spec_disk_usage_str()) + rd.spec_row(
        "DISK USAGE"@,
        spec_bar_h(capped_h(info.disk_percent_hundredths), rd.data_width as nat, fc, ec),
    ) + (match info.zfs_health {
        Some(z) => rd.spec_row("ZFS HEALTH"@, z@),
        None => Seq::empty(),
    }) + spec_mid(rd)
}

/// The memory section: the memory row and the usage bar.
pub open spec fn spec_memory_section(rd: TableRenderer, info: SystemInfo, fc: char, ec: char) -> Seq<
    char,
> {
    rd.spec_row("MEMORY"@, info.spec_memory_usage_str()) + rd.spec_row(
        "USAGE"@,
        spec_bar_h(capped_h(info.mem_percent_hundredths), rd.data_width as nat, fc, ec),
    ) + spec_mid(rd)
}

/// The session section: the last login (with its origin on a second
/// row) when collected, the uptime, and the optional shell, terminal,
/// locale and battery rows.
pub open spec fn spec_session_section(rd: TableRenderer, info: SystemInfo) -> Seq<char> {
    (match info.last_login {
        Some(ll) => rd.spec_row("LAST LOGIN"@, ll@) + (match info.last_login_ip {
            Some(ip) => rd.spec_row(""@, ip@),
            None => Seq::empty(),
        }),
        None => Seq::empty(),
    }) + rd.spec_row("UPTIME"@, spec_uptime_formatted(info.uptime_seconds as nat)) + (
    match info.shell {
        Some(sh) => rd.spec_row("SHELL"@, sh@),
        None => Seq::empty(),
    }) + (match info.terminal {
        Some(t) => rd.spec_row("TERMINAL"@, t@),
        None => Seq::empty(),
    }) + (match info.locale {
        Some(l) => rd.spec_row("LOCALE"@, l@),
        None => Seq::empty(),
    }) + (match info.battery {
        Some(b) => rd.spec_row("BATTERY"@, b@),
        None => Seq::empty(),
    })
}

/// The renderer of the fixed table layout for the given character set.
pub open spec fn spec_table_renderer(chars: BoxChars) -> TableRenderer {
    TableRenderer { label_width: 12, data_width: 32, chars, total_width: 51 }
}

/// The character set the configuration selects.
pub open spec fn spec_config_chars(config: Config) -> BoxChars {
    if config.use_unicode {
        BoxChars::spec_unicode()
    } else {
        BoxChars::spec_ascii()
    }
}

/// The bar characters the configuration selects.
pub open spec fn spec_config_bars(config: Config) -> (char, char) {
    if config.use_unicode {
        ('█', '░')
    } else {
        ('#', '.')
    }
}

/// The whole table: header, the six sections, the footer.
pub open spec fn spec_generate_table(info: SystemInfo, config: Config) -> Seq<char> {
    let rd = spec_table_renderer(spec_config_chars(config));
    let fc = spec_config_bars(config).0;
    let ec = spec_config_bars(config).1;
    let title = match config.title {
        Some(t) => t@,
        None => crate::config::DEFAULT_TITLE@,
    };
    let subtitle = match config.subtitle {
        Some(t) => t@,
        None => crate::config::DEFAULT_SUBTITLE@,
    };
    spec_table_header(rd, title, subtitle) + spec_os_section(rd, info) + spec_network_section(
        rd,
        info,
    ) + spec_cpu_section(rd, info, fc, ec) + spec_disk_section(rd, info, fc, ec)
        + spec_memory_section(rd, info, fc, ec) + spec_session_section(rd, info) + rd.spec_divider(
        rd.chars.t_up,
        rd.chars.bottom_left,
        rd.chars.bottom_right,
    )
}

fn os_section(rd: &TableRenderer, info: &SystemInfo) -> (r: String)
    requires
        rd.wf(),
    ensures
        r@ == spec_os_section(*rd, *info),
{
    let mut os_display = info.os_name.clone();
    os_display.append(" ");
    os_display.append(info.os_version.as_str());
    let mut out = rd.render_row("OS", os_display.as_str());
    let piece = rd.render_row("KERNEL", info.kernel.as_str());
    out.append(piece.as_str());
    let piece = rd.render_row("ARCH", info.architecture.as_str());
    out.append(piece.as_str());
    let piece = rd.render_middle_divider();
    out.append(piece.as_str());
    proof {
        assert(out@ =~= spec_os_section(*rd, *info));
    }
    out
}

fn network_section(rd: &TableRenderer, info: &SystemInfo) -> (r: String)
    requires
        rd.wf(),
    ensures
        r@ == spec_network_section(*rd, *info),
{
    let mut out = rd.render_row("HOSTNAME", info.hostname.as_str());
    match &info.machine_ip {
        Some(ip) => {
            let piece = rd.render_row("MACHINE IP", ip.as_str());
            out.append(piece.as_str());
        },
        None => {},
    }
    let piece = rd.render_row(
        "CLIENT  IP",
        match &info.client_ip {
            Some(c) => c.as_str(),
            None => "Not connected",
        },
    );
    out.append(piece.as_str());
    let ghost dv = views_of(info.dns_servers@);
    let ghost base = out@;
    let dns_count = if info.dns_servers.len() < 5 {
        info.dns_servers.len()
    } else {
        5
    };
    let mut i: usize = 0;
    while i < dns_count
        invariant
            rd.wf(),
            dv == views_of(info.dns_servers@),
            dns_count == if info.dns_servers@.len() < 5 {
                info.dns_servers@.len() as int
            } else {
                5
            },
            i <= dns_count,
            out@ + spec_dns_rows(*rd, dv, i as int) == base + spec_dns_rows(*rd, dv, 0),
        decreases dns_count - i,
    {
        proof {
            assert(dv[i as int] == info.dns_servers@[i as int]@);
        }
        let mut label = "DNS  IP ".to_owned();
        let num = u64_to_string((i + 1) as u64);
        label.append(num.as_str());
        let server: &String = &info.dns_servers[i];
        let piece = rd.render_row(label.as_str(), server.as_str());
        proof {
            assert((out@ + piece@) + spec_dns_rows(*rd, dv, i + 1) =~= out@ + (rd.spec_row(
                "DNS  IP "@ + spec_dec((i + 1) as nat),
                dv[i as int],
            ) + spec_dns_rows(*rd, dv, i + 1)));
        }
        out.append(piece.as_str());
        i = i + 1;
    }
    proof {
        assert(spec_dns_rows(*rd, dv, i as int) =~= Seq::<char>::empty());
        assert(out@ =~= base + spec_dns_rows(*rd, dv, 0));
    }
    let piece = rd.render_row("USER", info.username.as_str());
    out.append(piece.as_str());
    let piece = rd.render_middle_divider();
    out.append(piece.as_str());
    proof {
        assert(out@ =~= spec_network_section(*rd, *info));
    }
    out
}

fn gpu_block(rd: &TableRenderer, info: &SystemInfo) -> (r: String)
    requires
        rd.wf(),
    ensures
        r@ == spec_gpu_section(*rd, views_of(info.gpus@)),
{
    let ghost gv = views_of(info.gpus@);
    let n = info.gpus.len();
    if n == 0 {
        let out = String::new();
        proof {
            assert(out@ =~= spec_gpu_section(*rd, gv));
        }
        return out;
    }
    if n <= 3 {
        let mut out = String::new();
        let ghost base = out@;
        let mut i: usize = 0;
        while i < n
            invariant
                rd.wf(),
                gv == views_of(info.gpus@),
                n == info.gpus@.len(),
                0 < n <= 3,
                i <= n,
                out@ + spec_gpu_rows(*rd, gv, i as int) == spec_gpu_rows(*rd, gv, 0),
            decreases n - i,
        {
            proof {
                assert(gv[i as int] == info.gpus@[i as int]@);
            }
            let label: String = if n == 1 {
                "GPU".to_owned()
            } else {
                let mut l = "GPU ".to_owned();
                let num = u64_to_string((i + 1) as u64);
                l.append(num.as_str());
                l
            };
            let gpu: &String = &info.gpus[i];
            let piece = rd.render_row(label.as_str(), gpu.as_str());
            proof {
                let lab = if gv.len() == 1 {
                    "GPU"@
                } else {
                    "GPU "@ + spec_dec((i + 1) as nat)
                };
                assert(label@ == lab);
                assert((out@ + piece@) + spec_gpu_rows(*rd, gv, i + 1) =~= out@ + (rd.spec_row(
                    lab,
                    gv[i as int],
                ) + spec_gpu_rows(*rd, gv, i + 1)));
            }
            out.append(piece.as_str());
            i = i + 1;
        }
        proof {
            assert(spec_gpu_rows(*rd, gv, n as int) =~= Seq::<char>::empty());
            assert(out@ =~= spec_gpu_rows(*rd, gv, 0));
        }
        out
    } else {
        let list = join_range(&info.gpus, 0, n, ", ");
        proof {
            assert(info.gpus@.subrange(0, n as int) =~= info.gpus@);
        }
        rd.render_row("GPUs", list.as_str())
    }
}

fn cpu_section(rd: &TableRenderer, info: &SystemInfo, fc: char, ec: char) -> (r: String)
    requires
        rd.wf(),
    ensures
        r@ == spec_cpu_section(*rd, *info, fc, ec),
{
    let mut out = rd.render_row("PROCESSOR", info.processor.as_str());
    let cores = info.cores_str();
    let piece = rd.render_row("CORES", cores.as_str());
    out.append(piece.as_str());
    let piece = gpu_block(rd, info);
    out.append(piece.as_str());
    match &info.hypervisor {
        Some(h) => {
            let piece = rd.render_row("HYPERVISOR", h.as_str());
            out.append(piece.as_str());
        },
        None => {},
    }
    let freq = info.freq_str();
    let piece = rd.render_row("CPU FREQ", freq.as_str());
    out.append(piece.as_str());
    match (info.load_1m, info.load_5m, info.load_15m) {
        (Some(l1), Some(l5), Some(l15)) => {
            let bar1 = render_bar_hundredths(cap_h(l1), rd.data_width, fc, ec);
            let piece = rd.render_row("LOAD  1m", bar1.as_str());
            out.append(piece.as_str());
            let bar5 = render_bar_hundredths(cap_h(l5), rd.data_width, fc, ec);
            let piece = rd.render_row("LOAD  5m", bar5.as_str());
            out.append(piece.as_str());
            let bar15 = render_bar_hundredths(cap_h(l15), rd.data_width, fc, ec);
            let piece = rd.render_row("LOAD 15m", bar15.as_str());
            out.append(piece.as_str());
        },
        _ => {},
    }
    let piece = rd.render_middle_divider();
    out.append(piece.as_str());
    proof {
        assert(out@ =~= spec_cpu_section(*rd, *info, fc, ec));
    }
    out
}

fn disk_section(rd: &TableRenderer, info: &SystemInfo, fc: char, ec: char) -> (r: String)
    requires
        rd.wf(),
    ensures
        r@ == spec_disk_section(*rd, *info, fc, ec),
{
    let vol = info.disk_usage_str();
    let mut out = rd.render_row("VOLUME", vol.as_str());
    let bar = render_bar_hundredths(cap_h(info.disk_percent_hundredths), rd.data_width, fc, ec);
    let piece = rd.render_row("DISK USAGE", bar.as_str());
    out.append(piece.as_str());
    match &info.zfs_health {
        Some(z) => {
            let piece = rd.render_row("ZFS HEALTH", z.as_str());
            out.append(piece.as_str());
        },
        None => {},
    }
    let piece = rd.render_middle_divider();
    out.append(piece.as_str());
    proof {
        assert(out@ =~= spec_disk_section(*rd, *info, fc, ec));
    }
    out
}

fn memory_section(rd: &TableRenderer, info: &SystemInfo, fc: char, ec: char) -> (r: String)
    requires
        rd.wf(),
    ensures
        r@ == spec_memory_section(*rd, *info, fc, ec),
{
    let mem = info.memory_usage_str();
    let mut out = rd.render_row("MEMORY", mem.as_str());
    let bar = render_bar_hundredths(cap_h(info.mem_percent_hundredths), rd.data_width, fc, ec);
    let piece = rd.render_row("USAGE", bar.as_str());
    out.append(piece.as_str());
    let piece = rd.render_middle_divider();
    out.append(piece.as_str());
    proof {
        assert(out@ =~= spec_memory_section(*rd, *info, fc, ec));
    }
    out
}

fn session_section(rd: &TableRenderer, info: &SystemInfo) -> (r: String)
    requires
        rd.wf(),
    ensures
        r@ == spec_session_section(*rd, *info),
{
    let mut out = String::new();
    match &info.last_login {
        Some(ll) => {
            let piece = rd.render_row("LAST LOGIN", ll.as_str());
            out.append(piece.as_str());
            match &info.last_login_ip {
                Some(ip) => {
                    let piece = rd.render_row("", ip.as_str());
                    out.append(piece.as_str());
                },
                None => {},
            }
        },
        None => {},
    }
    let up = info.uptime_formatted();
    let piece = rd.render_row("UPTIME", up.as_str());
    out.append(piece.as_str());
    match &info.shell {
        Some(sh) => {
            let piece = rd.render_row("SHELL", sh.as_str());
            out.append(piece.as_str());
        },
        None => {},
    }
    match &info.terminal {
        Some(t) => {
            let piece = rd.render_row("TERMINAL", t.as_str());
            out.append(piece.as_str());
        },
        None => {},
    }
    match &info.locale {
        Some(l) => {
            let piece = rd.render_row("LOCALE", l.as_str());
            out.append(piece.as_str());
        },
        None => {},
    }
    match &info.battery {
        Some(b) => {
            let piece = rd.render_row("BATTERY", b.as_str());
            out.append(piece.as_str());
        },
        None => {},
    }
    proof {
        assert(out@ =~= spec_session_section(*rd, *info));
    }
    out
}

/// Generate the table-format report: the fixed layout, filled from the
/// snapshot, with the configured character set and titles.
pub fn generate_table(info: &SystemInfo, config: &Config) -> (r: String)
    ensures
        r@ == spec_generate_table(*info, *config),
{
    let chars = config.box_chars();
    let (fc, ec) = config.bar_chars();
    let rd = TableRenderer::new(12, MAX_DATA_WIDTH, chars);
    proof {
        assert(rd == spec_table_renderer(spec_config_chars(*config)));
        assert(fc == spec_config_bars(*config).0);
        assert(ec == spec_config_bars(*config).1);
    }
    let mut out = rd.render_top_header();
    let piece = rd.render_header_bottom();
    out.append(piece.as_str());
    let piece = rd.render_centered(config.title());
    out.append(piece.as_str());
    let piece = rd.render_centered(config.subtitle());
    out.append(piece.as_str());
    let piece = rd.render_top_divider();
    out.append(piece.as_str());
    let piece = os_section(&rd, info);
    out.append(piece.as_str());
    let piece = network_section(&rd, info);
    out.append(piece.as_str());
    let piece = cpu_section(&rd, info, fc, ec);
    out.append(piece.as_str());
    let piece = disk_section(&rd, info, fc, ec);
    out.append(piece.as_str());
    let piece = memory_section(&rd, info, fc, ec);
    out.append(piece.as_str());
    let piece = session_section(&rd, info);
    out.append(piece.as_str());
    let piece = rd.render_footer();
    out.append(piece.as_str());
    proof {
        assert(out@ =~= spec_generate_table(*info, *config));
    }
    out
}

/// What one character contributes to escaped JSON text.
pub open spec fn spec_escape_char(c: char) -> Seq<char> {
    if c == '\\' {
        seq!['\\', '\\']
    } else if c == '"' {
        seq!['\\', '"']
    } else if c == '\n' {
        seq!['\\', 'n']
    } else if c == '\r' {
        seq!['\\', 'r']
    } else if c == '\t' {
        seq!['\\', 't']
    } else {
        seq![c]
    }
}

/// The text with backslashes, quotes and control whitespace escaped for
/// a JSON string.
pub open spec fn spec_escape_json(s: Seq<char>) -> Seq<char>
    decreases s.len(),
{
    if s.len() == 0 {
        Seq::empty()
    } else {
        spec_escape_json(s.drop_last()) + spec_escape_char(s.last())
    }
}

/// Escape special characters for a JSON string.
pub fn escape_json(s: &str) -> (r: String)
    ensures
        r@ == spec_escape_json(s@),
{
    let n = s.unicode_len();
    let mut r = String::new();
    let mut i: usize = 0;
    proof {
        assert(r@ =~= spec_escape_json(s@.take(0)));
    }
    while i < n
        invariant
            n == s@.len(),
            i <= n,
            r@ == spec_escape_json(s@.take(i as int)),
        decreases n - i,
    {
        proof {
            assert(s@.take(i + 1).drop_last() =~= s@.take(i as int));
            assert(s@.take(i + 1).last() == s@[i as int]);
        }
        let c = s.get_char(i);
        if c == '\\' {
            r.append("\\\\");
            proof {
                reveal_strlit("\\\\");
                assert("\\\\"@ =~= spec_escape_char(c));
            }
        } else if c == '"' {
            r.append("\\\"");
            proof {
                reveal_strlit("\\\"");
                assert("\\\""@ =~= spec_escape_char(c));
            }
        } else if c == '\n' {
            r.append("\\n");
            proof {
                reveal_strlit("\\n");
                assert("\\n"@ =~= spec_escape_char(c));
            }
        } else if c == '\r' {
            r.append("\\r");
            proof {
                reveal_strlit("\\r");
                assert("\\r"@ =~= spec_escape_char(c));
            }
        } else if c == '\t' {
            r.append("\\t");
            proof {
                reveal_strlit("\\t");
                assert("\\t"@ =~= spec_escape_char(c));
            }
        } else {
            push_char(&mut r, c);
            proof {
                assert(spec_escape_json(s@.take(i as int)).push(c) =~= spec_escape_json(
                    s@.take(i as int),
                ) + spec_escape_char(c));
            }
        }
        i = i + 1;
    }
    proof {
        assert(s@.take(n as int) =~= s@);
    }
    r
}

/// A JSON string value: the escaped text in quotes.
pub open spec fn jstr(s: Seq<char>) -> Seq<char> {
    seq!['"'] + spec_escape_json(s) + seq!['"']
}

fn quoted(s: &str) -> (r: String)
    ensures
        r@ == jstr(s@),
{
    let mut r = String::new();
    push_char(&mut r, '"');
    let body = escape_json(s);
    r.append(body.as_str());
    push_char(&mut r, '"');
    proof {
        assert(r@ =~= jstr(s@));
    }
    r
}

/// A JSON optional string: the quoted value, or `null`.
pub open spec fn jopt_str(o: Option<String>) -> Seq<char> {
    match o {
        Some(s) => jstr(s@),
        None => "null"@,
    }
}

fn opt_str_json(o: &Option<String>) -> (r: String)
    ensures
        r@ == jopt_str(*o),
{
    match o {
        Some(s) => quoted(s.as_str()),
        None => "null".to_owned(),
    }
}

/// A JSON optional integer: decimal digits, or `null`.
pub open spec fn jopt_dec(o: Option<u64>) -> Seq<char> {
    match o {
        Some(v) => spec_dec(v as nat),
        None => "null"@,
    }
}

fn opt_dec_json(o: Option<u64>) -> (r: String)
    ensures
        r@ == jopt_dec(o),
{
    match o {
        Some(v) => u64_to_string(v),
        None => "null".to_owned(),
    }
}

/// A JSON optional two-decimal quantity (given in hundredths), or
/// `null`.
pub open spec fn jopt_fixed2(o: Option<u64>) -> Seq<char> {
    match o {
        Some(h) => spec_fixed2(h as nat),
        None => "null"@,
    }
}

fn opt_fixed2_json(o: Option<u64>) -> (r: String)
    ensures
        r@ == jopt_fixed2(o),
{
    match o {
        Some(h) => fixed2_string(h),
        None => "null".to_owned(),
    }
}

/// A JSON array of strings: the quoted elements joined with commas.
pub open spec fn jarr(parts: Seq<Seq<char>>) -> Seq<char> {
    spec_join(parts.map_values(|p: Seq<char>| jstr(p)), ", "@)
}

fn string_array_json(v: &Vec<String>) -> (r: String)
    ensures
        r@ == jarr(views_of(v@)),
{
    let ghost goal = views_of(v@).map_values(|p: Seq<char>| jstr(p));
    let mut quoted_parts: Vec<String> = Vec::new();
    let mut i: usize = 0;
    while i < v.len()
        invariant
            goal == views_of(v@).map_values(|p: Seq<char>| jstr(p)),
            i <= v@.len(),
            views_of(quoted_parts@) =~= goal.take(i as int),
        decreases v@.len() - i,
    {
        proof {
            assert(views_of(v@)[i as int] == v@[i as int]@);
            assert(goal[i as int] == jstr(v@[i as int]@));
        }
        let element: &String = &v[i];
        let q = quoted(element.as_str());
        proof {
            assert(views_of(quoted_parts@.push(q)) =~= views_of(quoted_parts@).push(q@));
            assert(goal.take(i + 1) =~= goal.take(i as int).push(goal[i as int]));
        }
        quoted_parts.push(q);
        i = i + 1;
    }
    proof {
        assert(goal.take(v@.len() as int) =~= goal);
    }
    let r = join_range(&quoted_parts, 0, quoted_parts.len(), ", ");
    proof {
        assert(quoted_parts@.subrange(0, quoted_parts@.len() as int) =~= quoted_parts@);
    }
    r
}

/// The JSON document for a snapshot: nested objects for the OS,
/// network, CPU, disk, memory and session sections, with absent
/// optional fields as `null`.
pub open spec fn spec_generate_json(info: SystemInfo) -> Seq<char> {
    spec_json_os(info) + spec_json_network(info) + spec_json_cpu(info) + spec_json_disk(info)
        + spec_json_memory(info) + spec_json_session(info)
}

/// The OS object of the JSON document.
pub open spec fn spec_json_os(info: SystemInfo) -> Seq<char> {
    "{\n  \"os\": {\n    \"name\": "@ + jstr(info.os_name@) + ",\n    \"version\": "@ + jstr(
        info.os_version@,
    ) + ",\n    \"kernel\": "@ + jstr(info.kernel@) + ",\n    \"architecture\": "@ + jstr(
        info.architecture@,
    ) + "\n  },\n"@
}

/// The network object of the JSON document.
pub open spec fn spec_json_network(info: SystemInfo) -> Seq<char> {
    "  \"network\": {\n    \"hostname\": "@ + jstr(info.hostname@) + ",\n    \"machine_ip\": "@
        + jopt_str(info.machine_ip) + ",\n    \"client_ip\": "@ + jopt_str(info.client_ip)
        + ",\n    \"dns_servers\": ["@ + jarr(views_of(info.dns_servers@)) + "]\n  },\n"@
}

/// The CPU object of the JSON document.
pub open spec fn spec_json_cpu(info: SystemInfo) -> Seq<char> {
    "  \"cpu\": {\n    \"processor\": "@ + jstr(info.processor@) + ",\n    \"cores\": "@
        + spec_dec(info.cores as nat) + ",\n    \"sockets\": "@ + jopt_dec(info.sockets)
        + ",\n    \"hypervisor\": "@ + jopt_str(info.hypervisor) + ",\n    \"frequency_ghz\": "@
        + spec_fixed2(((info.cpu_freq_mhz + 5) / 10) as nat) + ",\n    \"load_1m\": "@
        + jopt_fixed2(info.load_1m) + ",\n    \"load_5m\": "@ + jopt_fixed2(info.load_5m)
        + ",\n    \"load_15m\": "@ + jopt_fixed2(info.load_15m) + ",\n    \"gpus\": ["@ + jarr(
        views_of(info.gpus@),
    ) + "]\n  },\n"@
}

/// The disk object of the JSON document.
pub open spec fn spec_json_disk(info: SystemInfo) -> Seq<char> {
    "  \"disk\": {\n    \"used_bytes\": "@ + spec_dec(info.disk_used_bytes as nat)
        + ",\n    \"total_bytes\": "@ + spec_dec(info.disk_total_bytes as nat)
        + ",\n    \"percent\": "@ + spec_fixed2(info.disk_percent_hundredths as nat) + "\n  },\n"@
}

/// The memory object of the JSON document.
pub open spec fn spec_json_memory(info: SystemInfo) -> Seq<char> {
    "  \"memory\": {\n    \"used_bytes\": "@ + spec_dec(info.mem_used_bytes as nat)
        + ",\n    \"total_bytes\": "@ + spec_dec(info.mem_total_bytes as nat)
        + ",\n    \"percent\": "@ + spec_fixed2(info.mem_percent_hundredths as nat) + "\n  },\n"@
}

/// The session object of the JSON document.
pub open spec fn spec_json_session(info: SystemInfo) -> Seq<char> {
    "  \"session\": {\n    \"username\": "@ + jstr(info.username@) + ",\n    \"last_login\": "@
        + jopt_str(info.last_login) + ",\n    \"uptime_seconds\": "@ + spec_dec(
        info.uptime_seconds as nat,
    ) + ",\n    \"shell\": "@ + jopt_str(info.shell) + ",\n    \"terminal\": "@ + jopt_str(
        info.terminal,
    ) + ",\n    \"locale\": "@ + jopt_str(info.locale) + ",\n    \"battery\": "@ + jopt_str(
        info.battery,
    ) + "\n  }\n}"@
}

fn json_os(info: &SystemInfo) -> (r: String)
    ensures
        r@ == spec_json_os(*info),
{
    let mut out = "{\n  \"os\": {\n    \"name\": ".to_owned();
    let piece = quoted(info.os_name.as_str());
    out.append(piece.as_str());
    out.append(",\n    \"version\": ");
    let piece = quoted(info.os_version.as_str());
    out.append(piece.as_str());
    out.append(",\n    \"kernel\": ");
    let piece = quoted(info.kernel.as_str());
    out.append(piece.as_str());
    out.append(",\n    \"architecture\": ");
    let piece = quoted(info.architecture.as_str());
    out.append(piece.as_str());
    out.append("\n  },\n");
    proof {
        assert(out@ =~= spec_json_os(*info));
    }
    out
}

fn json_network(info: &SystemInfo) -> (r: String)
    ensures
        r@ == spec_json_network(*info),
{
    let mut out = "  \"network\": {\n    \"hostname\": ".to_owned();
    let piece = quoted(info.hostname.as_str());
    out.append(piece.as_str());
    out.append(",\n    \"machine_ip\": ");
    let piece = opt_str_json(&info.machine_ip);
    out.append(piece.as_str());
    out.append(",\n    \"client_ip\": ");
    let piece = opt_str_json(&info.client_ip);
    out.append(piece.as_str());
    out.append(",\n    \"dns_servers\": [");
    let piece = string_array_json(&info.dns_servers);
    out.append(piece.as_str());
    out.append("]\n  },\n");
    proof {
        assert(out@ =~= spec_json_network(*info));
    }
    out
}

fn json_cpu(info: &SystemInfo) -> (r: String)
    ensures
        r@ == spec_json_cpu(*info),
{
    let mut out = "  \"cpu\": {\n    \"processor\": ".to_owned();
    let piece = quoted(info.processor.as_str());
    out.append(piece.as_str());
    out.append(",\n    \"cores\": ");
    let piece = u64_to_string(info.cores as u64);
    out.append(piece.as_str());
    out.append(",\n    \"sockets\": ");
    let piece = opt_dec_json(info.sockets);
    out.append(piece.as_str());
    out.append(",\n    \"hypervisor\": ");
    let piece = opt_str_json(&info.hypervisor);
    out.append(piece.as_str());
    out.append(",\n    \"frequency_ghz\": ");
    let piece = fixed2_string(tenths_half_up(info.cpu_freq_mhz));
    out.append(piece.as_str());
    out.append(",\n    \"load_1m\": ");
    let piece = opt_fixed2_json(info.load_1m);
    out.append(piece.as_str());
    out.append(",\n    \"load_5m\": ");
    let piece = opt_fixed2_json(info.load_5m);
    out.append(piece.as_str());
    out.append(",\n    \"load_15m\": ");
    let piece = opt_fixed2_json(info.load_15m);
    out.append(piece.as_str());
    out.append(",\n    \"gpus\": [");
    let piece = string_array_json(&info.gpus);
    out.append(piece.as_str());
    out.append("]\n  },\n");
    proof {
        assert(out@ =~= spec_json_cpu(*info));
    }
    out
}

fn json_disk(info: &SystemInfo) -> (r: String)
    ensures
        r@ == spec_json_disk(*info),
{
    let mut out = "  \"disk\": {\n    \"used_bytes\": ".to_owned();
    let piece = u64_to_string(info.disk_used_bytes);
    out.append(piece.as_str());
    out.append(",\n    \"total_bytes\": ");
    let piece = u64_to_string(info.disk_total_bytes);
    out.append(piece.as_str());
    out.append(",\n    \"percent\": ");
    let piece = fixed2_string(info.disk_percent_hundredths);
    out.append(piece.as_str());
    out.append("\n  },\n");
    proof {
        assert(out@ =~= spec_json_disk(*info));
    }
    out
}

fn json_memory(info: &SystemInfo) -> (r: String)
    ensures
        r@ == spec_json_memory(*info),
{
    let mut out = "  \"memory\": {\n    \"used_bytes\": ".to_owned();
    let piece = u64_to_string(info.mem_used_bytes);
    out.append(piece.as_str());
    out.append(",\n    \"total_bytes\": ");
    let piece = u64_to_string(info.mem_total_bytes);
    out.append(piece.as_str());
    out.append(",\n    \"percent\": ");
    let piece = fixed2_string(info.mem_percent_hundredths);
    out.append(piece.as_str());
    out.append("\n  },\n");
    proof {
        assert(out@ =~= spec_json_memory(*info));
    }
    out
}

fn json_session(info: &SystemInfo) -> (r: String)
    ensures
        r@ == spec_json_session(*info),
{
    let mut out = "  \"session\": {\n    \"username\": ".to_owned();
    let piece = quoted(info.username.as_str());
    out.append(piece.as_str());
    out.append(",\n    \"last_login\": ");
    let piece = opt_str_json(&info.last_login);
    out.append(piece.as_str());
    out.append(",\n    \"uptime_seconds\": ");
    let piece = u64_to_string(info.uptime_seconds);
    out.append(piece.as_str());
    out.append(",\n    \"shell\": ");
    let piece = opt_str_json(&info.shell);
    out.append(piece.as_str());
    out.append(",\n    \"terminal\": ");
    let piece = opt_str_json(&info.terminal);
    out.append(piece.as_str());
    out.append(",\n    \"locale\": ");
    let piece = opt_str_json(&info.locale);
    out.append(piece.as_str());
    out.append(",\n    \"battery\": ");
    let piece = opt_str_json(&info.battery);
    out.append(piece.as_str());
    out.append("\n  }\n}");
    proof {
        assert(out@ =~= spec_json_session(*info));
    }
    out
}

/// Generate the JSON-format report.
pub fn generate_json(info: &SystemInfo) -> (r: String)
    ensures
        r@ == spec_generate_json(*info),
{
    let mut out = json_os(info);
    let piece = json_network(info);
    out.append(piece.as_str());
    let piece = json_cpu(info);
    out.append(piece.as_str());
    let piece = json_disk(info);
    out.append(piece.as_str());
    let piece = json_memory(info);
    out.append(piece.as_str());
    let piece = json_session(info);
    out.append(piece.as_str());
    proof {
        assert(out@ =~= spec_generate_json(*info));
    }
    out
}

/// Generate the complete report in the configured format.
pub fn generate(info: &SystemInfo, config: &Config) -> (r: String)
    ensures
        config.format == OutputFormat::Table ==> r@ == spec_generate_table(*info, *config),
        config.format == OutputFormat::Json ==> r@ == spec_generate_json(*info),
{
    if config.format == OutputFormat::Table {
        generate_table(info, config)
    } else {
        generate_json(info)
    }
}

} // verus!
