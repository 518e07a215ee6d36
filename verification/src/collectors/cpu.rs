//! CPU information collector.
//!
//! Sampling (including the settling delay that accurate usage figures
//! need in full mode) happens at the process edge; the functions here
//! turn the raw sample into the typed record and enforce the fast-mode
//! skip rules: the socket probe is only consulted in full mode.

use vstd::prelude::*;
use vstd::string::*;
use crate::collectors::CollectMode;
use crate::numfmt::{spec_fixed2, fixed2_string, spec_dec, u64_to_string};
use crate::text::{
    all_digits, dec_val, parse_u64, spec_split, spec_starts_with, spec_tokens, spec_trim, split_on,
    starts_with_str, tokens, trim_str, views_of,
};

verus! {

/// CPU information.
#[derive(Debug, Clone)]
pub struct CpuInfo {
    /// CPU brand/model name.
    pub brand: String,
    /// Number of physical cores.
    pub physical_cores: usize,
    /// Number of logical cores (threads).
    pub logical_cores: usize,
    /// Number of CPU sockets (`None` when skipped in fast mode).
    pub sockets: Option<u64>,
    /// CPU frequency in MHz.
    pub frequency_mhz: u64,
    /// Current CPU usage in hundredths of a percent (0 ..= 10000).
    pub usage_hundredths: u64,
    /// 1-minute load, in hundredths of a percent of total capacity.
    pub load_1m: Option<u64>,
    /// 5-minute load, in hundredths of a percent of total capacity.
    pub load_5m: Option<u64>,
    /// 15-minute load, in hundredths of a percent of total capacity.
    pub load_15m: Option<u64>,
}

impl CpuInfo {
    /// Frequency as `"g.hh GHz"` (megahertz rescaled, rounded half up).
    pub fn frequency_ghz(&self) -> (r: String)
        ensures
            r@ == spec_fixed2(((self.frequency_mhz + 5) / 10) as nat) + " GHz"@,
    {
        let mut r = fixed2_string(crate::numfmt::tenths_half_up(self.frequency_mhz));
        r.append(" GHz");
        r
    }

    /// Core count as `"N cores"`, or `"N cores / M threads"` when the
    /// logical count differs from the physical one.
    pub fn cores_string(&self) -> (r: String)
        ensures
            self.physical_cores == self.logical_cores ==> r@ == spec_dec(
                self.physical_cores as nat,
            ) + " cores"@,
            self.physical_cores != self.logical_cores ==> r@ == spec_dec(
                self.physical_cores as nat,
            ) + " cores / "@ + spec_dec(self.logical_cores as nat) + " threads"@,
    {
        if self.physical_cores == self.logical_cores {
            let mut r = u64_to_string(self.physical_cores as u64);
            r.append(" cores");
            r
        } else {
            let mut r = u64_to_string(self.physical_cores as u64);
            r.append(" cores / ");
            let t = u64_to_string(self.logical_cores as u64);
            r.append(t.as_str());
            r.append(" threads");
            r
        }
    }
}

/// A decimal number with an optional fraction (`"1.25"`), read as
/// hundredths; `None` when the text is not such a number or overflows.
pub open spec fn spec_parse_hundredths(s: Seq<char>) -> Option<nat> {
    let parts = spec_split(s, '.');
    if parts.len() == 1 {
        if s.len() > 0 && all_digits(s) && dec_val(s) * 100 + 99 <= u64::MAX {
            Some(dec_val(s) * 100)
        } else {
            Option::<nat>::None
        }
    } else if parts.len() == 2 {
        let ip = parts[0];
        let fp = parts[1];
        if ip.len() > 0 && all_digits(ip) && all_digits(fp) && dec_val(ip) * 100 + 99 <= u64::MAX {
            Some(dec_val(ip) * 100 + spec_frac_hundredths(fp))
        } else {
            Option::<nat>::None
        }
    } else {
        Option::<nat>::None
    }
}

/// The first two fraction digits read as hundredths (`"5"` is fifty,
/// `"527"` is fifty-two, the empty fraction is zero).
pub open spec fn spec_frac_hundredths(fp: Seq<char>) -> nat {
    if fp.len() == 0 {
        0
    } else if fp.len() == 1 {
        dec_val(fp) * 10
    } else {
        dec_val(fp.take(2))
    }
}

/// Parse a decimal number with up to unlimited fraction digits into
/// hundredths, keeping two digits of the fraction.
pub fn parse_hundredths(s: &str) -> (r: Option<u64>)
    ensures
        match r {
            Some(v) => spec_parse_hundredths(s@) == Some(v as nat),
            None => spec_parse_hundredths(s@) is None,
        },
{
    let parts = split_on(s, '.');
    if parts.len() == 1 {
        proof {
            assert(views_of(parts@)[0] == parts@[0]@);
        }
        match parse_u64(parts[0].as_str()) {
            Some(v) => {
                proof {
                    assert(spec_split(s@, '.')[0] == parts@[0]@);
                    lemma_split_single(s@, '.');
                }
                if v <= (u64::MAX - 99) / 100 {
                    proof {
                        assert(parts@[0]@ == s@);
                        assert(v == dec_val(s@));
                        assert(spec_parse_hundredths(s@) == Some((v * 100) as nat));
                    }
                    Some(v * 100)
                } else {
                    None
                }
            },
            None => {
                proof {
                    lemma_split_single(s@, '.');
                }
                None
            },
        }
    } else if parts.len() == 2 {
        proof {
            assert(views_of(parts@)[0] == parts@[0]@);
            assert(views_of(parts@)[1] == parts@[1]@);
        }
        let ip_val = parse_u64(parts[0].as_str());
        let fp: &String = &parts[1];
        let fpn = fp.as_str().unicode_len();
        let fp_digits = crate::text::all_digits_exec(fp.as_str());
        match ip_val {
            Some(iv) => {
                if !fp_digits {
                    return None;
                }
                if iv > (u64::MAX - 99) / 100 {
                    return None;
                }
                let frac: u64 = if fpn == 0 {
                    0
                } else if fpn == 1 {
                    proof {
                        assert(crate::text::is_digit(fp@[0]));
                    }
                    let d0 = (fp.as_str().get_char(0) as u32 - 48) as u64;
                    proof {
                        assert(fp@.take(1).drop_last() =~= Seq::<char>::empty());
                        assert(fp@.take(1).last() == fp@[0]);
                        assert(fp@.take(1) =~= fp@);
                        assert(dec_val(Seq::<char>::empty()) == 0);
                        assert(dec_val(fp@) == crate::text::digit_val(fp@[0]));
                    }
                    d0 * 10
                } else {
                    proof {
                        assert(crate::text::is_digit(fp@[0]));
                        assert(crate::text::is_digit(fp@[1]));
                    }
                    let d0 = (fp.as_str().get_char(0) as u32 - 48) as u64;
                    let d1 = (fp.as_str().get_char(1) as u32 - 48) as u64;
                    proof {
                        let t = fp@.take(2);
                        assert(t.drop_last() =~= fp@.take(1));
                        assert(fp@.take(1).drop_last() =~= Seq::<char>::empty());
                        assert(fp@.take(1).last() == fp@[0]);
                        assert(t.last() == fp@[1]);
                        assert(dec_val(Seq::<char>::empty()) == 0);
                        assert(dec_val(fp@.take(1)) == crate::text::digit_val(fp@[0]));
                        assert(dec_val(fp@.take(2)) == crate::text::digit_val(fp@[0]) * 10
                            + crate::text::digit_val(fp@[1]));
                    }
                    d0 * 10 + d1
                };
                proof {
                    assert(frac <= 99);
                    assert(parts@[0]@ == spec_split(s@, '.')[0]);
                    assert(parts@[1]@ == spec_split(s@, '.')[1]);
                    assert(iv == dec_val(spec_split(s@, '.')[0]));
                    assert(frac as nat == spec_frac_hundredths(spec_split(s@, '.')[1]));
                    assert(spec_parse_hundredths(s@) == Some((iv * 100 + frac) as nat));
                }
                Some(iv * 100 + frac)
            },
            None => None,
        }
    } else {
        None
    }
}

/// A split on a separator yields one part exactly when that part is the
/// whole input.
proof fn lemma_split_single(s: Seq<char>, sep: char)
    requires
        spec_split(s, sep).len() == 1,
    ensures
        spec_split(s, sep)[0] == s,
{
    let k = crate::text::sep_prefix(s, sep) as int;
    if k < s.len() {
        crate::text::lemma_split_len(s.skip(k + 1), sep);
    }
}

/// A load figure normalized to hundredths of a percent of total
/// capacity, capped at one hundred percent.
pub open spec fn spec_load_percent(load_hundredths: nat, cores: nat) -> nat {
    if cores == 0 {
        10000
    } else if load_hundredths * 100 / cores > 10000 {
        10000
    } else {
        load_hundredths * 100 / cores
    }
}

/// Normalize a load-average figure (in hundredths) to a percentage of
/// the logical core count, capped at 100%.
pub fn load_percent(load_hundredths: u64, cores: usize) -> (r: u64)
    ensures
        r == spec_load_percent(load_hundredths as nat, cores as nat),
        r <= 10000,
{
    if cores == 0 {
        return 10000;
    }
    let p = (load_hundredths as u128 * 100) / (cores as u128);
    if p > 10000 {
        10000
    } else {
        p as u64
    }
}

/// What a line of the socket-count listing contributes: the parsed count
/// for a `"Socket(s):"` line, absence otherwise.
pub open spec fn spec_socket_line(l: Seq<char>) -> Option<nat> {
    if spec_starts_with(l, "Socket(s):"@) {
        let parts = spec_split(l, ':');
        if parts.len() >= 2 {
            let v = spec_trim(parts[1]);
            if v.len() > 0 && all_digits(v) && dec_val(v) <= u64::MAX {
                Some(dec_val(v))
            } else {
                Option::<nat>::None
            }
        } else {
            Option::<nat>::None
        }
    } else {
        Option::<nat>::None
    }
}

/// Read the socket count out of the CPU-listing text: the first
/// `"Socket(s):"` line that carries a number wins; without one the count
/// falls back to one socket.
pub fn socket_count_from_lscpu(text: &str) -> (r: u64)
    ensures
        ({
            let lines = spec_split(text@, '\n');
            (exists|i: int|
                0 <= i < lines.len() && spec_socket_line(#[trigger] lines[i]) == Some(r as nat)
                    && (forall|k: int| 0 <= k < i ==> spec_socket_line(#[trigger] lines[k]) is None))
                || (r == 1 && forall|k: int|
                0 <= k < lines.len() ==> spec_socket_line(#[trigger] lines[k]) is None)
        }),
{
    let lines = split_on(text, '\n');
    let ghost lview = spec_split(text@, '\n');
    let mut i: usize = 0;
    while i < lines.len()
        invariant
            lview == views_of(lines@),
            lview == spec_split(text@, '\n'),
            forall|k: int| 0 <= k < i ==> spec_socket_line(#[trigger] lview[k]) is None,
            i <= lines@.len(),
        decreases lines@.len() - i,
    {
        proof {
            assert(views_of(lines@)[i as int] == lines@[i as int]@);
        }
        let line: &String = &lines[i];
        if starts_with_str(line.as_str(), "Socket(s):") {
            let parts = split_on(line.as_str(), ':');
            if parts.len() >= 2 {
                proof {
                    assert(views_of(parts@)[1] == parts@[1]@);
                }
                let v = trim_str(parts[1].as_str());
                match parse_u64(v.as_str()) {
                    Some(n) => {
                        proof {
                            assert(spec_socket_line(lview[i as int]) == Some(n as nat));
                        }
                        return n;
                    },
                    None => {},
                }
            }
        }
        i = i + 1;
    }
    1
}

/// Read the socket count from a probe that prints one number (the
/// package count); absent or malformed output means one socket, and a
/// reported zero is raised to one.
pub fn socket_count_from_value(text: &str) -> (r: u64)
    ensures
        ({
            let v = spec_trim(text@);
            if v.len() > 0 && all_digits(v) && dec_val(v) <= u64::MAX && dec_val(v) >= 1 {
                r == dec_val(v)
            } else if v.len() > 0 && all_digits(v) && dec_val(v) == 0 {
                r == 1
            } else {
                r == 1
            }
        }),
{
    let v = trim_str(text);
    match parse_u64(v.as_str()) {
        Some(n) => if n >= 1 {
            n
        } else {
            1
        },
        None => 1,
    }
}

/// Average of the per-core usage figures (whole percents, each clamped
/// to 100), in hundredths of a percent.
pub open spec fn spec_usage_avg(usages: Seq<u64>) -> nat {
    if usages.len() == 0 {
        0
    } else {
        spec_capped_sum(usages) * 100 / usages.len()
    }
}

/// Sum of the usage figures, each clamped to 100.
pub open spec fn spec_capped_sum(usages: Seq<u64>) -> nat
    decreases usages.len(),
{
    if usages.len() == 0 {
        0
    } else {
        spec_capped_sum(usages.drop_last()) + if usages.last() > 100 {
            100nat
        } else {
            usages.last() as nat
        }
    }
}

/// Average the per-core usage samples into one usage percentage, in
/// hundredths, clamping each sample to 100%.
pub fn usage_average(usages: &Vec<u64>) -> (r: u64)
    ensures
        r == spec_usage_avg(usages@),
        r <= 10000,
{
    let n = usages.len();
    if n == 0 {
        return 0;
    }
    let mut sum: u128 = 0;
    let mut i: usize = 0;
    while i < n
        invariant
            n == usages@.len(),
            i <= n,
            sum == spec_capped_sum(usages@.take(i as int)),
            sum <= i * 100,
        decreases n - i,
    {
        let v = usages[i];
        let capped: u64 = if v > 100 {
            100
        } else {
            v
        };
        proof {
            assert(usages@.take(i + 1).drop_last() =~= usages@.take(i as int));
            assert(usages@.take(i + 1).last() == usages@[i as int]);
        }
        sum = sum + (capped as u128);
        i = i + 1;
    }
    proof {
        assert(usages@.take(n as int) =~= usages@);
    }
    let avg = (sum * 100) / (n as u128);
    proof {
        vstd::arithmetic::div_mod::lemma_div_is_ordered(
            sum as int * 100,
            n as int * 100 * 100,
            n as int,
        );
        vstd::arithmetic::div_mod::lemma_div_by_multiple(10000, n as int);
    }
    avg as u64
}

/// The load-average triple for hosts that publish load figures: parse
/// the kernel text, else take the caller's fallback triple, else zeros.
/// Loads are always collected on such hosts, in both modes.
pub fn load_averages_unix(
    proc_text: Option<String>,
    fallback: Option<(u64, u64, u64)>,
    cores: usize,
) -> (r: (Option<u64>, Option<u64>, Option<u64>))
    ensures
        r.0 is Some && r.1 is Some && r.2 is Some,
        ({
            let toks = match proc_text {
                Some(t) => spec_tokens(t@),
                None => Seq::<Seq<char>>::empty(),
            };
            if toks.len() >= 3 {
                r.0 == Some(
                    spec_load_percent(or_zero(spec_parse_hundredths(toks[0])), cores as nat) as u64,
                ) && r.1 == Some(
                    spec_load_percent(or_zero(spec_parse_hundredths(toks[1])), cores as nat) as u64,
                ) && r.2 == Some(
                    spec_load_percent(or_zero(spec_parse_hundredths(toks[2])), cores as nat) as u64,
                )
            } else {
                match fallback {
                    Some(f) => r.0 == Some(spec_load_percent(f.0 as nat, cores as nat) as u64)
                        && r.1 == Some(spec_load_percent(f.1 as nat, cores as nat) as u64) && r.2
                        == Some(spec_load_percent(f.2 as nat, cores as nat) as u64),
                    None => r.0 == Some(0u64) && r.1 == Some(0u64) && r.2 == Some(0u64),
                }
            }
        }),
{
    match proc_text {
        Some(t) => {
            let toks = tokens(t.as_str());
            if toks.len() >= 3 {
                proof {
                    assert(views_of(toks@)[0] == toks@[0]@);
                    assert(views_of(toks@)[1] == toks@[1]@);
                    assert(views_of(toks@)[2] == toks@[2]@);
                }
                let l1 = unwrap_or_zero(parse_hundredths(toks[0].as_str()));
                let l5 = unwrap_or_zero(parse_hundredths(toks[1].as_str()));
                let l15 = unwrap_or_zero(parse_hundredths(toks[2].as_str()));
                return (
                    Some(load_percent(l1, cores)),
                    Some(load_percent(l5, cores)),
                    Some(load_percent(l15, cores)),
                );
            }
            load_fallback(fallback, cores)
        },
        None => load_fallback(fallback, cores),
    }
}

/// A parse result, or zero where parsing failed.
pub open spec fn or_zero(v: Option<nat>) -> nat {
    match v {
        Some(n) => n,
        None => 0,
    }
}

fn unwrap_or_zero(v: Option<u64>) -> (r: u64)
    ensures
        r as nat == or_zero(
            match v {
                Some(n) => Some(n as nat),
                None => None,
            },
        ),
{
    match v {
        Some(n) => n,
        None => 0,
    }
}

fn load_fallback(fallback: Option<(u64, u64, u64)>, cores: usize) -> (r: (
    Option<u64>,
    Option<u64>,
    Option<u64>,
))
    ensures
        match fallback {
            Some(f) => r.0 == Some(spec_load_percent(f.0 as nat, cores as nat) as u64) && r.1
                == Some(spec_load_percent(f.1 as nat, cores as nat) as u64) && r.2 == Some(
                spec_load_percent(f.2 as nat, cores as nat) as u64,
            ),
            None => r.0 == Some(0u64) && r.1 == Some(0u64) && r.2 == Some(0u64),
        },
{
    match fallback {
        Some(f) => (
            Some(load_percent(f.0, cores)),
            Some(load_percent(f.1, cores)),
            Some(load_percent(f.2, cores)),
        ),
        None => (Some(0), Some(0), Some(0)),
    }
}

/// The load-average triple for hosts without native load figures: the
/// current usage stands in for all three in full mode, and in fast mode
/// they are omitted, because the usage sample itself was not settled.
pub fn load_averages_substitute(mode: CollectMode, usage_hundredths: u64) -> (r: (
    Option<u64>,
    Option<u64>,
    Option<u64>,
))
    ensures
        mode == CollectMode::Fast ==> r.0 is None && r.1 is None && r.2 is None,
        mode == CollectMode::Full ==> r.0 == Some(usage_hundredths) && r.1 == Some(
            usage_hundredths,
        ) && r.2 == Some(usage_hundredths),
{
    if mode == CollectMode::Fast {
        (None, None, None)
    } else {
        (Some(usage_hundredths), Some(usage_hundredths), Some(usage_hundredths))
    }
}

/// Collect the CPU record from one sample's plain values. The sampling
/// itself (and the settling delay accurate usage needs in full mode)
/// happens at the process edge; assembly cannot fail. The socket probe
/// is consulted only in full mode: in fast mode the field is absent no
/// matter what the caller passes.
pub fn collect(
    mode: CollectMode,
    brand: Option<String>,
    physical_cores: Option<usize>,
    logical_cores: usize,
    frequency_mhz: Option<u64>,
    usages: &Vec<u64>,
    socket_probe: Option<u64>,
    loads: (Option<u64>, Option<u64>, Option<u64>),
) -> (r: Result<CpuInfo, crate::error::AppError>)
    ensures
        r matches Ok(o) && {
            &&& mode == CollectMode::Fast ==> o.sockets is None
            &&& mode == CollectMode::Full ==> o.sockets == Some(
                match socket_probe {
                    Some(v) => v,
                    None => 1u64,
                },
            )
            &&& o.brand@ == (match brand {
                Some(b) => b@,
                None => "Unknown CPU"@,
            })
            &&& o.physical_cores == (match physical_cores {
                Some(pc) => pc,
                None => logical_cores,
            })
            &&& o.logical_cores == logical_cores
            &&& o.frequency_mhz == (match frequency_mhz {
                Some(f) => f,
                None => 0u64,
            })
            &&& o.usage_hundredths == spec_usage_avg(usages@) && o.usage_hundredths <= 10000
            &&& o.load_1m == loads.0 && o.load_5m == loads.1 && o.load_15m == loads.2
        },
{
    Ok(
        cpu_info_from_parts(
            mode,
            brand,
            physical_cores,
            logical_cores,
            frequency_mhz,
            usages,
            socket_probe,
            loads,
        ),
    )
}

/// Assemble the CPU record from one sample. The socket probe is
/// consulted only in full mode: in fast mode the field is absent no
/// matter what the caller passes (the probe spawns a subprocess and is
/// skipped for speed).
pub fn cpu_info_from_parts(
    mode: CollectMode,
    brand: Option<String>,
    physical_cores: Option<usize>,
    logical_cores: usize,
    frequency_mhz: Option<u64>,
    usages: &Vec<u64>,
    socket_probe: Option<u64>,
    loads: (Option<u64>, Option<u64>, Option<u64>),
) -> (o: CpuInfo)
    ensures
        o.brand@ == match brand {
            Some(b) => b@,
            None => "Unknown CPU"@,
        },
        o.physical_cores == match physical_cores {
            Some(p) => p,
            None => logical_cores,
        },
        o.logical_cores == logical_cores,
        o.frequency_mhz == match frequency_mhz {
            Some(f) => f,
            None => 0u64,
        },
        o.usage_hundredths == spec_usage_avg(usages@),
        o.usage_hundredths <= 10000,
        mode == CollectMode::Fast ==> o.sockets is None,
        mode == CollectMode::Full ==> o.sockets == Some(
            match socket_probe {
                Some(v) => v,
                None => 1u64,
            },
        ),
        o.load_1m == loads.0 && o.load_5m == loads.1 && o.load_15m == loads.2,
{
    let usage_hundredths = usage_average(usages);
    let sockets: Option<u64> = if mode == CollectMode::Fast {
        None
    } else {
        match socket_probe {
            Some(v) => Some(v),
            None => Some(1),
        }
    };
    CpuInfo {
        brand: match brand {
            Some(b) => b,
            None => "Unknown CPU".to_owned(),
        },
        physical_cores: match physical_cores {
            Some(p) => p,
            None => logical_cores,
        },
        logical_cores,
        sockets,
        frequency_mhz: match frequency_mhz {
            Some(f) => f,
            None => 0,
        },
        usage_hundredths,
        load_1m: loads.0,
        load_5m: loads.1,
        load_15m: loads.2,
    }
}

} // verus!
