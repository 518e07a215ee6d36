//! Network information collector.
//!
//! The probes that find addresses are textual commands or management
//! queries run at the process edge; the functions here parse their
//! output. DNS server lists keep first-seen-wins order, are
//! de-duplicated, and are capped at five entries.

use vstd::prelude::*;
use vstd::string::*;
use crate::error::AppError;
use crate::numfmt::{format_bytes_gb_string, spec_format_bytes_gb};
use crate::text::{
    spec_contains, spec_split, spec_starts_with, spec_tokens, spec_trim, contains_str, split_on,
    starts_with_str, str_eq, tokens, trim_str, views_of,
};

verus! {

/// Network information.
#[derive(Debug, Clone)]
pub struct NetworkInfo {
    /// Machine's primary IP address, absent when no probe found one.
    pub machine_ip: Option<String>,
    /// Client IP (from the SSH session variables), if any.
    pub client_ip: Option<String>,
    /// DNS server addresses: first-seen order, no duplicates, at most five.
    pub dns_servers: Vec<String>,
}

/// Assemble the network record from the probe results.
pub fn collect_network_info(
    machine_ip: Option<String>,
    client_ip: Option<String>,
    dns_servers: Vec<String>,
) -> (r: Result<NetworkInfo, AppError>)
    ensures
        r matches Ok(n) && n == (NetworkInfo { machine_ip, client_ip, dns_servers }),
{
    Ok(NetworkInfo { machine_ip, client_ip, dns_servers })
}

/// What the session variables say the client address is: the first
/// token of the primary variable, else of the secondary one.
pub open spec fn spec_client_ip(ssh_client: Option<String>, ssh_connection: Option<String>) -> Option<
    Seq<char>,
> {
    let t1 = match ssh_client {
        Some(c) => spec_tokens(c@),
        None => Seq::<Seq<char>>::empty(),
    };
    if t1.len() > 0 {
        Some(t1[0])
    } else {
        let t2 = match ssh_connection {
            Some(c) => spec_tokens(c@),
            None => Seq::<Seq<char>>::empty(),
        };
        if t2.len() > 0 {
            Some(t2[0])
        } else {
            None
        }
    }
}

/// The client address carried by an SSH session variable: the first
/// token of `SSH_CLIENT`, else of `SSH_CONNECTION`, else absent.
pub fn client_ip_from_env(ssh_client: Option<String>, ssh_connection: Option<String>) -> (r: Option<
    String,
>)
    ensures
        match r {
            Some(ip) => spec_client_ip(ssh_client, ssh_connection) == Some(ip@),
            None => spec_client_ip(ssh_client, ssh_connection) is None,
        },
{
    match &ssh_client {
        Some(c) => {
            let toks = tokens(c.as_str());
            if toks.len() > 0 {
                proof {
                    assert(views_of(toks@)[0] == toks@[0]@);
                }
                let mut toks = toks;
                let first = toks.remove(0);
                return Some(first);
            }
        },
        None => {},
    }
    match &ssh_connection {
        Some(c) => {
            let toks = tokens(c.as_str());
            if toks.len() > 0 {
                proof {
                    assert(views_of(toks@)[0] == toks@[0]@);
                }
                let mut toks = toks;
                let first = toks.remove(0);
                return Some(first);
            }
            None
        },
        None => None,
    }
}

/// True for an address worth reporting: non-empty and not loopback.
pub open spec fn usable_ip(ip: Seq<char>) -> bool {
    ip.len() > 0 && ip != "127.0.0.1"@
}

fn usable_ip_exec(ip: &str) -> (r: bool)
    ensures
        r == usable_ip(ip@),
{
    ip.unicode_len() > 0 && !str_eq(ip, "127.0.0.1")
}

/// The machine address reported by a probe that prints it as the first
/// word of its output (or as its whole, trimmed output).
pub fn machine_ip_from_first_token(text: &str) -> (r: Option<String>)
    ensures
        match r {
            Some(ip) => spec_tokens(text@).len() > 0 && ip@ == spec_tokens(text@)[0] && usable_ip(
                ip@,
            ),
            None => spec_tokens(text@).len() == 0 || !usable_ip(spec_tokens(text@)[0]),
        },
{
    let toks = tokens(text);
    if toks.len() > 0 {
        proof {
            assert(views_of(toks@)[0] == toks@[0]@);
        }
        let mut toks = toks;
        let first = toks.remove(0);
        if usable_ip_exec(first.as_str()) {
            return Some(first);
        }
        return None;
    }
    None
}

/// The source address in routing-probe output: the token right after
/// the `src` marker.
pub fn machine_ip_from_route(text: &str) -> (r: Option<String>)
    ensures
        ({
            let toks = spec_tokens(text@);
            match r {
                Some(ip) => exists|i: int|
                    0 <= i < toks.len() - 1 && #[trigger] toks[i] == "src"@ && ip@ == toks[i + 1]
                        && (forall|k: int| 0 <= k < i ==> #[trigger] toks[k] != "src"@),
                None => forall|i: int|
                    0 <= i < toks.len() - 1 ==> #[trigger] toks[i] != "src"@,
            }
        }),
{
    let toks = tokens(text);
    let n = toks.len();
    if n == 0 {
        return None;
    }
    let mut i: usize = 0;
    while i < n - 1
        invariant
            n == toks@.len(),
            views_of(toks@) == spec_tokens(text@),
            i <= n - 1,
            n >= 1,
            forall|k: int| 0 <= k < i ==> #[trigger] spec_tokens(text@)[k] != "src"@,
        decreases n - i,
    {
        proof {
            assert(views_of(toks@)[i as int] == toks@[i as int]@);
            assert(views_of(toks@)[i + 1] == toks@[i + 1]@);
        }
        if str_eq(toks[i].as_str(), "src") {
            let ip = toks[i + 1].clone();
            return Some(ip);
        }
        i = i + 1;
    }
    None
}

/// What one candidate line contributes to a de-duplicated, capped list:
/// the accumulator unchanged, or the candidate appended.
pub open spec fn dedup_step(acc: Seq<Seq<char>>, cand: Option<Seq<char>>) -> Seq<Seq<char>> {
    match cand {
        Some(ip) => if acc.len() < 5 && !acc.contains(ip) {
            acc.push(ip)
        } else {
            acc
        },
        None => acc,
    }
}

/// Fold the candidates into a first-seen-wins, de-duplicated list of at
/// most five entries.
pub open spec fn spec_dedup_cap5(cands: Seq<Option<Seq<char>>>, acc: Seq<Seq<char>>) -> Seq<
    Seq<char>,
>
    decreases cands.len(),
{
    if cands.len() == 0 {
        acc
    } else {
        spec_dedup_cap5(cands.skip(1), dedup_step(acc, cands[0]))
    }
}

/// Views of an optional-string vector.
pub open spec fn opt_views_of(v: Seq<Option<String>>) -> Seq<Option<Seq<char>>> {
    v.map_values(
        |t: Option<String>|
            match t {
                Some(s) => Some(s@),
                None => None,
            },
    )
}

fn list_contains(v: &Vec<String>, s: &str) -> (r: bool)
    ensures
        r == views_of(v@).contains(s@),
{
    let mut i: usize = 0;
    while i < v.len()
        invariant
            i <= v@.len(),
            forall|k: int| 0 <= k < i ==> views_of(v@)[k] != s@,
        decreases v@.len() - i,
    {
        proof {
            assert(views_of(v@)[i as int] == v@[i as int]@);
        }
        if str_eq(v[i].as_str(), s) {
            proof {
                assert(views_of(v@)[i as int] == s@);
            }
            return true;
        }
        i = i + 1;
    }
    proof {
        if views_of(v@).contains(s@) {
            let k = choose|k: int| 0 <= k < views_of(v@).len() && views_of(v@)[k] == s@;
            assert(views_of(v@)[k] != s@);
        }
    }
    false
}

/// De-duplicate the candidate addresses in first-seen order, keeping at
/// most five.
pub fn dedup_cap5(cands: &Vec<Option<String>>) -> (out: Vec<String>)
    ensures
        views_of(out@) == spec_dedup_cap5(opt_views_of(cands@), Seq::<Seq<char>>::empty()),
        out@.len() <= 5,
{
    let mut out: Vec<String> = Vec::new();
    let mut i: usize = 0;
    proof {
        assert(opt_views_of(cands@).skip(0) =~= opt_views_of(cands@));
        assert(views_of(out@) =~= Seq::<Seq<char>>::empty());
    }
    while i < cands.len()
        invariant
            i <= cands@.len(),
            out@.len() <= 5,
            spec_dedup_cap5(opt_views_of(cands@), Seq::<Seq<char>>::empty()) == spec_dedup_cap5(
                opt_views_of(cands@).skip(i as int),
                views_of(out@),
            ),
        decreases cands@.len() - i,
    {
        proof {
            assert(opt_views_of(cands@)[i as int] == (match cands@[i as int] {
                Some(s) => Some(s@),
                None => None,
            }));
            assert(opt_views_of(cands@).skip(i as int)[0] == opt_views_of(cands@)[i as int]);
            assert(opt_views_of(cands@).skip(i as int).skip(1) =~= opt_views_of(cands@).skip(
                i + 1,
            ));
        }
        let cand: &Option<String> = &cands[i];
        match cand {
            Some(ip) => {
                if out.len() < 5 && !list_contains(&out, ip.as_str()) {
                    let owned = ip.clone();
                    proof {
                        assert(views_of(out@.push(owned)) =~= views_of(out@).push(owned@));
                    }
                    out.push(owned);
                }
            },
            None => {},
        }
        i = i + 1;
    }
    proof {
        assert(opt_views_of(cands@).skip(cands@.len() as int) =~= Seq::<
            Option<Seq<char>>,
        >::empty());
    }
    out
}

/// The candidate a resolver-configuration line contributes: the second
/// token of a line whose first token is `nameserver`.
pub open spec fn resolv_line_cand(l: Seq<char>) -> Option<Seq<char>> {
    let toks = spec_tokens(l);
    if toks.len() >= 2 && toks[0] == "nameserver"@ {
        Some(toks[1])
    } else {
        None
    }
}

fn resolv_cands(text: &str) -> (cands: Vec<Option<String>>)
    ensures
        opt_views_of(cands@) == spec_split(text@, '\n').map_values(
            |l: Seq<char>| resolv_line_cand(l),
        ),
{
    let lines = split_on(text, '\n');
    let ghost goal = spec_split(text@, '\n').map_values(|l: Seq<char>| resolv_line_cand(l));
    let mut cands: Vec<Option<String>> = Vec::new();
    let mut i: usize = 0;
    while i < lines.len()
        invariant
            views_of(lines@) == spec_split(text@, '\n'),
            goal == spec_split(text@, '\n').map_values(|l: Seq<char>| resolv_line_cand(l)),
            i <= lines@.len(),
            opt_views_of(cands@) =~= goal.take(i as int),
        decreases lines@.len() - i,
    {
        proof {
            assert(views_of(lines@)[i as int] == lines@[i as int]@);
            assert(goal[i as int] == resolv_line_cand(lines@[i as int]@));
        }
        let line: &String = &lines[i];
        let toks = tokens(line.as_str());
        let cand: Option<String> = if toks.len() >= 2 {
            proof {
                assert(views_of(toks@)[0] == toks@[0]@);
                assert(views_of(toks@)[1] == toks@[1]@);
            }
            if str_eq(toks[0].as_str(), "nameserver") {
                Some(toks[1].clone())
            } else {
                None
            }
        } else {
            None
        };
        proof {
            assert(opt_views_of(cands@.push(cand)) =~= opt_views_of(cands@).push(
                match cand {
                    Some(s) => Some(s@),
                    None => None,
                },
            ));
            assert(goal.take(i + 1) =~= goal.take(i as int).push(goal[i as int]));
        }
        cands.push(cand);
        i = i + 1;
    }
    proof {
        assert(goal.take(cands@.len() as int) =~= goal);
    }
    cands
}

/// DNS servers from resolver-configuration text: the `nameserver`
/// entries, first-seen-wins, de-duplicated, at most five.
pub fn dns_from_resolv_conf(text: &str) -> (out: Vec<String>)
    ensures
        views_of(out@) == spec_dedup_cap5(
            spec_split(text@, '\n').map_values(|l: Seq<char>| resolv_line_cand(l)),
            Seq::<Seq<char>>::empty(),
        ),
        out@.len() <= 5,
{
    let cands = resolv_cands(text);
    dedup_cap5(&cands)
}

/// The candidate a plain listing line contributes: the line itself,
/// trimmed, when anything is left.
pub open spec fn plain_line_cand(l: Seq<char>) -> Option<Seq<char>> {
    if spec_trim(l).len() > 0 {
        Some(spec_trim(l))
    } else {
        None
    }
}

fn plain_cands(text: &str) -> (cands: Vec<Option<String>>)
    ensures
        opt_views_of(cands@) == spec_split(text@, '\n').map_values(
            |l: Seq<char>| plain_line_cand(l),
        ),
{
    let lines = split_on(text, '\n');
    let ghost goal = spec_split(text@, '\n').map_values(|l: Seq<char>| plain_line_cand(l));
    let mut cands: Vec<Option<String>> = Vec::new();
    let mut i: usize = 0;
    while i < lines.len()
        invariant
            views_of(lines@) == spec_split(text@, '\n'),
            goal == spec_split(text@, '\n').map_values(|l: Seq<char>| plain_line_cand(l)),
            i <= lines@.len(),
            opt_views_of(cands@) =~= goal.take(i as int),
        decreases lines@.len() - i,
    {
        proof {
            assert(views_of(lines@)[i as int] == lines@[i as int]@);
            assert(goal[i as int] == plain_line_cand(lines@[i as int]@));
        }
        let line: &String = &lines[i];
        let t = trim_str(line.as_str());
        let cand: Option<String> = if t.as_str().unicode_len() > 0 {
            Some(t)
        } else {
            None
        };
        proof {
            assert(opt_views_of(cands@.push(cand)) =~= opt_views_of(cands@).push(
                match cand {
                    Some(s) => Some(s@),
                    None => None,
                },
            ));
            assert(goal.take(i + 1) =~= goal.take(i as int).push(goal[i as int]));
        }
        cands.push(cand);
        i = i + 1;
    }
    proof {
        assert(goal.take(cands@.len() as int) =~= goal);
    }
    cands
}

/// DNS servers from a probe that prints one address per line:
/// first-seen-wins, de-duplicated, at most five.
pub fn dns_from_lines(text: &str) -> (out: Vec<String>)
    ensures
        views_of(out@) == spec_dedup_cap5(
            spec_split(text@, '\n').map_values(|l: Seq<char>| plain_line_cand(l)),
            Seq::<Seq<char>>::empty(),
        ),
        out@.len() <= 5,
{
    let cands = plain_cands(text);
    dedup_cap5(&cands)
}

/// One address record of the management interface's adapter listing:
/// the adapter's addresses and its resolver addresses.
pub struct AdapterRecord {
    /// The adapter's addresses, when it reported any.
    pub addresses: Option<Vec<String>>,
    /// The adapter's resolver addresses, in search order.
    pub dns_search_order: Option<Vec<String>>,
}

/// The usable address an adapter record offers: its first address that
/// looks like a dotted address and is not loopback.
pub open spec fn adapter_ip(a: AdapterRecord) -> Option<Seq<char>> {
    match a.addresses {
        Some(ips) => first_usable_v4(views_of(ips@)),
        None => None,
    }
}

/// The first dotted, non-loopback address of a list.
pub open spec fn first_usable_v4(ips: Seq<Seq<char>>) -> Option<Seq<char>>
    decreases ips.len(),
{
    if ips.len() == 0 {
        None
    } else if spec_contains(ips[0], "."@) && ips[0] != "127.0.0.1"@ {
        Some(ips[0])
    } else {
        first_usable_v4(ips.skip(1))
    }
}

fn first_usable_v4_exec(ips: &Vec<String>) -> (r: Option<String>)
    ensures
        match r {
            Some(ip) => first_usable_v4(views_of(ips@)) == Some(ip@),
            None => first_usable_v4(views_of(ips@)) is None,
        },
{
    let ghost iv = views_of(ips@);
    let mut i: usize = 0;
    proof {
        assert(iv.skip(0) =~= iv);
    }
    while i < ips.len()
        invariant
            iv == views_of(ips@),
            i <= ips@.len(),
            first_usable_v4(iv) == first_usable_v4(iv.skip(i as int)),
        decreases ips@.len() - i,
    {
        proof {
            assert(iv[i as int] == ips@[i as int]@);
            assert(iv.skip(i as int)[0] == iv[i as int]);
            assert(iv.skip(i as int).skip(1) =~= iv.skip(i + 1));
        }
        let ip: &String = &ips[i];
        if contains_str(ip.as_str(), ".") && !str_eq(ip.as_str(), "127.0.0.1") {
            return Some(ip.clone());
        }
        i = i + 1;
    }
    proof {
        assert(iv.skip(ips@.len() as int) =~= Seq::<Seq<char>>::empty());
    }
    None
}

/// The resolver candidates an adapter list contributes, adapter by
/// adapter, address by address, in order.
pub open spec fn adapter_dns_cands(adapters: Seq<AdapterRecord>) -> Seq<Option<Seq<char>>>
    decreases adapters.len(),
{
    if adapters.len() == 0 {
        Seq::empty()
    } else {
        let head = match adapters[0].dns_search_order {
            Some(list) => views_of(list@).map_values(|d: Seq<char>| nonempty_cand(d)),
            None => Seq::<Option<Seq<char>>>::empty(),
        };
        head + adapter_dns_cands(adapters.skip(1))
    }
}

/// An address as a candidate, when it is non-empty.
pub open spec fn nonempty_cand(d: Seq<char>) -> Option<Seq<char>> {
    if d.len() > 0 {
        Some(d)
    } else {
        None
    }
}

/// The machine address and resolver list the adapter records carry: the
/// first adapter offering a usable address wins, and the resolver
/// addresses of every adapter are kept first-seen-wins, de-duplicated,
/// capped at five.
pub fn select_adapter_network(adapters: &Vec<AdapterRecord>) -> (r: (Option<String>, Vec<String>))
    ensures
        ({
            let av = adapters@;
            match r.0 {
                Some(ip) => exists|i: int|
                    0 <= i < av.len() && adapter_ip(#[trigger] av[i]) == Some(ip@) && (forall|k: int|
                        0 <= k < i ==> adapter_ip(#[trigger] av[k]) is None),
                None => forall|i: int| 0 <= i < av.len() ==> adapter_ip(#[trigger] av[i]) is None,
            }
        }),
        views_of(r.1@) == spec_dedup_cap5(adapter_dns_cands(adapters@), Seq::<Seq<char>>::empty()),
        r.1@.len() <= 5,
{
    let mut machine_ip: Option<String> = None;
    let ghost mut ip_witness: int = 0;
    let mut cands: Vec<Option<String>> = Vec::new();
    let mut i: usize = 0;
    proof {
        assert(adapter_dns_cands(adapters@.take(0)) =~= Seq::<Option<Seq<char>>>::empty());
        assert(opt_views_of(cands@) =~= Seq::<Option<Seq<char>>>::empty());
    }
    while i < adapters.len()
        invariant
            i <= adapters@.len(),
            opt_views_of(cands@) == adapter_dns_cands(adapters@.take(i as int)),
            match machine_ip {
                Some(ip) => 0 <= ip_witness < i && adapter_ip(adapters@[ip_witness]) == Some(ip@)
                    && (forall|k: int|
                    0 <= k < ip_witness ==> adapter_ip(#[trigger] adapters@[k]) is None),
                None => forall|k: int| 0 <= k < i ==> adapter_ip(#[trigger] adapters@[k]) is None,
            },
        decreases adapters@.len() - i,
    {
        let adapter: &AdapterRecord = &adapters[i];
        if machine_ip.is_none() {
            match &adapter.addresses {
                Some(ips) => {
                    match first_usable_v4_exec(ips) {
                        Some(ip) => {
                            machine_ip = Some(ip);
                            proof {
                                ip_witness = i as int;
                            }
                        },
                        None => {},
                    }
                },
                None => {},
            }
        }
        let ghost before = opt_views_of(cands@);
        match &adapter.dns_search_order {
            Some(list) => {
                let ghost head = views_of(list@).map_values(|d: Seq<char>| nonempty_cand(d));
                let mut j: usize = 0;
                while j < list.len()
                    invariant
                        head == views_of(list@).map_values(|d: Seq<char>| nonempty_cand(d)),
                        j <= list@.len(),
                        opt_views_of(cands@) =~= before + head.take(j as int),
                    decreases list@.len() - j,
                {
                    proof {
                        assert(views_of(list@)[j as int] == list@[j as int]@);
                        assert(head[j as int] == nonempty_cand(list@[j as int]@));
                        assert(head.take(j + 1) =~= head.take(j as int).push(head[j as int]));
                    }
                    let d: &String = &list[j];
                    let cand: Option<String> = if d.as_str().unicode_len() > 0 {
                        Some(d.clone())
                    } else {
                        None
                    };
                    proof {
                        assert(opt_views_of(cands@.push(cand)) =~= opt_views_of(cands@).push(
                            match cand {
                                Some(s) => Some(s@),
                                None => None,
                            },
                        ));
                    }
                    cands.push(cand);
                    j = j + 1;
                }
                proof {
                    assert(head.take(list@.len() as int) =~= head);
                }
            },
            None => {},
        }
        proof {
            assert(adapters@.take(i + 1).drop_last() =~= adapters@.take(i as int));
            assert(adapters@.take(i + 1).last() == adapters@[i as int]);
            lemma_adapter_cands_snoc(adapters@.take(i + 1));
        }
        i = i + 1;
    }
    proof {
        assert(adapters@.take(adapters@.len() as int) =~= adapters@);
    }
    let dns = dedup_cap5(&cands);
    (machine_ip, dns)
}

/// Splitting the adapter list before its last record splits its
/// candidate list the same way.
proof fn lemma_adapter_cands_snoc(adapters: Seq<AdapterRecord>)
    requires
        adapters.len() > 0,
    ensures
        adapter_dns_cands(adapters) == adapter_dns_cands(adapters.drop_last()) + (
        match adapters.last().dns_search_order {
            Some(list) => views_of(list@).map_values(|d: Seq<char>| nonempty_cand(d)),
            None => Seq::<Option<Seq<char>>>::empty(),
        }),
    decreases adapters.len(),
{
    let head = match adapters[0].dns_search_order {
        Some(list) => views_of(list@).map_values(|d: Seq<char>| nonempty_cand(d)),
        None => Seq::<Option<Seq<char>>>::empty(),
    };
    if adapters.len() == 1 {
        assert(adapters.drop_last() =~= Seq::<AdapterRecord>::empty());
        assert(adapters.skip(1) =~= Seq::<AdapterRecord>::empty());
        assert(adapter_dns_cands(adapters) == head + adapter_dns_cands(adapters.skip(1)));
        assert(adapter_dns_cands(adapters) =~= head);
        assert(adapter_dns_cands(adapters.drop_last()) + head =~= head);
    } else {
        let rest = adapters.skip(1);
        lemma_adapter_cands_snoc(rest);
        assert(rest.last() == adapters.last());
        assert(adapters.drop_last().skip(1) =~= rest.drop_last());
        assert(adapters.drop_last()[0] == adapters[0]);
        assert(adapters.drop_last().len() > 0);
        let tail_last = match adapters.last().dns_search_order {
            Some(list) => views_of(list@).map_values(|d: Seq<char>| nonempty_cand(d)),
            None => Seq::<Option<Seq<char>>>::empty(),
        };
        assert(adapter_dns_cands(adapters) == head + (adapter_dns_cands(rest.drop_last())
            + tail_last));
        assert(adapter_dns_cands(adapters.drop_last()) == head + adapter_dns_cands(
            rest.drop_last(),
        ));
        assert(head + (adapter_dns_cands(rest.drop_last()) + tail_last) =~= (head
            + adapter_dns_cands(rest.drop_last())) + tail_last);
    }
}

/// The machine address in the address-listing fallback output: from the
/// first line naming an IPv4 address, the trimmed text after its last
/// separator, when usable.
pub open spec fn ipconfig_line_ip(l: Seq<char>) -> Option<Seq<char>> {
    if spec_contains(l, "IPv4 Address"@) {
        let parts = spec_split(l, ':');
        let v = spec_trim(parts[parts.len() - 1]);
        if usable_ip(v) {
            Some(v)
        } else {
            None
        }
    } else {
        None
    }
}

/// Read the machine address out of the address-listing fallback output:
/// the first line that names an IPv4 address and carries a usable value
/// wins.
pub fn machine_ip_from_ipconfig(text: &str) -> (r: Option<String>)
    ensures
        ({
            let lines = spec_split(text@, '\n');
            match r {
                Some(ip) => exists|i: int|
                    0 <= i < lines.len() && ipconfig_line_ip(#[trigger] lines[i]) == Some(ip@) && (
                    forall|k: int| 0 <= k < i ==> ipconfig_line_ip(#[trigger] lines[k]) is None),
                None => forall|k: int|
                    0 <= k < lines.len() ==> ipconfig_line_ip(#[trigger] lines[k]) is None,
            }
        }),
{
    let lines = split_on(text, '\n');
    let ghost lview = spec_split(text@, '\n');
    let mut i: usize = 0;
    while i < lines.len()
        invariant
            lview == views_of(lines@),
            lview == spec_split(text@, '\n'),
            i <= lines@.len(),
            forall|k: int| 0 <= k < i ==> ipconfig_line_ip(#[trigger] lview[k]) is None,
        decreases lines@.len() - i,
    {
        proof {
            assert(views_of(lines@)[i as int] == lines@[i as int]@);
        }
        let line: &String = &lines[i];
        if contains_str(line.as_str(), "IPv4 Address") {
            let parts = split_on(line.as_str(), ':');
            proof {
                crate::text::lemma_split_len(line@, ':');
                assert(views_of(parts@)[parts@.len() - 1] == parts@[parts@.len() - 1]@);
            }
            let last: &String = &parts[parts.len() - 1];
            let v = trim_str(last.as_str());
            if usable_ip_exec(v.as_str()) {
                proof {
                    assert(ipconfig_line_ip(lview[i as int]) == Some(v@));
                }
                return Some(v);
            }
        }
        i = i + 1;
    }
    None
}

/// The resolver candidates a resolver-status line contributes: for a
/// line naming the servers, the whitespace tokens of the text after its
/// last separator.
pub open spec fn resolvectl_line_cands(l: Seq<char>) -> Seq<Option<Seq<char>>> {
    if spec_contains(l, "DNS Servers:"@) {
        let parts = spec_split(l, ':');
        spec_tokens(parts[parts.len() - 1]).map_values(|t: Seq<char>| Some(t))
    } else {
        Seq::<Option<Seq<char>>>::empty()
    }
}

/// The resolver candidates of the whole resolver-status output, line by
/// line, in order.
pub open spec fn resolvectl_cands(lines: Seq<Seq<char>>) -> Seq<Option<Seq<char>>>
    decreases lines.len(),
{
    if lines.len() == 0 {
        Seq::empty()
    } else {
        resolvectl_cands(lines.drop_last()) + resolvectl_line_cands(lines.last())
    }
}

/// DNS servers from the resolver-status output: the addresses on the
/// `DNS Servers:` lines, first-seen-wins, de-duplicated, at most five.
pub fn dns_from_resolvectl(text: &str) -> (out: Vec<String>)
    ensures
        views_of(out@) == spec_dedup_cap5(
            resolvectl_cands(spec_split(text@, '\n')),
            Seq::<Seq<char>>::empty(),
        ),
        out@.len() <= 5,
{
    let lines = split_on(text, '\n');
    let ghost lv = spec_split(text@, '\n');
    let mut cands: Vec<Option<String>> = Vec::new();
    let mut i: usize = 0;
    proof {
        assert(lv.take(0) =~= Seq::<Seq<char>>::empty());
        assert(opt_views_of(cands@) =~= Seq::<Option<Seq<char>>>::empty());
    }
    while i < lines.len()
        invariant
            lv == views_of(lines@),
            lv == spec_split(text@, '\n'),
            i <= lines@.len(),
            opt_views_of(cands@) == resolvectl_cands(lv.take(i as int)),
        decreases lines@.len() - i,
    {
        proof {
            assert(lv[i as int] == lines@[i as int]@);
            assert(lv.take(i + 1).drop_last() =~= lv.take(i as int));
            assert(lv.take(i + 1).last() == lv[i as int]);
        }
        let line: &String = &lines[i];
        let ghost before = opt_views_of(cands@);
        if contains_str(line.as_str(), "DNS Servers:") {
            let parts = split_on(line.as_str(), ':');
            proof {
                crate::text::lemma_split_len(line@, ':');
                assert(views_of(parts@)[parts@.len() - 1] == parts@[parts@.len() - 1]@);
            }
            let last: &String = &parts[parts.len() - 1];
            let toks = tokens(last.as_str());
            let ghost head = spec_tokens(last@).map_values(|t: Seq<char>| Some(t));
            let mut j: usize = 0;
            while j < toks.len()
                invariant
                    head == spec_tokens(last@).map_values(|t: Seq<char>| Some(t)),
                    views_of(toks@) == spec_tokens(last@),
                    j <= toks@.len(),
                    opt_views_of(cands@) =~= before + head.take(j as int),
                decreases toks@.len() - j,
            {
                proof {
                    assert(views_of(toks@)[j as int] == toks@[j as int]@);
                    assert(head[j as int] == Some(toks@[j as int]@));
                    assert(head.take(j + 1) =~= head.take(j as int).push(head[j as int]));
                }
                let tok: &String = &toks[j];
                let cand: Option<String> = Some(tok.clone());
                proof {
                    assert(opt_views_of(cands@.push(cand)) =~= opt_views_of(cands@).push(
                        match cand {
                            Some(s) => Some(s@),
                            None => None,
                        },
                    ));
                }
                cands.push(cand);
                j = j + 1;
            }
            proof {
                assert(head.take(toks@.len() as int) =~= head);
                assert(before + head =~= before + resolvectl_line_cands(lv[i as int]));
            }
        } else {
            proof {
                assert(resolvectl_line_cands(lv[i as int]) =~= Seq::<Option<Seq<char>>>::empty());
                assert(before + resolvectl_line_cands(lv[i as int]) =~= before);
            }
        }
        i = i + 1;
    }
    proof {
        assert(lv.take(lines@.len() as int) =~= lv);
    }
    dedup_cap5(&cands)
}

/// The candidate a resolver-diagnostic line contributes: for a line
/// whose trimmed text starts with `nameserver[`, the trimmed value
/// after its last separator, when non-empty.
pub open spec fn scutil_line_cand(l: Seq<char>) -> Option<Seq<char>> {
    let t = spec_trim(l);
    if spec_starts_with(t, "nameserver["@) {
        let parts = spec_split(t, ':');
        let v = spec_trim(parts[parts.len() - 1]);
        if v.len() > 0 {
            Some(v)
        } else {
            None
        }
    } else {
        None
    }
}

/// DNS servers from the resolver-diagnostic output: the `nameserver[n]`
/// entries, first-seen-wins, de-duplicated, at most five.
pub fn dns_from_scutil(text: &str) -> (out: Vec<String>)
    ensures
        views_of(out@) == spec_dedup_cap5(
            spec_split(text@, '\n').map_values(|l: Seq<char>| scutil_line_cand(l)),
            Seq::<Seq<char>>::empty(),
        ),
        out@.len() <= 5,
{
    let lines = split_on(text, '\n');
    let ghost goal = spec_split(text@, '\n').map_values(|l: Seq<char>| scutil_line_cand(l));
    let mut cands: Vec<Option<String>> = Vec::new();
    let mut i: usize = 0;
    while i < lines.len()
        invariant
            views_of(lines@) == spec_split(text@, '\n'),
            goal == spec_split(text@, '\n').map_values(|l: Seq<char>| scutil_line_cand(l)),
            i <= lines@.len(),
            opt_views_of(cands@) =~= goal.take(i as int),
        decreases lines@.len() - i,
    {
        proof {
            assert(views_of(lines@)[i as int] == lines@[i as int]@);
            assert(goal[i as int] == scutil_line_cand(lines@[i as int]@));
        }
        let line: &String = &lines[i];
        let t = trim_str(line.as_str());
        let cand: Option<String> = if starts_with_str(t.as_str(), "nameserver[") {
            let parts = split_on(t.as_str(), ':');
            proof {
                crate::text::lemma_split_len(t@, ':');
                assert(views_of(parts@)[parts@.len() - 1] == parts@[parts@.len() - 1]@);
            }
            let last: &String = &parts[parts.len() - 1];
            let v = trim_str(last.as_str());
            if v.as_str().unicode_len() > 0 {
                Some(v)
            } else {
                None
            }
        } else {
            None
        };
        proof {
            assert(opt_views_of(cands@.push(cand)) =~= opt_views_of(cands@).push(
                match cand {
                    Some(s) => Some(s@),
                    None => None,
                },
            ));
            assert(goal.take(i + 1) =~= goal.take(i as int).push(goal[i as int]));
        }
        cands.push(cand);
        i = i + 1;
    }
    proof {
        assert(goal.take(cands@.len() as int) =~= goal);
    }
    dedup_cap5(&cands)
}

/// The resolver candidates in address-listing fallback output: a line
/// naming the resolvers opens the section and contributes the value
/// after its last separator; inside the section, dotted lines without a
/// separator contribute themselves, and any other non-blank line closes
/// the section.
pub open spec fn ipconfig_dns_cands(lines: Seq<Seq<char>>, in_section: bool) -> Seq<
    Option<Seq<char>>,
>
    decreases lines.len(),
{
    if lines.len() == 0 {
        Seq::empty()
    } else {
        let l = lines[0];
        let rest = lines.skip(1);
        if spec_contains(l, "DNS Servers"@) {
            let parts = spec_split(l, ':');
            let v = spec_trim(parts[parts.len() - 1]);
            let c = if v.len() > 0 {
                Some(v)
            } else {
                None
            };
            seq![c] + ipconfig_dns_cands(rest, true)
        } else if in_section {
            let t = spec_trim(l);
            if spec_contains(t, "."@) && !spec_contains(t, ":"@) {
                seq![Some(t)] + ipconfig_dns_cands(rest, true)
            } else if t.len() > 0 {
                seq![None] + ipconfig_dns_cands(rest, false)
            } else {
                seq![None] + ipconfig_dns_cands(rest, true)
            }
        } else {
            seq![None] + ipconfig_dns_cands(rest, false)
        }
    }
}

/// DNS servers from the address-listing fallback output:
/// first-seen-wins, de-duplicated, at most five.
pub fn dns_from_ipconfig_all(text: &str) -> (out: Vec<String>)
    ensures
        views_of(out@) == spec_dedup_cap5(
            ipconfig_dns_cands(spec_split(text@, '\n'), false),
            Seq::<Seq<char>>::empty(),
        ),
        out@.len() <= 5,
{
    let lines = split_on(text, '\n');
    let ghost lv = views_of(lines@);
    let mut cands: Vec<Option<String>> = Vec::new();
    let mut in_section = false;
    let mut i: usize = 0;
    proof {
        assert(lv.skip(0) =~= lv);
        assert(opt_views_of(cands@) =~= Seq::<Option<Seq<char>>>::empty());
    }
    while i < lines.len()
        invariant
            lv == views_of(lines@),
            lv == spec_split(text@, '\n'),
            i <= lines@.len(),
            ipconfig_dns_cands(lv, false) == opt_views_of(cands@) + ipconfig_dns_cands(
                lv.skip(i as int),
                in_section,
            ),
        decreases lines@.len() - i,
    {
        proof {
            assert(lv[i as int] == lines@[i as int]@);
            assert(lv.skip(i as int)[0] == lv[i as int]);
            assert(lv.skip(i as int).skip(1) =~= lv.skip(i + 1));
        }
        let line: &String = &lines[i];
        let cand: Option<String> = if contains_str(line.as_str(), "DNS Servers") {
            in_section = true;
            let parts = split_on(line.as_str(), ':');
            proof {
                crate::text::lemma_split_len(line@, ':');
                assert(views_of(parts@)[parts@.len() - 1] == parts@[parts@.len() - 1]@);
            }
            let last: &String = &parts[parts.len() - 1];
            let v = trim_str(last.as_str());
            if v.as_str().unicode_len() > 0 {
                Some(v)
            } else {
                None
            }
        } else if in_section {
            let t = trim_str(line.as_str());
            if contains_str(t.as_str(), ".") && !contains_str(t.as_str(), ":") {
                Some(t)
            } else {
                if t.as_str().unicode_len() > 0 {
                    in_section = false;
                }
                None
            }
        } else {
            None
        };
        proof {
            assert(opt_views_of(cands@.push(cand)) =~= opt_views_of(cands@).push(
                match cand {
                    Some(s) => Some(s@),
                    None => None,
                },
            ));
            assert(opt_views_of(cands@).push(
                match cand {
                    Some(s) => Some(s@),
                    None => None,
                },
            ) + ipconfig_dns_cands(lv.skip(i + 1), in_section) =~= opt_views_of(cands@) + (seq![
                match cand {
                    Some(s) => Some(s@),
                    None => None,
                },
            ] + ipconfig_dns_cands(lv.skip(i + 1), in_section)));
        }
        cands.push(cand);
        i = i + 1;
    }
    proof {
        assert(lv.skip(lines@.len() as int) =~= Seq::<Seq<char>>::empty());
        assert(opt_views_of(cands@) + ipconfig_dns_cands(
            lv.skip(lines@.len() as int),
            in_section,
        ) =~= opt_views_of(cands@));
    }
    dedup_cap5(&cands)
}

// Network interface information (per-interface traffic counters).
/// Network interface information.
#[derive(Debug, Clone)]
pub struct NetworkInterface {
    pub name: String,
    pub mac_address: String,
    pub rx_bytes: u64,
    pub tx_bytes: u64,
    pub rx_packets: u64,
    pub tx_packets: u64,
}

impl NetworkInterface {
    /// Format a byte count, with units up to gigabytes.
    pub fn format_bytes(bytes: u64) -> (r: String)
        ensures
            r@ == spec_format_bytes_gb(bytes as nat),
    {
        format_bytes_gb_string(bytes)
    }

    /// Formatted received-byte count.
    pub fn rx_formatted(&self) -> (r: String)
        ensures
            r@ == spec_format_bytes_gb(self.rx_bytes as nat),
    {
        Self::format_bytes(self.rx_bytes)
    }

    /// Formatted transmitted-byte count.
    pub fn tx_formatted(&self) -> (r: String)
        ensures
            r@ == spec_format_bytes_gb(self.tx_bytes as nat),
    {
        Self::format_bytes(self.tx_bytes)
    }

    /// Both counters as `"RX: ... / TX: ..."`.
    pub fn traffic_string(&self) -> (r: String)
        ensures
            r@ == "RX: "@ + spec_format_bytes_gb(self.rx_bytes as nat) + " / TX: "@
                + spec_format_bytes_gb(self.tx_bytes as nat),
    {
        let mut r = "RX: ".to_owned();
        let rx = self.rx_formatted();
        r.append(rx.as_str());
        r.append(" / TX: ");
        let tx = self.tx_formatted();
        r.append(tx.as_str());
        r
    }

    /// Whether the interface has seen any traffic.
    pub fn is_active(&self) -> (r: bool)
        ensures
            r == (self.rx_bytes > 0 || self.tx_bytes > 0),
    {
        self.rx_bytes > 0 || self.tx_bytes > 0
    }
}

} // verus!
