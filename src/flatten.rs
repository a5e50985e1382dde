//! The flattening engine: one row per (host, listed port) pair, in document
//! order.
use vstd::prelude::*;
use crate::model::{Address, Host, Port, Ports, Scan};

verus! {

/// One output row: the address of a host and one port reported for it.
/// Both are borrowed from the scan; the engine copies nothing and changes
/// nothing.
#[derive(Clone, Copy, Debug)]
pub struct Row<'a> {
    pub address: &'a Address,
    pub port: &'a Port,
}

impl<'a> View for Row<'a> {
    type V = (Address, Port);

    open spec fn view(&self) -> (Address, Port) {
        (*self.address, *self.port)
    }
}

/// The ports listed one by one in a group; a summary-only group lists none.
pub open spec fn listed_ports(g: Ports) -> Seq<Port> {
    match g.port {
        Some(v) => v@,
        None => Seq::empty(),
    }
}

/// Rows of one group of a host with address `a`.
pub open spec fn group_rows(a: Address, g: Ports) -> Seq<(Address, Port)> {
    listed_ports(g).map_values(|p: Port| (a, p))
}

/// Rows of a sequence of groups, group after group.
pub open spec fn groups_rows(a: Address, gs: Seq<Ports>) -> Seq<(Address, Port)>
    decreases gs.len(),
{
    if gs.len() == 0 {
        Seq::empty()
    } else {
        groups_rows(a, gs.drop_last()) + group_rows(a, gs.last())
    }
}

/// Rows of one host.
pub open spec fn host_rows(h: Host) -> Seq<(Address, Port)> {
    groups_rows(h.address, h.ports@)
}

/// Rows of a sequence of hosts, host after host.
pub open spec fn hosts_rows(hs: Seq<Host>) -> Seq<(Address, Port)>
    decreases hs.len(),
{
    if hs.len() == 0 {
        Seq::empty()
    } else {
        hosts_rows(hs.drop_last()) + host_rows(hs.last())
    }
}

/// The rows of a scan.
pub open spec fn scan_rows(s: Scan) -> Seq<(Address, Port)> {
    hosts_rows(s.host@)
}

/// The views of a sequence of rows.
pub open spec fn rows_view<'a>(rows: Seq<Row<'a>>) -> Seq<(Address, Port)> {
    rows.map_values(|r: Row<'a>| r@)
}

/// Number of ports listed in a sequence of groups.
pub open spec fn groups_port_count(gs: Seq<Ports>) -> nat
    decreases gs.len(),
{
    if gs.len() == 0 {
        0
    } else {
        groups_port_count(gs.drop_last()) + listed_ports(gs.last()).len()
    }
}

/// Number of ports listed in all groups of a sequence of hosts.
pub open spec fn hosts_port_count(hs: Seq<Host>) -> nat
    decreases hs.len(),
{
    if hs.len() == 0 {
        0
    } else {
        hosts_port_count(hs.drop_last()) + groups_port_count(hs.last().ports@)
    }
}

/// Flattens a scan into its rows: hosts in order, then groups in order, then
/// ports in order. A group without a port list contributes no row.
pub fn flatten<'a>(scan: &'a Scan) -> (rows: Vec<Row<'a>>)
    ensures
        rows_view(rows@) == scan_rows(*scan),
{
    let mut rows: Vec<Row<'a>> = Vec::new();
    let hosts = &scan.host;
    let mut i: usize = 0;
    while i < hosts.len()
        invariant
            i <= hosts@.len(),
            rows_view(rows@) == hosts_rows(hosts@.take(i as int)),
        decreases hosts@.len() - i,
    {
        let host = &hosts[i];
        let ghost before = rows_view(rows@);
        let mut j: usize = 0;
        while j < host.ports.len()
            invariant
                i < hosts@.len(),
                *host == hosts@[i as int],
                j <= host.ports@.len(),
                rows_view(rows@) == before + groups_rows(host.address, host.ports@.take(j as int)),
            decreases host.ports@.len() - j,
        {
            let group = &host.ports[j];
            let ghost mid = rows_view(rows@);
            match &group.port {
                Some(list) => {
                    let mut k: usize = 0;
                    while k < list.len()
                        invariant
                            k <= list@.len(),
                            rows_view(rows@) == mid + list@.take(k as int).map_values(
                                |p: Port| (host.address, p),
                            ),
                        decreases list@.len() - k,
                    {
                        let ghost prev = rows@;
                        rows.push(Row { address: &host.address, port: &list[k] });
                        assert(list@.take(k + 1).map_values(|p: Port| (host.address, p))
                            =~= list@.take(k as int).map_values(|p: Port| (host.address, p)).push(
                            (host.address, list@[k as int]),
                        ));
                        assert(rows_view(rows@) =~= rows_view(prev).push(
                            (host.address, list@[k as int]),
                        ));
                        k = k + 1;
                    }
                    assert(list@.take(list@.len() as int) =~= list@);
                },
                None => {},
            }
            assert(host.ports@.take(j + 1).drop_last() =~= host.ports@.take(j as int));
            assert(rows_view(rows@) =~= before + groups_rows(
                host.address,
                host.ports@.take(j + 1),
            ));
            j = j + 1;
        }
        assert(host.ports@.take(host.ports@.len() as int) =~= host.ports@);
        assert(hosts@.take(i + 1).drop_last() =~= hosts@.take(i as int));
        i = i + 1;
    }
    assert(hosts@.take(hosts@.len() as int) =~= hosts@);
    rows
}

/// Positions `(host, group)` of the groups among `gs`, of host `i`, that have
/// no port list.
pub open spec fn summary_groups(i: int, gs: Seq<Ports>) -> Seq<(int, int)>
    decreases gs.len(),
{
    if gs.len() == 0 {
        Seq::empty()
    } else {
        summary_groups(i, gs.drop_last()) + if gs.last().port is None {
            seq![(i, gs.len() - 1)]
        } else {
            Seq::empty()
        }
    }
}

/// Positions `(host, group)` of the groups without a port list, over a
/// sequence of hosts, in document order.
pub open spec fn summary_positions(hs: Seq<Host>) -> Seq<(int, int)>
    decreases hs.len(),
{
    if hs.len() == 0 {
        Seq::empty()
    } else {
        summary_positions(hs.drop_last()) + summary_groups(hs.len() - 1, hs.last().ports@)
    }
}

/// The groups that contribute no row because they only summarise their
/// ports: `(host, group)` positions in document order, for the caller to
/// report.
pub fn summary_only_groups(scan: &Scan) -> (r: Vec<(usize, usize)>)
    ensures
        r@.map_values(|p: (usize, usize)| (p.0 as int, p.1 as int)) == summary_positions(
            scan.host@,
        ),
{
    let mut r: Vec<(usize, usize)> = Vec::new();
    let hosts = &scan.host;
    let mut i: usize = 0;
    while i < hosts.len()
        invariant
            i <= hosts@.len(),
            r@.map_values(|p: (usize, usize)| (p.0 as int, p.1 as int)) == summary_positions(
                hosts@.take(i as int),
            ),
        decreases hosts@.len() - i,
    {
        let host = &hosts[i];
        let ghost before = r@.map_values(|p: (usize, usize)| (p.0 as int, p.1 as int));
        let mut j: usize = 0;
        while j < host.ports.len()
            invariant
                i < hosts@.len(),
                *host == hosts@[i as int],
                j <= host.ports@.len(),
                r@.map_values(|p: (usize, usize)| (p.0 as int, p.1 as int)) == before
                    + summary_groups(i as int, host.ports@.take(j as int)),
            decreases host.ports@.len() - j,
        {
            let ghost prev = r@;
            if host.ports[j].port.is_none() {
                r.push((i, j));
                assert(r@.map_values(|p: (usize, usize)| (p.0 as int, p.1 as int))
                    =~= prev.map_values(|p: (usize, usize)| (p.0 as int, p.1 as int)).push(
                    (i as int, j as int),
                ));
            }
            assert(host.ports@.take(j + 1).drop_last() =~= host.ports@.take(j as int));
            j = j + 1;
        }
        assert(host.ports@.take(host.ports@.len() as int) =~= host.ports@);
        assert(hosts@.take(i + 1).drop_last() =~= hosts@.take(i as int));
        i = i + 1;
    }
    assert(hosts@.take(hosts@.len() as int) =~= hosts@);
    r
}

proof fn lemma_groups_rows_len(a: Address, gs: Seq<Ports>)
    ensures
        groups_rows(a, gs).len() == groups_port_count(gs),
    decreases gs.len(),
{
    if gs.len() > 0 {
        lemma_groups_rows_len(a, gs.drop_last());
    }
}

proof fn lemma_hosts_rows_len(hs: Seq<Host>)
    ensures
        hosts_rows(hs).len() == hosts_port_count(hs),
    decreases hs.len(),
{
    if hs.len() > 0 {
        lemma_hosts_rows_len(hs.drop_last());
        lemma_groups_rows_len(hs.last().address, hs.last().ports@);
    }
}

/// The count of a prefix one group longer adds that group's listed ports.
proof fn lemma_groups_count_step(gs: Seq<Ports>, j: int)
    requires
        0 <= j < gs.len(),
    ensures
        groups_port_count(gs.take(j + 1)) == groups_port_count(gs.take(j)) + listed_ports(
            gs[j],
        ).len(),
{
    assert(gs.take(j + 1).drop_last() =~= gs.take(j));
}

proof fn lemma_groups_count_mono(gs: Seq<Ports>, j1: int, j2: int)
    requires
        0 <= j1 <= j2 <= gs.len(),
    ensures
        groups_port_count(gs.take(j1)) <= groups_port_count(gs.take(j2)),
    decreases j2 - j1,
{
    if j1 < j2 {
        lemma_groups_count_mono(gs, j1, j2 - 1);
        lemma_groups_count_step(gs, j2 - 1);
    }
}

proof fn lemma_hosts_count_step(hs: Seq<Host>, i: int)
    requires
        0 <= i < hs.len(),
    ensures
        hosts_port_count(hs.take(i + 1)) == hosts_port_count(hs.take(i)) + groups_port_count(
            hs[i].ports@,
        ),
{
    assert(hs.take(i + 1).drop_last() =~= hs.take(i));
}

proof fn lemma_hosts_count_mono(hs: Seq<Host>, i1: int, i2: int)
    requires
        0 <= i1 <= i2 <= hs.len(),
    ensures
        hosts_port_count(hs.take(i1)) <= hosts_port_count(hs.take(i2)),
    decreases i2 - i1,
{
    if i1 < i2 {
        lemma_hosts_count_mono(hs, i1, i2 - 1);
        lemma_hosts_count_step(hs, i2 - 1);
    }
}

proof fn lemma_groups_rows_at(a: Address, gs: Seq<Ports>, j: int, l: int)
    requires
        0 <= j < gs.len(),
        0 <= l < listed_ports(gs[j]).len(),
    ensures
        groups_port_count(gs.take(j)) + l < groups_port_count(gs),
        groups_rows(a, gs)[groups_port_count(gs.take(j)) + l] == (a, listed_ports(gs[j])[l]),
    decreases gs.len(),
{
    let dl = gs.drop_last();
    lemma_groups_rows_len(a, dl);
    if j == gs.len() - 1 {
        assert(gs.take(j) =~= dl);
    } else {
        assert(dl.take(j) =~= gs.take(j));
        lemma_groups_rows_at(a, dl, j, l);
    }
}

proof fn lemma_hosts_rows_at(hs: Seq<Host>, i: int, j: int, l: int)
    requires
        0 <= i < hs.len(),
        0 <= j < hs[i].ports@.len(),
        0 <= l < listed_ports(hs[i].ports@[j]).len(),
    ensures
        hosts_port_count(hs.take(i)) + groups_port_count(hs[i].ports@.take(j)) + l
            < hosts_port_count(hs),
        hosts_rows(hs)[hosts_port_count(hs.take(i)) + groups_port_count(hs[i].ports@.take(j))
            + l] == (hs[i].address, listed_ports(hs[i].ports@[j])[l]),
    decreases hs.len(),
{
    let dl = hs.drop_last();
    lemma_hosts_rows_len(dl);
    lemma_hosts_rows_len(hs);
    assert(hosts_rows(hs) == hosts_rows(dl) + host_rows(hs.last()));
    if i == hs.len() - 1 {
        assert(hs.take(i) =~= dl);
        assert(hs.last() == hs[i]);
        lemma_groups_rows_at(hs[i].address, hs[i].ports@, j, l);
    } else {
        assert(dl.take(i) =~= hs.take(i));
        assert(dl[i] == hs[i]);
        lemma_hosts_rows_at(dl, i, j, l);
    }
}

/// Row count law: a scan has as many rows as it lists ports, summed over its
/// hosts and their groups; a group without a port list counts zero.
pub proof fn row_count_law(s: Scan)
    ensures
        scan_rows(s).len() == hosts_port_count(s.host@),
{
    lemma_hosts_rows_len(s.host@);
}

/// Whether host `i`, its group `j` and that group's listed port `l` exist.
pub open spec fn is_listed(s: Scan, i: int, j: int, l: int) -> bool {
    &&& 0 <= i < s.host@.len()
    &&& 0 <= j < s.host@[i].ports@.len()
    &&& 0 <= l < listed_ports(s.host@[i].ports@[j]).len()
}

/// Where port `l` of group `j` of host `i` stands among the rows: after the
/// ports of all earlier hosts and of the earlier groups of its own host.
pub open spec fn row_index(s: Scan, i: int, j: int, l: int) -> int {
    hosts_port_count(s.host@.take(i)) + groups_port_count(s.host@[i].ports@.take(j)) + l
}

/// Document order: `(i, j, l)` comes before `(i2, j2, l2)` by host, then
/// group, then port.
pub open spec fn precedes(i: int, j: int, l: int, i2: int, j2: int, l2: int) -> bool {
    i < i2 || (i == i2 && (j < j2 || (j == j2 && l < l2)))
}

/// Order law: every listed port has its row at `row_index`, carrying its
/// host's address and the port itself, and rows keep document order (host,
/// then group, then port) with nothing reordered or grouped.
pub proof fn row_order_law(s: Scan, i: int, j: int, l: int, i2: int, j2: int, l2: int)
    requires
        is_listed(s, i, j, l),
        is_listed(s, i2, j2, l2),
    ensures
        0 <= row_index(s, i, j, l) < scan_rows(s).len(),
        scan_rows(s)[row_index(s, i, j, l)] == (
            s.host@[i].address,
            listed_ports(s.host@[i].ports@[j])[l],
        ),
        precedes(i, j, l, i2, j2, l2) ==> row_index(s, i, j, l) < row_index(s, i2, j2, l2),
{
    let hs = s.host@;
    lemma_hosts_rows_len(hs);
    lemma_hosts_rows_at(hs, i, j, l);
    let gs = hs[i].ports@;
    lemma_groups_count_step(gs, j);
    lemma_groups_count_mono(gs, j + 1, gs.len() as int);
    assert(gs.take(gs.len() as int) =~= gs);
    lemma_hosts_count_step(hs, i);
    if i < i2 {
        lemma_hosts_count_mono(hs, i + 1, i2);
    } else if i == i2 && j < j2 {
        lemma_groups_count_mono(gs, j + 1, j2);
    }
}

/// Flattening is a function of the scan alone: any two results that meet
/// `flatten`'s postcondition on equal scans are the same row sequence.
pub proof fn flatten_deterministic<'a>(s1: Scan, s2: Scan, r1: Seq<Row<'a>>, r2: Seq<Row<'a>>)
    requires
        s1 == s2,
        rows_view(r1) == scan_rows(s1),
        rows_view(r2) == scan_rows(s2),
    ensures
        rows_view(r1) == rows_view(r2),
{
}

} // verus!
