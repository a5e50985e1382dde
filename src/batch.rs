//! The batch collector: decode outcomes of many sources combined in source
//! order, a failed source skipped and reported without stopping the batch.
use vstd::prelude::*;
use crate::flatten::{flatten, hosts_port_count, rows_view, scan_rows, Row};
use crate::model::{Address, Host, Port, Scan};

verus! {

/// Why a source gave no scan.
#[derive(Clone, Copy, Debug, PartialEq, Eq)]
pub enum SourceError {
    /// The source could not be read.
    Unreadable,
    /// The text is not a well-formed report, or lacks a mandatory field.
    Malformed,
}

/// The scans that decoded, in source order.
pub open spec fn decoded_scans(outs: Seq<Result<Scan, SourceError>>) -> Seq<Scan>
    decreases outs.len(),
{
    if outs.len() == 0 {
        Seq::empty()
    } else {
        decoded_scans(outs.drop_last()) + match outs.last() {
            Ok(s) => seq![s],
            Err(_) => Seq::empty(),
        }
    }
}

/// The positions of the sources that failed, in increasing order.
pub open spec fn failed_sources(outs: Seq<Result<Scan, SourceError>>) -> Seq<int>
    decreases outs.len(),
{
    if outs.len() == 0 {
        Seq::empty()
    } else {
        failed_sources(outs.drop_last()) + if outs.last() is Err {
            seq![outs.len() - 1]
        } else {
            Seq::empty()
        }
    }
}

/// The hosts of a sequence of scans, scan after scan.
pub open spec fn scans_hosts(ss: Seq<Scan>) -> Seq<Host>
    decreases ss.len(),
{
    if ss.len() == 0 {
        Seq::empty()
    } else {
        scans_hosts(ss.drop_last()) + ss.last().host@
    }
}

/// The rows of a sequence of scans, scan after scan.
pub open spec fn scans_rows(ss: Seq<Scan>) -> Seq<(Address, Port)>
    decreases ss.len(),
{
    if ss.len() == 0 {
        Seq::empty()
    } else {
        scans_rows(ss.drop_last()) + scan_rows(ss.last())
    }
}

/// Number of listed ports over a sequence of scans.
pub open spec fn scans_port_count(ss: Seq<Scan>) -> nat
    decreases ss.len(),
{
    if ss.len() == 0 {
        0
    } else {
        scans_port_count(ss.drop_last()) + hosts_port_count(ss.last().host@)
    }
}

/// Hosts collected so far for the whole-host export, and the sources skipped.
pub struct HostBatch {
    pub hosts: Vec<Host>,
    /// Positions, among the sources seen, of those that gave no scan.
    pub skipped: Vec<usize>,
    /// Number of sources seen.
    pub seen: usize,
}

impl HostBatch {
    /// The outcomes seen so far are `outs`.
    pub open spec fn holds(&self, outs: Seq<Result<Scan, SourceError>>) -> bool {
        &&& self.seen == outs.len()
        &&& self.hosts@ == scans_hosts(decoded_scans(outs))
        &&& self.skipped@.map_values(|k: usize| k as int) == failed_sources(outs)
    }

    /// A batch that has seen no source.
    pub fn new() -> (r: HostBatch)
        ensures
            r.holds(Seq::empty()),
    {
        let r = HostBatch { hosts: Vec::new(), skipped: Vec::new(), seen: 0 };
        assert(r.skipped@.map_values(|k: usize| k as int) =~= Seq::empty());
        r
    }

    /// Takes the outcome of the next source: its hosts are appended, or, if
    /// it failed, its position is recorded as skipped.
    pub fn add(&mut self, outcome: Result<Scan, SourceError>)
        requires
            old(self).seen < usize::MAX,
        ensures
            final(self).seen == old(self).seen + 1,
            final(self).hosts@ == old(self).hosts@ + match outcome {
                Ok(scan) => scan.host@,
                Err(_) => Seq::empty(),
            },
            final(self).skipped@ == if outcome is Err {
                old(self).skipped@.push(old(self).seen)
            } else {
                old(self).skipped@
            },
            forall|outs: Seq<Result<Scan, SourceError>>| #[trigger] old(self).holds(outs)
                ==> final(self).holds(outs.push(outcome)),
    {
        let ghost old_skipped = self.skipped@;
        let ghost old_hosts = self.hosts@;
        let pos = self.seen;
        match outcome {
            Ok(scan) => {
                let mut hs = scan.host;
                self.hosts.append(&mut hs);
            },
            Err(_) => {
                self.skipped.push(pos);
            },
        }
        self.seen = pos + 1;
        assert forall|outs: Seq<Result<Scan, SourceError>>| #[trigger] old(self).holds(outs)
            implies self.holds(outs.push(outcome)) by {
            let outs2 = outs.push(outcome);
            assert(outs2.drop_last() =~= outs);
            assert(outs2.last() == outcome);
            if outcome is Ok {
                let ds = decoded_scans(outs2);
                assert(ds == decoded_scans(outs) + seq![outcome->Ok_0]);
                assert(ds.drop_last() =~= decoded_scans(outs));
                assert(self.skipped@ == old_skipped);
                assert(failed_sources(outs2) =~= failed_sources(outs));
            } else {
                assert(decoded_scans(outs2) =~= decoded_scans(outs));
                assert(self.hosts@ == old_hosts);
                assert(failed_sources(outs2) =~= failed_sources(outs).push(pos as int));
                assert(self.skipped@.map_values(|k: usize| k as int) =~= old_skipped.map_values(
                    |k: usize| k as int,
                ).push(pos as int));
            }
        }
    }
}

/// Collects the hosts of every source that decoded, in source order, and the
/// positions of the sources that did not. A failed source never stops the
/// batch.
pub fn collect_hosts(sources: Vec<Result<Scan, SourceError>>) -> (r: HostBatch)
    requires
        sources@.len() < usize::MAX,
    ensures
        r.holds(sources@),
{
    let ghost all = sources@;
    let mut rest = sources;
    let mut batch = HostBatch::new();
    let mut k: usize = 0;
    while rest.len() > 0
        invariant
            k <= all.len(),
            all.len() < usize::MAX,
            rest@ == all.subrange(k as int, all.len() as int),
            batch.holds(all.take(k as int)),
        decreases rest@.len(),
    {
        let outcome = rest.remove(0);
        assert(all.take(k as int).push(outcome) =~= all.take(k + 1));
        batch.add(outcome);
        k = k + 1;
    }
    assert(all.take(k as int) =~= all);
    batch
}

/// The rows of every source that decoded, source after source.
pub fn batch_rows<'a>(sources: &'a Vec<Result<Scan, SourceError>>) -> (rows: Vec<Row<'a>>)
    ensures
        rows_view(rows@) == scans_rows(decoded_scans(sources@)),
{
    let mut rows: Vec<Row<'a>> = Vec::new();
    let mut k: usize = 0;
    while k < sources.len()
        invariant
            k <= sources@.len(),
            rows_view(rows@) == scans_rows(decoded_scans(sources@.take(k as int))),
        decreases sources@.len() - k,
    {
        let ghost before = rows@;
        let ghost outs = sources@.take(k + 1);
        assert(outs.drop_last() =~= sources@.take(k as int));
        match &sources[k] {
            Ok(scan) => {
                let mut more = flatten(scan);
                rows.append(&mut more);
                assert(rows_view(rows@) =~= rows_view(before) + scan_rows(*scan));
                assert(decoded_scans(outs).drop_last() =~= decoded_scans(sources@.take(k as int)));
            },
            Err(_) => {
                assert(decoded_scans(outs) =~= decoded_scans(sources@.take(k as int)));
            },
        }
        k = k + 1;
    }
    assert(sources@.take(sources@.len() as int) =~= sources@);
    rows
}

/// Number of sources that failed.
pub open spec fn failed_count(outs: Seq<Result<Scan, SourceError>>) -> nat
    decreases outs.len(),
{
    if outs.len() == 0 {
        0
    } else {
        failed_count(outs.drop_last()) + if outs.last() is Err {
            1nat
        } else {
            0nat
        }
    }
}

/// Partial-failure law: of `N` sources of which `K` failed, exactly `N - K`
/// give a scan to the output and exactly `K` are reported as skipped, each
/// of them a failed source and every failed source among them.
pub proof fn partial_failure_law(outs: Seq<Result<Scan, SourceError>>)
    ensures
        decoded_scans(outs).len() == outs.len() - failed_count(outs),
        failed_sources(outs).len() == failed_count(outs),
        forall|k: int|
            0 <= k < failed_sources(outs).len() ==> {
                let i = #[trigger] failed_sources(outs)[k];
                0 <= i < outs.len() && outs[i] is Err
            },
        forall|i: int| 0 <= i < outs.len() && #[trigger] outs[i] is Err ==> failed_sources(
            outs,
        ).contains(i),
    decreases outs.len(),
{
    if outs.len() > 0 {
        let dl = outs.drop_last();
        partial_failure_law(dl);
        let n = outs.len() - 1;
        assert forall|k: int| 0 <= k < failed_sources(outs).len() implies {
            let i = #[trigger] failed_sources(outs)[k];
            0 <= i < outs.len() && outs[i] is Err
        } by {
            if k < failed_sources(dl).len() {
                assert(failed_sources(outs)[k] == failed_sources(dl)[k]);
                assert(outs[failed_sources(dl)[k]] == dl[failed_sources(dl)[k]]);
            }
        }
        assert forall|i: int| 0 <= i < outs.len() && #[trigger] outs[i] is Err implies failed_sources(
            outs,
        ).contains(i) by {
            if i < n {
                assert(dl[i] == outs[i]);
                let k = choose|k: int| 0 <= k < failed_sources(dl).len() && failed_sources(dl)[k] == i;
                assert(failed_sources(outs)[k] == i);
            } else {
                assert(failed_sources(outs)[failed_sources(outs).len() - 1] == i);
            }
        }
    }
}

proof fn lemma_scans_rows_len(ss: Seq<Scan>)
    ensures
        scans_rows(ss).len() == scans_port_count(ss),
    decreases ss.len(),
{
    if ss.len() > 0 {
        lemma_scans_rows_len(ss.drop_last());
        crate::flatten::row_count_law(ss.last());
    }
}

/// Row count law for a batch: the rows of a batch number the ports listed
/// in the scans that decoded, summed over their hosts and groups.
pub proof fn batch_row_count_law(outs: Seq<Result<Scan, SourceError>>)
    ensures
        scans_rows(decoded_scans(outs)).len() == scans_port_count(decoded_scans(outs)),
{
    lemma_scans_rows_len(decoded_scans(outs));
}

} // verus!
