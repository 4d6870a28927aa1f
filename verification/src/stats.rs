//! Per-job solve statistics and their update discipline.
//!
//! A `SolveStats` value is owned by one solve job and mutated only from that
//! job's response listener. Its ghost `history` records the verdicts applied
//! so far; the well-formedness predicate [`SolveStats::wf`] ties every counter
//! and the flagged-index list to that history, so the aggregate laws follow
//! from it.

use vstd::prelude::*;

verus! {

/// Terminal classification of one submitted position.
#[derive(Clone, Copy, Debug, PartialEq, Eq, Structural)]
pub enum VerdictKind {
    /// The engine found a forced mate.
    Mate,
    /// The engine proved there is no mate.
    NoMate,
    /// Any other terminal response.
    Error,
}

/// One component of an interim progress notification, reduced to what the
/// statistics read: a principal-variation marker or a node count.
#[derive(Clone, Copy, Debug, PartialEq, Eq, Structural)]
pub enum InfoToken {
    /// Principal-variation data is present in the notification.
    Pv,
    /// Number of nodes searched so far for the position in flight.
    Nodes(usize),
    /// Any other component; carries nothing the statistics read.
    Other,
}

/// A verdict other than a found mate is flagged for diagnostic reporting.
pub open spec fn is_flagged(k: VerdictKind) -> bool {
    k != VerdictKind::Mate
}

/// How many verdicts in `h` are of kind `k`.
pub open spec fn count_verdicts(h: Seq<VerdictKind>, k: VerdictKind) -> nat
    decreases h.len(),
{
    if h.len() == 0 {
        0
    } else {
        count_verdicts(h.drop_last(), k) + if h.last() == k {
            1nat
        } else {
            0nat
        }
    }
}

/// The indices of the flagged verdicts in `h`, in completion order.
pub open spec fn flagged_of(h: Seq<VerdictKind>) -> Seq<int>
    decreases h.len(),
{
    if h.len() == 0 {
        Seq::empty()
    } else if is_flagged(h.last()) {
        flagged_of(h.drop_last()).push(h.len() - 1)
    } else {
        flagged_of(h.drop_last())
    }
}

/// Whether a progress notification carries principal-variation data.
pub open spec fn has_pv(info: Seq<InfoToken>) -> bool {
    exists|i: int| 0 <= i < info.len() && info[i] is Pv
}

/// The value of the first node-count component of `info`, zero if none.
pub open spec fn first_nodes(info: Seq<InfoToken>) -> usize
    decreases info.len(),
{
    if info.len() == 0 {
        0
    } else if info.first() is Nodes {
        info.first()->Nodes_0
    } else {
        first_nodes(info.drop_first())
    }
}

/// Statistics for one solve job.
#[derive(Clone)]
pub struct SolveStats {
    /// The number of positions whose verdict has arrived.
    pub num_sfens: usize,
    /// The number of positions with a mate.
    pub num_mate: usize,
    /// The number of positions with no mate.
    pub num_nomate: usize,
    /// The number of positions with an error verdict.
    pub num_errors: usize,
    /// Wall-clock time of the whole job, in milliseconds; set once at the end.
    pub elapsed: u64,
    /// Total nodes searched, folded in verdict by verdict.
    pub nodes: usize,
    /// Nodes reported so far for the position currently in flight.
    pub last_nodes: usize,
    /// The indices of the positions with an error or no mate.
    pub error_or_nomate_indices: Vec<usize>,
    /// The verdicts applied so far, in arrival order.
    pub history: Ghost<Seq<VerdictKind>>,
}

impl SolveStats {
    /// Every counter and the flagged-index list agree with the history.
    pub open spec fn wf(self) -> bool {
        &&& self.num_sfens == self.history@.len()
        &&& self.num_mate == count_verdicts(self.history@, VerdictKind::Mate)
        &&& self.num_nomate == count_verdicts(self.history@, VerdictKind::NoMate)
        &&& self.num_errors == count_verdicts(self.history@, VerdictKind::Error)
        &&& self.error_or_nomate_indices@.map_values(|i: usize| i as int) =~= flagged_of(
            self.history@,
        )
    }

    /// Fresh statistics: everything zero, nothing flagged, empty history.
    pub fn new() -> (s: Self)
        ensures
            s.wf(),
            s.num_sfens == 0,
            s.num_mate == 0,
            s.num_nomate == 0,
            s.num_errors == 0,
            s.elapsed == 0,
            s.nodes == 0,
            s.last_nodes == 0,
            s.error_or_nomate_indices@ == Seq::<usize>::empty(),
            s.history@ == Seq::<VerdictKind>::empty(),
    {
        let s = SolveStats {
            num_sfens: 0,
            num_mate: 0,
            num_nomate: 0,
            num_errors: 0,
            elapsed: 0,
            nodes: 0,
            last_nodes: 0,
            error_or_nomate_indices: Vec::new(),
            history: Ghost(Seq::empty()),
        };
        proof {
            assert(s.error_or_nomate_indices@.map_values(|i: usize| i as int) =~= flagged_of(
                s.history@,
            ));
        }
        s
    }

    /// Record one verdict for the oldest position in flight: its reported
    /// nodes move into the node total, the processed and matching kind
    /// counters each grow by one, and a no-mate or error verdict appends
    /// the position's index to the flagged list.
    pub fn update_by_checkmate(&mut self, kind: VerdictKind)
        requires
            old(self).wf(),
            old(self).num_sfens < usize::MAX,
            old(self).nodes + old(self).last_nodes <= usize::MAX,
        ensures
            final(self).wf(),
            final(self).history@ == old(self).history@.push(kind),
            final(self).num_sfens == old(self).num_sfens + 1,
            final(self).nodes == old(self).nodes + old(self).last_nodes,
            final(self).last_nodes == 0,
            final(self).elapsed == old(self).elapsed,
            final(self).num_mate == old(self).num_mate + if kind == VerdictKind::Mate {
                1int
            } else {
                0int
            },
            final(self).num_nomate == old(self).num_nomate + if kind == VerdictKind::NoMate {
                1int
            } else {
                0int
            },
            final(self).num_errors == old(self).num_errors + if kind == VerdictKind::Error {
                1int
            } else {
                0int
            },
            is_flagged(kind) ==> final(self).error_or_nomate_indices@ == old(
                self,
            ).error_or_nomate_indices@.push(old(self).num_sfens),
            !is_flagged(kind) ==> final(self).error_or_nomate_indices@ == old(
                self,
            ).error_or_nomate_indices@,
    {
        proof {
            lemma_count_le_len(self.history@, VerdictKind::Mate);
            lemma_count_le_len(self.history@, VerdictKind::NoMate);
            lemma_count_le_len(self.history@, VerdictKind::Error);
        }
        let ghost h = self.history@;
        let sfen_index = self.num_sfens;
        self.num_sfens = self.num_sfens + 1;
        self.nodes = self.nodes + self.last_nodes;
        self.last_nodes = 0;
        match kind {
            VerdictKind::Mate => {
                self.num_mate = self.num_mate + 1;
            },
            VerdictKind::NoMate => {
                self.num_nomate = self.num_nomate + 1;
                self.error_or_nomate_indices.push(sfen_index);
            },
            VerdictKind::Error => {
                self.num_errors = self.num_errors + 1;
                self.error_or_nomate_indices.push(sfen_index);
            },
        }
        self.history = Ghost(h.push(kind));
        proof {
            assert(h.push(kind).drop_last() =~= h);
            assert(self.error_or_nomate_indices@.map_values(|i: usize| i as int) =~= flagged_of(
                self.history@,
            ));
        }
    }

    /// Apply one progress notification: when it carries principal-variation
    /// data, overwrite the in-flight node count with the first reported node
    /// count (last value before the verdict wins); otherwise ignore it.
    pub fn update_by_info(&mut self, info: &Vec<InfoToken>)
        ensures
            *final(self) == (SolveStats {
                last_nodes: if has_pv(info@) {
                    first_nodes(info@)
                } else {
                    old(self).last_nodes
                },
                ..*old(self)
            }),
            old(self).wf() ==> final(self).wf(),
    {
        let mut found_pv = false;
        let mut i: usize = 0;
        while i < info.len()
            invariant
                0 <= i <= info.len(),
                found_pv ==> has_pv(info@),
                !found_pv ==> forall|j: int| 0 <= j < i ==> !(info@[j] is Pv),
            decreases info.len() - i,
        {
            if matches!(info[i], InfoToken::Pv) {
                found_pv = true;
            }
            i = i + 1;
        }
        if found_pv {
            let nodes = self.first_nodes_of(info);
            self.last_nodes = nodes;
        }
    }

    /// Find the first node-count component of a progress notification,
    /// defaulting to zero when it carries none.
    fn first_nodes_of(&self, info: &Vec<InfoToken>) -> (n: usize)
        ensures
            n == first_nodes(info@),
    {
        let mut i: usize = 0;
        proof {
            assert(info@.subrange(0, info@.len() as int) =~= info@);
        }
        while i < info.len()
            invariant
                0 <= i <= info.len(),
                first_nodes(info@) == first_nodes(info@.subrange(i as int, info@.len() as int)),
            decreases info.len() - i,
        {
            let ghost tail = info@.subrange(i as int, info@.len() as int);
            match info[i] {
                InfoToken::Nodes(n) => {
                    proof {
                        assert(tail.first() == info@[i as int]);
                    }
                    return n;
                },
                _ => {
                    proof {
                        assert(tail.first() == info@[i as int]);
                        assert(tail.drop_first() =~= info@.subrange(
                            i + 1 as int,
                            info@.len() as int,
                        ));
                    }
                },
            }
            i = i + 1;
        }
        proof {
            assert(info@.subrange(i as int, info@.len() as int).len() == 0);
        }
        0
    }

    /// Record the job's wall-clock time, in milliseconds, once it is complete.
    pub fn finish(&mut self, elapsed_ms: u64)
        ensures
            *final(self) == (SolveStats { elapsed: elapsed_ms, ..*old(self) }),
            old(self).wf() ==> final(self).wf(),
    {
        self.elapsed = elapsed_ms;
    }
}

impl Default for SolveStats {
    /// Fresh statistics, as [`SolveStats::new`] makes them.
    fn default() -> (s: Self)
        ensures
            s.wf(),
            s.num_sfens == 0,
            s.num_mate == 0,
            s.num_nomate == 0,
            s.num_errors == 0,
            s.elapsed == 0,
            s.nodes == 0,
            s.last_nodes == 0,
            s.error_or_nomate_indices@ == Seq::<usize>::empty(),
            s.history@ == Seq::<VerdictKind>::empty(),
    {
        SolveStats::new()
    }
}

/// No kind of verdict occurs more often than there are verdicts.
proof fn lemma_count_le_len(h: Seq<VerdictKind>, k: VerdictKind)
    ensures
        count_verdicts(h, k) <= h.len(),
    decreases h.len(),
{
    if h.len() > 0 {
        lemma_count_le_len(h.drop_last(), k);
    }
}

/// The three verdict kinds partition any history.
proof fn lemma_count_partition(h: Seq<VerdictKind>)
    ensures
        count_verdicts(h, VerdictKind::Mate) + count_verdicts(h, VerdictKind::NoMate)
            + count_verdicts(h, VerdictKind::Error) == h.len(),
    decreases h.len(),
{
    if h.len() > 0 {
        lemma_count_partition(h.drop_last());
    }
}

/// Law: in every well-formed statistics snapshot, the mate, no-mate and
/// error counts add up exactly to the number of positions processed.
pub proof fn lemma_counts_partition(s: SolveStats)
    requires
        s.wf(),
    ensures
        s.num_mate + s.num_nomate + s.num_errors == s.num_sfens,
{
    lemma_count_partition(s.history@);
}

/// A sequence of indices is strictly increasing.
pub open spec fn strictly_increasing(s: Seq<int>) -> bool {
    forall|i: int, j: int| 0 <= i < j < s.len() ==> s[i] < s[j]
}

/// Every flagged index is an index into the history.
proof fn lemma_flagged_bounds(h: Seq<VerdictKind>)
    ensures
        forall|i: int| 0 <= i < flagged_of(h).len() ==> 0 <= #[trigger] flagged_of(h)[i] < h.len(),
    decreases h.len(),
{
    if h.len() > 0 {
        lemma_flagged_bounds(h.drop_last());
        let prior = flagged_of(h.drop_last());
        assert forall|i: int| 0 <= i < flagged_of(h).len() implies 0 <= #[trigger] flagged_of(h)[i]
            < h.len() by {
            if is_flagged(h.last()) {
                if i < prior.len() {
                    assert(flagged_of(h)[i] == prior[i]);
                } else {
                    assert(flagged_of(h)[i] == h.len() - 1);
                }
            } else {
                assert(flagged_of(h)[i] == prior[i]);
            }
        }
    }
}

/// The flagged indices of any history are strictly increasing.
proof fn lemma_flagged_increasing(h: Seq<VerdictKind>)
    ensures
        strictly_increasing(flagged_of(h)),
    decreases h.len(),
{
    if h.len() > 0 {
        lemma_flagged_increasing(h.drop_last());
        lemma_flagged_bounds(h.drop_last());
    }
}

/// The flagged indices of a history are exactly the indices of its
/// flagged verdicts.
proof fn lemma_flagged_membership(h: Seq<VerdictKind>, x: int)
    ensures
        flagged_of(h).contains(x) <==> (0 <= x < h.len() && is_flagged(h[x])),
    decreases h.len(),
{
    if h.len() > 0 {
        lemma_flagged_membership(h.drop_last(), x);
        let prior = flagged_of(h.drop_last());
        if is_flagged(h.last()) {
            assert(flagged_of(h) == prior.push(h.len() - 1));
            assert forall|y: int| flagged_of(h).contains(y) implies prior.contains(y) || y == h.len()
                - 1 by {
                let i = choose|i: int| 0 <= i < flagged_of(h).len() && flagged_of(h)[i] == y;
                if i < prior.len() {
                    assert(prior[i] == y);
                }
            }
            if prior.contains(x) {
                let i = choose|i: int| 0 <= i < prior.len() && prior[i] == x;
                assert(flagged_of(h)[i] == x);
            }
            if x == h.len() - 1 {
                assert(flagged_of(h)[prior.len() as int] == x);
            }
        }
        if 0 <= x < h.len() - 1 {
            assert(h.drop_last()[x] == h[x]);
        }
    }
}

/// Law: in every well-formed statistics snapshot, the flagged-index list is
/// strictly increasing and holds exactly the indices whose verdict was
/// no-mate or an error, in completion order.
pub proof fn lemma_flagged_exact(s: SolveStats)
    requires
        s.wf(),
    ensures
        strictly_increasing(s.error_or_nomate_indices@.map_values(|i: usize| i as int)),
        forall|x: int|
            #[trigger] flagged_of(s.history@).contains(x) <==> (0 <= x < s.history@.len()
                && is_flagged(s.history@[x])),
{
    lemma_flagged_increasing(s.history@);
    assert forall|x: int|
        #[trigger] flagged_of(s.history@).contains(x) <==> (0 <= x < s.history@.len() && is_flagged(
            s.history@[x],
        )) by {
        lemma_flagged_membership(s.history@, x);
    }
}

} // verus!
