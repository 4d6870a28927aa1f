//! Report computations: decimal rendering, the per-file diagnostic lines,
//! the guarded throughput rate, and the grand total over all jobs.

use vstd::prelude::*;

use crate::job::JobResult;

verus! {

/// The decimal digit character for `d` (meaningful for `d < 10`).
pub open spec fn dec_digit(d: nat) -> char {
    if d == 0 {
        '0'
    } else if d == 1 {
        '1'
    } else if d == 2 {
        '2'
    } else if d == 3 {
        '3'
    } else if d == 4 {
        '4'
    } else if d == 5 {
        '5'
    } else if d == 6 {
        '6'
    } else if d == 7 {
        '7'
    } else if d == 8 {
        '8'
    } else {
        '9'
    }
}

/// The decimal rendering of `n`, most significant digit first.
pub open spec fn dec_str(n: nat) -> Seq<char>
    decreases n,
{
    if n < 10 {
        seq![dec_digit(n)]
    } else {
        dec_str(n / 10).push(dec_digit(n % 10))
    }
}

/// The one-character string for the decimal digit `d`.
fn digit_str(d: usize) -> (s: &'static str)
    requires
        d < 10,
    ensures
        s@ =~= seq![dec_digit(d as nat)],
{
    proof {
        reveal_strlit("0");
        reveal_strlit("1");
        reveal_strlit("2");
        reveal_strlit("3");
        reveal_strlit("4");
        reveal_strlit("5");
        reveal_strlit("6");
        reveal_strlit("7");
        reveal_strlit("8");
        reveal_strlit("9");
    }
    match d {
        0 => "0",
        1 => "1",
        2 => "2",
        3 => "3",
        4 => "4",
        5 => "5",
        6 => "6",
        7 => "7",
        8 => "8",
        _ => "9",
    }
}

/// Render `n` in decimal.
pub fn usize_to_string(n: usize) -> (s: String)
    ensures
        s@ == dec_str(n as nat),
    decreases n,
{
    if n < 10 {
        String::from_str(digit_str(n))
    } else {
        let mut s = usize_to_string(n / 10);
        s.append(digit_str(n % 10));
        proof {
            assert(s@ =~= dec_str(n as nat));
        }
        s
    }
}

/// Nodes per second over a whole job: zero when no time was measured (a
/// degenerate run divides by nothing instead of faulting), saturated at
/// the largest representable rate.
pub open spec fn spec_nps(nodes: nat, elapsed_ms: nat) -> nat {
    if elapsed_ms == 0 {
        0
    } else if nodes * 1000 / elapsed_ms > u64::MAX {
        u64::MAX as nat
    } else {
        nodes * 1000 / elapsed_ms
    }
}

/// Compute a job's throughput in nodes per second from its node total and
/// its wall-clock time in milliseconds.
pub fn nodes_per_second(nodes: usize, elapsed_ms: u64) -> (nps: u64)
    ensures
        nps == spec_nps(nodes as nat, elapsed_ms as nat),
        elapsed_ms == 0 ==> nps == 0,
{
    if elapsed_ms == 0 {
        0
    } else {
        let wide: u128 = (nodes as u128) * 1000 / (elapsed_ms as u128);
        if wide > u64::MAX as u128 {
            u64::MAX
        } else {
            wide as u64
        }
    }
}

/// The decimal renderings of `s`, joined by a comma and a space.
pub open spec fn joined_dec(s: Seq<usize>) -> Seq<char>
    decreases s.len(),
{
    if s.len() == 0 {
        Seq::empty()
    } else if s.len() == 1 {
        dec_str(s[0] as nat)
    } else {
        joined_dec(s.drop_last()) + ", "@ + dec_str(s.last() as nat)
    }
}

/// How many flagged indices a report shows at most.
pub const MAX_SHOWN_INDICES: usize = 10;

/// Render the flagged-index list for a job's report: the indices joined by
/// commas, truncated to the first ten with a trailing ellipsis marker when
/// more were flagged.
pub fn format_flagged_indices(indices: &Vec<usize>) -> (line: String)
    ensures
        indices@.len() <= MAX_SHOWN_INDICES ==> line@ == joined_dec(indices@),
        indices@.len() > MAX_SHOWN_INDICES ==> line@ == joined_dec(
            indices@.take(MAX_SHOWN_INDICES as int),
        ) + ", ..."@,
{
    let limit: usize = if indices.len() > MAX_SHOWN_INDICES {
        MAX_SHOWN_INDICES
    } else {
        indices.len()
    };
    let mut line = String::new();
    let mut i: usize = 0;
    while i < limit
        invariant
            0 <= i <= limit,
            limit <= indices@.len(),
            line@ == joined_dec(indices@.take(i as int)),
        decreases limit - i,
    {
        if i > 0 {
            line.append(", ");
        }
        let ds = usize_to_string(indices[i]);
        line.append(ds.as_str());
        proof {
            let upto = indices@.take(i + 1 as int);
            assert(upto.drop_last() =~= indices@.take(i as int));
            assert(upto.last() == indices@[i as int]);
            assert(line@ =~= joined_dec(upto));
        }
        i = i + 1;
    }
    if indices.len() > MAX_SHOWN_INDICES {
        line.append(", ...");
    } else {
        proof {
            assert(indices@.take(indices@.len() as int) =~= indices@);
        }
    }
    line
}

/// Render one labelled count, as the diagnostic lines under a job's
/// summary show it.
pub fn count_line(label: &str, n: usize) -> (line: String)
    ensures
        line@ == label@ + dec_str(n as nat),
{
    let mut line = String::from_str(label);
    let ds = usize_to_string(n);
    line.append(ds.as_str());
    line
}

/// Running total of searched nodes across all completed jobs; owned by the
/// result collector alone and updated once per job result, in arrival
/// order — plain addition, so the total is order-independent.
#[derive(Clone, Copy, Debug)]
pub struct GrandTotal {
    /// Sum of the node totals of every job reported so far.
    pub nodes: usize,
}

impl GrandTotal {
    /// An empty total, before any job has reported.
    pub fn new() -> (t: Self)
        ensures
            t.nodes == 0,
    {
        GrandTotal { nodes: 0 }
    }

    /// Fold one completed job's node total into the grand total.
    pub fn add_result(&mut self, result: &JobResult)
        requires
            old(self).nodes + result.stats.nodes <= usize::MAX,
        ensures
            final(self).nodes == old(self).nodes + result.stats.nodes,
    {
        self.nodes = self.nodes + result.stats.nodes;
    }
}

} // verus!
