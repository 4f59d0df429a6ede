use vstd::prelude::*;

verus! {

use crate::floatbits::{eq_bits, value_eq};

// Locating a target object inside the game's version-dependent memory layout.
// A candidate pointer chain is one hypothesis about how to reach the object
// from the module base; a table of them is tried in order and the first whose
// sentinel value reads back exactly as expected wins — table order is a
// deliberate tie-break. Dereferencing the chains happens outside the library:
// each candidate's raw outcome arrives here as a `Probe`, and everything the
// scan decides from those outcomes is verified.

/// One hypothesis about how to reach the target object, paired with the rule
/// that confirms the hypothesis: after the chain resolves, the value read
/// through `validation_path` must equal `expected_bits` exactly.
#[derive(Clone, PartialEq, Eq, Debug)]
pub struct Candidate {
    /// Offsets walked from the module base: the first is added to the base,
    /// each later one is added after dereferencing the previous result.
    pub chain: Vec<u64>,
    /// Offsets walked the same way from the resolved object to the sentinel.
    pub validation_path: Vec<u64>,
    /// Single-precision bit pattern the sentinel must equal exactly (not an
    /// approximate comparison: the sentinels are distinctive bit patterns).
    pub expected_bits: u32,
}

/// A resolved target object: its address and the index of the candidate that
/// produced it. Valid only until its next revalidation fails.
#[derive(Clone, Copy, PartialEq, Eq, Structural, Debug)]
pub struct ResolvedObject {
    pub address: u64,
    pub index: usize,
}

/// The raw outcome of probing one candidate against the foreign process:
/// where its chain resolved to, if every link could be dereferenced, and the
/// sentinel bits read through the validation path, if that read succeeded.
/// `None` in either field records a failed read — a normal, expected outcome.
#[derive(Clone, Copy, PartialEq, Eq, Structural, Debug)]
pub struct Probe {
    pub address: Option<u64>,
    pub sentinel: Option<u32>,
}

/// Whether a probe outcome confirms its candidate: the chain resolved and the
/// sentinel read back as exactly the expected value (NaN never matches).
pub open spec fn spec_validates(c: Candidate, p: Probe) -> bool {
    &&& p.address is Some
    &&& p.sentinel matches Some(s) && eq_bits(s, c.expected_bits)
}

/// Returns whether a probe outcome confirms its candidate.
pub fn validates(c: &Candidate, p: &Probe) -> (r: bool)
    ensures
        r == spec_validates(*c, *p),
{
    match (p.address, p.sentinel) {
        (Some(_), Some(s)) => value_eq(s, c.expected_bits),
        _ => false,
    }
}

/// The first candidate at or after position `i` whose probe validates, with
/// the address its probe resolved; `None` when no such candidate exists.
pub open spec fn spec_find_from(table: Seq<Candidate>, probes: Seq<Probe>, i: int) -> Option<
    ResolvedObject,
>
    decreases table.len() - i,
{
    if i < 0 || i >= table.len() || probes.len() != table.len() {
        None
    } else if spec_validates(table[i], probes[i]) {
        Some(ResolvedObject { address: probes[i].address->0, index: i as usize })
    } else {
        spec_find_from(table, probes, i + 1)
    }
}

/// The first candidate in table order whose probe validates.
pub open spec fn spec_find(table: Seq<Candidate>, probes: Seq<Probe>) -> Option<ResolvedObject> {
    spec_find_from(table, probes, 0)
}

/// Scans the probe outcomes in table order and returns the first candidate
/// whose probe validates, paired with the address that probe resolved.
/// `None` — no candidate currently applies — is a normal outcome, expected
/// while the game is in a state where the target object does not exist.
pub fn find(table: &Vec<Candidate>, probes: &Vec<Probe>) -> (r: Option<ResolvedObject>)
    requires
        probes@.len() == table@.len(),
    ensures
        r == spec_find(table@, probes@),
{
    let n = table.len();
    let mut i: usize = 0;
    while i < n
        invariant
            probes@.len() == table@.len(),
            n == table@.len(),
            i <= n,
            spec_find(table@, probes@) == spec_find_from(table@, probes@, i as int),
        decreases n - i,
    {
        if validates(&table[i], &probes[i]) {
            let address = probes[i].address.unwrap();
            return Some(ResolvedObject { address, index: i });
        }
        i = i + 1;
    }
    None
}

/// Whatever the probes, a found object's index lies inside the table.
pub proof fn lemma_find_index_in_range(table: Seq<Candidate>, probes: Seq<Probe>, i: int)
    requires
        0 <= i,
        table.len() <= usize::MAX,
    ensures
        spec_find_from(table, probes, i) matches Some(o) ==> i <= o.index < table.len(),
    decreases table.len() - i,
{
    if i < table.len() && probes.len() == table.len() && !spec_validates(table[i], probes[i]) {
        lemma_find_index_in_range(table, probes, i + 1);
    }
}

/// Over a table none of whose probes validates — in particular over one whose
/// reads all failed — the scan finds nothing; a failed candidate is skipped,
/// never an error.
pub proof fn lemma_all_failing_finds_nothing(table: Seq<Candidate>, probes: Seq<Probe>, i: int)
    requires
        0 <= i,
        forall|j: int| 0 <= j < table.len() ==> !spec_validates(table[j], probes[j]),
    ensures
        spec_find_from(table, probes, i) is None,
    decreases table.len() - i,
{
    if i < table.len() && probes.len() == table.len() {
        lemma_all_failing_finds_nothing(table, probes, i + 1);
    }
}

/// Caches the last successful scan. Each steady-state tick only revalidates
/// the cached object's sentinel before use; on a failed revalidation the
/// cache is dropped and the caller falls back to a full rescan of the table.
pub struct PointerResolver {
    pub cached: Option<ResolvedObject>,
}

impl PointerResolver {
    /// The cached object, when present, points into the table it was found in.
    pub open spec fn wf(self, table: Seq<Candidate>) -> bool {
        self.cached matches Some(o) ==> o.index < table.len()
    }

    /// A fresh resolver with nothing cached.
    pub fn new() -> (r: PointerResolver)
        ensures
            r.cached is None,
    {
        PointerResolver { cached: None }
    }

    /// Forgets the cached object (used when the target process goes away).
    pub fn invalidate(&mut self)
        ensures
            final(self).cached is None,
    {
        self.cached = None;
    }

    /// Records the outcome of a full rescan: the first candidate in table
    /// order whose probe validates becomes the cached object.
    pub fn rescan(&mut self, table: &Vec<Candidate>, probes: &Vec<Probe>) -> (r: Option<
        ResolvedObject,
    >)
        requires
            probes@.len() == table@.len(),
        ensures
            r == spec_find(table@, probes@),
            final(self).cached == r,
            final(self).wf(table@),
    {
        let r = find(table, probes);
        proof {
            assert(table.len() == table@.len());
            lemma_find_index_in_range(table@, probes@, 0);
        }
        self.cached = r;
        r
    }

    /// Applies one revalidation outcome to the cache: keeps the cached object
    /// exactly when the freshly read sentinel still equals its candidate's
    /// expected value, and drops it otherwise so that the caller rescans.
    pub fn revalidate(&mut self, table: &Vec<Candidate>, sentinel: Option<u32>) -> (ok: bool)
        requires
            old(self).cached matches Some(o) && o.index < table@.len(),
        ensures
            ok == (sentinel matches Some(s) && eq_bits(
                s,
                table@[old(self).cached->0.index as int].expected_bits,
            )),
            ok ==> final(self).cached == old(self).cached,
            !ok ==> final(self).cached is None,
    {
        let o = self.cached.unwrap();
        let ok = match sentinel {
            Some(s) => value_eq(s, table[o.index].expected_bits),
            None => false,
        };
        if !ok {
            self.cached = None;
        }
        ok
    }
}

} // verus!
