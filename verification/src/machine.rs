use vstd::prelude::*;

verus! {

use crate::floatbits::lt_bits;
use crate::floatbits::value_lt;
use crate::snapshot::{Snapshot, spec_listening, spec_not_listening};

// The monotonic progress state machine: it compares consecutive snapshots and
// the record of zones already credited, and decides when to command the run
// timer to start, split or reset. All decisions are edge-triggered and gated
// by the timer's reported phase, so a condition that stays true over many
// ticks issues its command only once.

/// The externally reported state of the run timer.
#[derive(Clone, Copy, PartialEq, Eq, Structural, Debug)]
pub enum TimerPhase {
    NotRunning,
    Running,
    Paused,
    Ended,
    Unknown,
}

/// A start may be issued only while no run is counted as underway.
pub open spec fn spec_may_start(p: TimerPhase) -> bool {
    p is NotRunning || p is Ended || p is Unknown
}

/// A split may be issued only while the timer runs.
pub open spec fn spec_may_split(p: TimerPhase) -> bool {
    p is Running
}

/// A reset may be issued only while the timer is not already reset.
pub open spec fn spec_may_reset(p: TimerPhase) -> bool {
    !(p is NotRunning)
}

/// Returns whether the phase admits a start command.
pub fn may_start(p: TimerPhase) -> (b: bool)
    ensures
        b == spec_may_start(p),
{
    match p {
        TimerPhase::NotRunning => true,
        TimerPhase::Ended => true,
        TimerPhase::Unknown => true,
        _ => false,
    }
}

/// Returns whether the phase admits a split command.
pub fn may_split(p: TimerPhase) -> (b: bool)
    ensures
        b == spec_may_split(p),
{
    match p {
        TimerPhase::Running => true,
        _ => false,
    }
}

/// Returns whether the phase admits a reset command.
pub fn may_reset(p: TimerPhase) -> (b: bool)
    ensures
        b == spec_may_reset(p),
{
    match p {
        TimerPhase::NotRunning => false,
        _ => true,
    }
}

/// One zone-transition entry: an axis-aligned range check over the player's
/// position. Each bound is a single-precision bit pattern and each comparison
/// is strict; a bound left as `None` is not checked. A coordinate that
/// defaulted to NaN satisfies no bound, so a zone never fires on a failed
/// position read.
#[derive(Clone, Copy, PartialEq, Eq, Structural, Debug)]
pub struct ZoneRule {
    /// Fires only while the height is strictly above this pattern.
    pub y_above: Option<u32>,
    /// Fires only while the height is strictly below this pattern.
    pub y_below: Option<u32>,
    /// Fires only while the horizontal position is strictly above this pattern.
    pub x_above: Option<u32>,
    /// Fires only while the horizontal position is strictly below this pattern.
    pub x_below: Option<u32>,
}

/// Whether a snapshot's position satisfies every bound of a zone rule.
pub open spec fn spec_rule_holds(r: ZoneRule, s: Snapshot) -> bool {
    &&& (r.y_above matches Some(t) ==> lt_bits(t, s.y_bits))
    &&& (r.y_below matches Some(t) ==> lt_bits(s.y_bits, t))
    &&& (r.x_above matches Some(t) ==> lt_bits(t, s.x_bits))
    &&& (r.x_below matches Some(t) ==> lt_bits(s.x_bits, t))
}

/// Returns whether a snapshot's position satisfies every bound of a rule.
pub fn rule_holds(r: &ZoneRule, s: &Snapshot) -> (b: bool)
    ensures
        b == spec_rule_holds(*r, *s),
{
    let ya = match r.y_above {
        Some(t) => value_lt(t, s.y_bits),
        None => true,
    };
    let yb = match r.y_below {
        Some(t) => value_lt(s.y_bits, t),
        None => true,
    };
    let xa = match r.x_above {
        Some(t) => value_lt(t, s.x_bits),
        None => true,
    };
    let xb = match r.x_below {
        Some(t) => value_lt(s.x_bits, t),
        None => true,
    };
    ya && yb && xa && xb
}

/// A fixed-size bit set recording which zone-transition entries have already
/// fired in the current run, one bit per table position. During a run bits
/// are only ever set, never individually cleared; the whole set is cleared
/// exactly when a run starts or resets.
#[derive(Clone, Copy, PartialEq, Eq, Structural, Debug)]
pub struct ZoneProgress {
    pub mask: u32,
}

proof fn lemma_set_bit(m: u32, i: u32, j: u32)
    by (bit_vector)
    requires
        i < 32,
        j < 32,
    ensures
        (((m | (1u32 << i)) >> j) & 1u32 == 1u32) <==> (((m >> j) & 1u32 == 1u32) || j == i),
{
}

proof fn lemma_empty_bit(j: u32)
    by (bit_vector)
    ensures
        (0u32 >> j) & 1u32 != 1u32,
{
}

impl ZoneProgress {
    /// Whether the zone at table position `i` has already fired.
    pub open spec fn spec_has(self, i: int) -> bool {
        0 <= i < 32 && (self.mask >> (i as u32)) & 1u32 == 1u32
    }

    /// An empty progress record: no zone has fired.
    pub fn empty() -> (r: ZoneProgress)
        ensures
            r.mask == 0,
            forall|j: int| !r.spec_has(j),
    {
        proof {
            assert forall|j: int| !(ZoneProgress { mask: 0u32 }).spec_has(j) by {
                if 0 <= j < 32 {
                    lemma_empty_bit(j as u32);
                }
            }
        }
        ZoneProgress { mask: 0 }
    }

    /// Returns whether the zone at table position `i` has already fired.
    pub fn has(&self, i: usize) -> (b: bool)
        requires
            i < 32,
        ensures
            b == self.spec_has(i as int),
    {
        (self.mask >> (i as u32)) & 1 == 1
    }

    /// Marks the zone at table position `i` as fired; every other position
    /// keeps its state.
    pub fn set(&mut self, i: usize)
        requires
            i < 32,
        ensures
            forall|j: int| final(self).spec_has(j) <==> (old(self).spec_has(j) || j == i as int),
    {
        let ghost m0: u32 = self.mask;
        self.mask = self.mask | (1u32 << (i as u32));
        proof {
            assert forall|j: int|
                self.spec_has(j) <==> (old(self).spec_has(j) || j == i as int) by {
                if 0 <= j < 32 {
                    lemma_set_bit(m0, i as u32, j as u32);
                }
            }
        }
    }

    /// Clears the whole record: no zone counts as fired any more.
    pub fn clear(&mut self)
        ensures
            final(self).mask == 0,
            forall|j: int| !final(self).spec_has(j),
    {
        self.mask = 0;
        proof {
            assert forall|j: int| !self.spec_has(j) by {
                if 0 <= j < 32 {
                    lemma_empty_bit(j as u32);
                }
            }
        }
    }
}

/// The first table position at or after `i` whose zone has not fired yet and
/// whose rule the snapshot satisfies; `None` when no such position exists.
/// Table order is the tie-break: at most one zone fires per scan even when
/// several rules hold at once.
pub open spec fn spec_first_due(
    table: Seq<ZoneRule>,
    prog: ZoneProgress,
    s: Snapshot,
    i: int,
) -> Option<int>
    decreases table.len() - i,
{
    if i < 0 || i >= table.len() {
        None
    } else if !prog.spec_has(i) && spec_rule_holds(table[i], s) {
        Some(i)
    } else {
        spec_first_due(table, prog, s, i + 1)
    }
}

/// The first table position at or after `i` whose zone has not fired yet,
/// over a table of `n` zones; `None` when every zone has fired.
pub open spec fn spec_next_unreached(n: int, prog: ZoneProgress, i: int) -> Option<int>
    decreases n - i,
{
    if i < 0 || i >= n {
        None
    } else if !prog.spec_has(i) {
        Some(i)
    } else {
        spec_next_unreached(n, prog, i + 1)
    }
}

/// The decisions one tick produced.
#[derive(Clone, Copy, PartialEq, Eq, Structural, Debug)]
pub struct TickOutcome {
    /// A start command is due: a run just began.
    pub start: bool,
    /// A split command is due: a zone threshold was just crossed.
    pub split: bool,
    /// A reset command is due: the run just aborted.
    pub reset: bool,
}

/// Compares consecutive snapshots against the zone table and the progress of
/// the current run, and decides when the timer must start, split or reset.
pub struct ProgressStateMachine {
    /// Ordered zone-transition table; its order encodes level traversal order
    /// and must be preserved exactly.
    pub table: Vec<ZoneRule>,
    /// Which table positions have already produced a split this run.
    pub progress: ZoneProgress,
    /// A grab transition counts as a run start only strictly below this
    /// height (single-precision bit pattern).
    pub start_y_limit: u32,
    /// Falling strictly below this height (single-precision bit pattern)
    /// counts as a run abort.
    pub reset_y_limit: u32,
    /// Enables the second reset policy, "input listening stopped". Off by
    /// default: it depends on input-state semantics of the target that must
    /// be confirmed per game build.
    pub listening_reset: bool,
}

/// Both machines carry the same zone table and thresholds.
pub open spec fn spec_same_config(a: ProgressStateMachine, b: ProgressStateMachine) -> bool {
    &&& a.table@ == b.table@
    &&& a.start_y_limit == b.start_y_limit
    &&& a.reset_y_limit == b.reset_y_limit
    &&& a.listening_reset == b.listening_reset
}

impl ProgressStateMachine {
    /// The progress record has one bit per table position.
    pub open spec fn wf(self) -> bool {
        self.table@.len() <= 32
    }

    /// A run starts exactly when the player goes from "neither hand grabbing
    /// a surface" to "at least one hand grabbing", strictly below the start
    /// height. The transition is edge-triggered: a snapshot pair that merely
    /// stays grabbed never starts a run.
    pub open spec fn spec_should_start(self, o: Snapshot, n: Snapshot) -> bool {
        &&& o.left_grab == 0
        &&& o.right_grab == 0
        &&& (n.left_grab != 0 || n.right_grab != 0)
        &&& lt_bits(n.y_bits, self.start_y_limit)
    }

    /// A run aborts when the player falls below the reset height, or — only
    /// under the optional policy — when the input-listening flag goes from
    /// set to clear (entering a death or menu screen).
    pub open spec fn spec_should_reset(self, o: Snapshot, n: Snapshot) -> bool {
        ||| lt_bits(n.y_bits, self.reset_y_limit)
        ||| (self.listening_reset && spec_listening(o) && spec_not_listening(n))
    }

    /// A new machine over a zone table and thresholds, with empty progress.
    pub fn new(
        table: Vec<ZoneRule>,
        start_y_limit: u32,
        reset_y_limit: u32,
        listening_reset: bool,
    ) -> (m: ProgressStateMachine)
        requires
            table@.len() <= 32,
        ensures
            m.table@ == table@,
            m.progress.mask == 0,
            m.start_y_limit == start_y_limit,
            m.reset_y_limit == reset_y_limit,
            m.listening_reset == listening_reset,
            m.wf(),
    {
        ProgressStateMachine {
            table,
            progress: ZoneProgress::empty(),
            start_y_limit,
            reset_y_limit,
            listening_reset,
        }
    }

    /// Returns whether this snapshot pair is a run start.
    pub fn should_start(&self, o: &Snapshot, n: &Snapshot) -> (b: bool)
        ensures
            b == self.spec_should_start(*o, *n),
    {
        let grabbed_now = n.left_grab != 0 || n.right_grab != 0;
        o.left_grab == 0 && o.right_grab == 0 && grabbed_now && value_lt(
            n.y_bits,
            self.start_y_limit,
        )
    }

    /// Returns whether this snapshot pair is a run abort.
    pub fn should_reset(&self, o: &Snapshot, n: &Snapshot) -> (b: bool)
        ensures
            b == self.spec_should_reset(*o, *n),
    {
        if value_lt(n.y_bits, self.reset_y_limit) {
            return true;
        }
        if !self.listening_reset {
            return false;
        }
        match (o.input_flags, n.input_flags) {
            (Some(ow), Some(nw)) => ow & 1 == 1 && nw & 1 == 0,
            _ => false,
        }
    }

    /// The first table position whose zone has not fired yet in this run —
    /// the zone the player is expected to reach next; `None` once every zone
    /// has fired.
    pub fn next_unreached(&self) -> (r: Option<usize>)
        requires
            self.wf(),
        ensures
            (match r {
                Some(i) => spec_next_unreached(self.table@.len() as int, self.progress, 0)
                    == Some(i as int),
                None => spec_next_unreached(self.table@.len() as int, self.progress, 0) is None,
            }),
    {
        let n = self.table.len();
        let mut i: usize = 0;
        while i < n
            invariant
                n == self.table@.len(),
                n <= 32,
                i <= n,
                spec_next_unreached(n as int, self.progress, 0) == spec_next_unreached(
                    n as int,
                    self.progress,
                    i as int,
                ),
            decreases n - i,
        {
            if !self.progress.has(i) {
                return Some(i);
            }
            i = i + 1;
        }
        None
    }

    /// Scans the zone table in order; the first entry whose zone has not yet
    /// fired and whose rule the snapshot satisfies has its bit set and yields
    /// a split. At most one zone fires per tick even if several thresholds
    /// are satisfied at once — table order is the tie-break.
    pub fn should_split(&mut self, s: &Snapshot) -> (split: bool)
        requires
            old(self).wf(),
        ensures
            spec_same_config(*final(self), *old(self)),
            final(self).wf(),
            split == (spec_first_due(old(self).table@, old(self).progress, *s, 0) is Some),
            !split ==> final(self).progress == old(self).progress,
            split ==> (forall|j: int|
                final(self).progress.spec_has(j) <==> (old(self).progress.spec_has(j) || j
                    == spec_first_due(old(self).table@, old(self).progress, *s, 0)->0)),
    {
        let n = self.table.len();
        let mut i: usize = 0;
        while i < n
            invariant
                self == old(self),
                n == self.table@.len(),
                n <= 32,
                i <= n,
                spec_first_due(self.table@, self.progress, *s, 0) == spec_first_due(
                    self.table@,
                    self.progress,
                    *s,
                    i as int,
                ),
            decreases n - i,
        {
            if !self.progress.has(i) && rule_holds(&self.table[i], s) {
                self.progress.set(i);
                return true;
            }
            i = i + 1;
        }
        false
    }

    /// One tick of the state machine: evaluates start, split and reset on the
    /// snapshot pair, gated by the timer phase read at the start of the tick,
    /// and clears the progress record exactly on a start and on a reset.
    pub fn tick(&mut self, phase: TimerPhase, o: &Snapshot, n: &Snapshot) -> (out: TickOutcome)
        requires
            old(self).wf(),
        ensures
            spec_same_config(*final(self), *old(self)),
            final(self).wf(),
            out.start == (spec_may_start(phase) && old(self).spec_should_start(*o, *n)),
            out.split == (spec_may_split(phase) && spec_first_due(
                old(self).table@,
                old(self).progress,
                *n,
                0,
            ) is Some),
            out.reset == (spec_may_reset(phase) && old(self).spec_should_reset(*o, *n)),
            (out.start || out.reset) ==> final(self).progress.mask == 0,
            (!out.start && !out.reset && out.split) ==> (forall|j: int|
                final(self).progress.spec_has(j) <==> (old(self).progress.spec_has(j) || j
                    == spec_first_due(old(self).table@, old(self).progress, *n, 0)->0)),
            (!out.start && !out.reset && !out.split) ==> final(self).progress == old(
                self,
            ).progress,
    {
        let start = may_start(phase) && self.should_start(o, n);
        if start {
            self.progress.clear();
        }
        let split = if may_split(phase) {
            self.should_split(n)
        } else {
            false
        };
        let reset = may_reset(phase) && self.should_reset(o, n);
        if reset {
            self.progress.clear();
        }
        TickOutcome { start, split, reset }
    }
}

/// Once a zone's bit is set in the progress record, no later scan over that
/// record selects the zone again, even if its rule still holds: each zone
/// splits at most once per run.
pub proof fn lemma_zone_splits_once(
    table: Seq<ZoneRule>,
    prog: ZoneProgress,
    s: Snapshot,
    z: int,
    i: int,
)
    requires
        prog.spec_has(z),
    ensures
        spec_first_due(table, prog, s, i) != Some(z),
    decreases table.len() - i,
{
    if 0 <= i < table.len() {
        if !(!prog.spec_has(i) && spec_rule_holds(table[i], s)) {
            lemma_zone_splits_once(table, prog, s, z, i + 1);
        }
    }
}

/// A start is never detected while the previous snapshot already had either
/// hand grabbing a surface: a mid-climb grab cannot retrigger a run start.
pub proof fn lemma_no_start_while_grabbing(m: ProgressStateMachine, o: Snapshot, n: Snapshot)
    requires
        o.left_grab != 0 || o.right_grab != 0,
    ensures
        !m.spec_should_start(o, n),
{
}

/// While the timer already reports "not running", no reset command may be
/// issued: two consecutive reset-worthy ticks issue reset only once, because
/// the first tick leaves the timer not running.
pub proof fn lemma_reset_not_reissued(phase: TimerPhase)
    requires
        phase is NotRunning,
    ensures
        !spec_may_reset(phase),
{
}

} // verus!
