use vstd::prelude::*;

verus! {

use crate::machine::{ProgressStateMachine, ZoneRule};
use crate::resolver::Candidate;

// The per-game-version data: the candidate pointer chains that locate the two
// target objects, the field paths read from them each tick, the ordered
// zone-transition table, and the start and reset height thresholds. Adapting
// the splitter to another game build is a change of this data, never of the
// resolver or state machine code. All height and sentinel constants are
// single-precision bit patterns.

/// Bit pattern of 2.0: a grab transition counts as a run start only strictly
/// below this height.
pub const START_Y_LIMIT_BITS: u32 = 0x4000_0000;

/// Bit pattern of -3.0: falling strictly below this height aborts the run.
pub const RESET_Y_LIMIT_BITS: u32 = 0xc040_0000;

/// Bit pattern of 75.0: the grip-strength value that confirms a resolved
/// animation controller.
pub const GRIP_SENTINEL_BITS: u32 = 0x4296_0000;

/// Bit pattern of -0.5: the depth coordinate that confirms a resolved
/// position object.
pub const DEPTH_SENTINEL_BITS: u32 = 0xbf00_0000;

/// The zone-transition table shared by both profiles, short of the final
/// credits entry: Mountain, Jungle, Factory, Pool, Construction, Cave, Ice.
/// Order encodes level traversal order and is the split tie-break.
pub open spec fn spec_zone_table_body() -> Seq<ZoneRule> {
    seq![
        // Mountain: y > 31
        ZoneRule { y_above: Some(0x41f8_0000u32), y_below: None, x_above: None, x_below: None },
        // Jungle: y > 55 and x < 0
        ZoneRule {
            y_above: Some(0x425c_0000u32),
            y_below: None,
            x_above: None,
            x_below: Some(0x0000_0000u32),
        },
        // Factory: 80 < y < 87 and x > 8
        ZoneRule {
            y_above: Some(0x42a0_0000u32),
            y_below: Some(0x42ae_0000u32),
            x_above: Some(0x4100_0000u32),
            x_below: None,
        },
        // Pool: y > 109 and x < 20
        ZoneRule {
            y_above: Some(0x42da_0000u32),
            y_below: None,
            x_above: None,
            x_below: Some(0x41a0_0000u32),
        },
        // Construction: y > 135
        ZoneRule { y_above: Some(0x4307_0000u32), y_below: None, x_above: None, x_below: None },
        // Cave: y > 152
        ZoneRule { y_above: Some(0x4318_0000u32), y_below: None, x_above: None, x_below: None },
        // Ice: y > 204 and x < 47
        ZoneRule {
            y_above: Some(0x434c_0000u32),
            y_below: None,
            x_above: None,
            x_below: Some(0x423c_0000u32),
        },
    ]
}

/// The standard zone table: the shared body, then Credits at y > 247.
pub open spec fn spec_standard_zone_table() -> Seq<ZoneRule> {
    spec_zone_table_body().push(
        ZoneRule { y_above: Some(0x4377_0000u32), y_below: None, x_above: None, x_below: None },
    )
}

/// The alternate zone table: the shared body, then Credits at y > 245. The
/// observed game builds disagree on the credits threshold with no indication
/// which is authoritative, so both stay independently selectable.
pub open spec fn spec_alternate_zone_table() -> Seq<ZoneRule> {
    spec_zone_table_body().push(
        ZoneRule { y_above: Some(0x4375_0000u32), y_below: None, x_above: None, x_below: None },
    )
}

fn zone_table_body() -> (t: Vec<ZoneRule>)
    ensures
        t@ == spec_zone_table_body(),
{
    let t: Vec<ZoneRule> = vec![
        ZoneRule { y_above: Some(0x41f8_0000u32), y_below: None, x_above: None, x_below: None },
        ZoneRule {
            y_above: Some(0x425c_0000u32),
            y_below: None,
            x_above: None,
            x_below: Some(0x0000_0000u32),
        },
        ZoneRule {
            y_above: Some(0x42a0_0000u32),
            y_below: Some(0x42ae_0000u32),
            x_above: Some(0x4100_0000u32),
            x_below: None,
        },
        ZoneRule {
            y_above: Some(0x42da_0000u32),
            y_below: None,
            x_above: None,
            x_below: Some(0x41a0_0000u32),
        },
        ZoneRule { y_above: Some(0x4307_0000u32), y_below: None, x_above: None, x_below: None },
        ZoneRule { y_above: Some(0x4318_0000u32), y_below: None, x_above: None, x_below: None },
        ZoneRule {
            y_above: Some(0x434c_0000u32),
            y_below: None,
            x_above: None,
            x_below: Some(0x423c_0000u32),
        },
    ];
    proof {
        assert(t@ =~= spec_zone_table_body());
    }
    t
}

/// Builds the standard zone table (Credits at y > 247).
pub fn standard_zone_table() -> (t: Vec<ZoneRule>)
    ensures
        t@ == spec_standard_zone_table(),
{
    let mut t = zone_table_body();
    t.push(
        ZoneRule { y_above: Some(0x4377_0000u32), y_below: None, x_above: None, x_below: None },
    );
    t
}

/// Builds the alternate zone table (Credits at y > 245).
pub fn alternate_zone_table() -> (t: Vec<ZoneRule>)
    ensures
        t@ == spec_alternate_zone_table(),
{
    let mut t = zone_table_body();
    t.push(
        ZoneRule { y_above: Some(0x4375_0000u32), y_below: None, x_above: None, x_below: None },
    );
    t
}

/// A state machine over the standard zone table, with the standard start and
/// reset heights and the input-listening reset policy disabled.
pub fn standard_machine() -> (m: ProgressStateMachine)
    ensures
        m.table@ == spec_standard_zone_table(),
        m.progress.mask == 0,
        m.start_y_limit == START_Y_LIMIT_BITS,
        m.reset_y_limit == RESET_Y_LIMIT_BITS,
        !m.listening_reset,
        m.wf(),
{
    let t = standard_zone_table();
    ProgressStateMachine::new(t, START_Y_LIMIT_BITS, RESET_Y_LIMIT_BITS, false)
}

/// The offsets walked from a resolved animation controller to the sentinel
/// grip-strength value.
pub open spec fn spec_grip_validation_path() -> Seq<u64> {
    seq![0x20u64, 0x18, 0x18, 0x18, 0xc0]
}

/// Candidate pointer chains for the animation controller, in the order they
/// are tried. Every candidate is validated by reading the grip-strength
/// value and comparing it with 75.0 exactly.
pub fn anim_controller_candidates() -> (t: Vec<Candidate>)
    ensures
        t@.len() == 10,
        forall|i: int|
            0 <= i < 10 ==> (t@[i].validation_path@ == spec_grip_validation_path()
                && t@[i].expected_bits == GRIP_SENTINEL_BITS),
        t@[0].chain@ == seq![0x1ad8388u64, 0x0, 0x3a0, 0x0, 0x10, 0x30, 0x38, 0x28],
        t@[1].chain@ == seq![0x1a8c3c0u64, 0x328, 0x50, 0x168, 0x30, 0x78, 0x30, 0x38, 0x28],
        t@[2].chain@ == seq![0x1ad81d0u64, 0x940, 0x1f8, 0x298, 0x150, 0x68, 0x68, 0x38, 0x28],
        t@[3].chain@ == seq![0x1ad8388u64, 0x0, 0x3a0, 0x0, 0x28, 0x10, 0x0, 0x30, 0x38, 0x28],
        t@[4].chain@ == seq![0x1a8c3c0u64, 0xf0, 0xe8, 0x50, 0x168, 0x30, 0x78, 0x30, 0x38, 0x28],
        t@[5].chain@ == seq![0x1a8c280u64, 0x50, 0x128, 0xe8, 0x78, 0xc8, 0x30, 0x30, 0x38, 0x28],
        t@[6].chain@ == seq![0x1a8c3c0u64, 0x2a0, 0x0, 0x18, 0x10, 0xd0, 0x30, 0x30, 0x38, 0x28],
        t@[7].chain@ == seq![0x1b15160u64, 0x8, 0x8, 0x28, 0x0, 0x10, 0x30, 0x30, 0x38, 0x28],
        t@[8].chain@ == seq![0x1ad81c8u64, 0x40, 0xd78, 0xc8, 0x298, 0x150, 0x68, 0x68, 0x38, 0x28],
        t@[9].chain@ == seq![0x1ad8388u64, 0x0, 0x5f8, 0x3b0, 0x0, 0x10, 0x30, 0x158, 0x48, 0x28],
{
    let t: Vec<Candidate> = vec![
        grip_candidate(vec![0x1ad8388u64, 0x0, 0x3a0, 0x0, 0x10, 0x30, 0x38, 0x28]),
        grip_candidate(vec![0x1a8c3c0u64, 0x328, 0x50, 0x168, 0x30, 0x78, 0x30, 0x38, 0x28]),
        grip_candidate(vec![0x1ad81d0u64, 0x940, 0x1f8, 0x298, 0x150, 0x68, 0x68, 0x38, 0x28]),
        grip_candidate(vec![0x1ad8388u64, 0x0, 0x3a0, 0x0, 0x28, 0x10, 0x0, 0x30, 0x38, 0x28]),
        grip_candidate(vec![0x1a8c3c0u64, 0xf0, 0xe8, 0x50, 0x168, 0x30, 0x78, 0x30, 0x38, 0x28]),
        grip_candidate(vec![0x1a8c280u64, 0x50, 0x128, 0xe8, 0x78, 0xc8, 0x30, 0x30, 0x38, 0x28]),
        grip_candidate(vec![0x1a8c3c0u64, 0x2a0, 0x0, 0x18, 0x10, 0xd0, 0x30, 0x30, 0x38, 0x28]),
        grip_candidate(vec![0x1b15160u64, 0x8, 0x8, 0x28, 0x0, 0x10, 0x30, 0x30, 0x38, 0x28]),
        grip_candidate(vec![0x1ad81c8u64, 0x40, 0xd78, 0xc8, 0x298, 0x150, 0x68, 0x68, 0x38, 0x28]),
        grip_candidate(vec![0x1ad8388u64, 0x0, 0x5f8, 0x3b0, 0x0, 0x10, 0x30, 0x158, 0x48, 0x28]),
    ];
    t
}

/// Wraps one animation-controller chain with the shared validation rule.
fn grip_candidate(chain: Vec<u64>) -> (c: Candidate)
    ensures
        c.chain@ == chain@,
        c.validation_path@ == spec_grip_validation_path(),
        c.expected_bits == GRIP_SENTINEL_BITS,
{
    let validation_path: Vec<u64> = vec![0x20u64, 0x18, 0x18, 0x18, 0xc0];
    proof {
        assert(validation_path@ =~= spec_grip_validation_path());
    }
    Candidate { chain, validation_path, expected_bits: GRIP_SENTINEL_BITS }
}

/// Candidate pointer chains for the position object, in the order they are
/// tried. Every candidate is validated by reading the depth coordinate at
/// its validation offset and comparing it with -0.5 exactly.
pub fn position_object_candidates() -> (t: Vec<Candidate>)
    ensures
        t@.len() == 10,
        forall|i: int| 0 <= i < 10 ==> t@[i].expected_bits == DEPTH_SENTINEL_BITS,
        forall|i: int|
            0 <= i < 10 ==> t@[i].validation_path@ == seq![if 6 <= i < 9 { 0xf8u64 } else { 0xe8u64 }],
        t@[0].chain@ == seq![0x1a8c3c0u64, 0x328, 0x78, 0xc8, 0x30, 0x30, 0x48],
        t@[1].chain@ == seq![0x1ad8388u64, 0x0, 0x3a0, 0x0, 0x10, 0x30, 0x48, 0x90],
        t@[2].chain@ == seq![0x1a8c3c0u64, 0x328, 0x78, 0xc8, 0x140, 0x30, 0x30, 0x48],
        t@[3].chain@ == seq![0x1ad8388u64, 0x0, 0x3a0, 0x0, 0x10, 0x30, 0x168, 0x80],
        t@[4].chain@ == seq![0x1a8c3c0u64, 0x328, 0x78, 0xc8, 0x30, 0x30, 0x48, 0x90],
        t@[5].chain@ == seq![0x1a8c3c0u64, 0x328, 0x78, 0xc8, 0x30, 0x30, 0x48, 0x90],
        t@[6].chain@ == seq![0x1b15160u64, 0x8, 0x8, 0x28, 0x0, 0xa0, 0x18, 0x0],
        t@[7].chain@ == seq![0x1b15168u64, 0x8, 0x48, 0x28, 0x0, 0xa0, 0x18, 0x0],
        t@[8].chain@ == seq![0x1b1aaf8u64, 0x0, 0x88, 0x28, 0x0, 0xa0, 0x18, 0x0],
        t@[9].chain@ == seq![0x1a8c3c0u64, 0xf0, 0xe8, 0x78, 0xc8, 0x30, 0x30, 0x48, 0xe0],
{
    let t: Vec<Candidate> = vec![
        depth_candidate(vec![0x1a8c3c0u64, 0x328, 0x78, 0xc8, 0x30, 0x30, 0x48], 0xe8),
        depth_candidate(vec![0x1ad8388u64, 0x0, 0x3a0, 0x0, 0x10, 0x30, 0x48, 0x90], 0xe8),
        depth_candidate(vec![0x1a8c3c0u64, 0x328, 0x78, 0xc8, 0x140, 0x30, 0x30, 0x48], 0xe8),
        depth_candidate(vec![0x1ad8388u64, 0x0, 0x3a0, 0x0, 0x10, 0x30, 0x168, 0x80], 0xe8),
        depth_candidate(vec![0x1a8c3c0u64, 0x328, 0x78, 0xc8, 0x30, 0x30, 0x48, 0x90], 0xe8),
        depth_candidate(vec![0x1a8c3c0u64, 0x328, 0x78, 0xc8, 0x30, 0x30, 0x48, 0x90], 0xe8),
        depth_candidate(vec![0x1b15160u64, 0x8, 0x8, 0x28, 0x0, 0xa0, 0x18, 0x0], 0xf8),
        depth_candidate(vec![0x1b15168u64, 0x8, 0x48, 0x28, 0x0, 0xa0, 0x18, 0x0], 0xf8),
        depth_candidate(vec![0x1b1aaf8u64, 0x0, 0x88, 0x28, 0x0, 0xa0, 0x18, 0x0], 0xf8),
        depth_candidate(vec![0x1a8c3c0u64, 0xf0, 0xe8, 0x78, 0xc8, 0x30, 0x30, 0x48, 0xe0], 0xe8),
    ];
    t
}

/// Wraps one position-object chain with its single validation offset.
fn depth_candidate(chain: Vec<u64>, validation_offset: u64) -> (c: Candidate)
    ensures
        c.chain@ == chain@,
        c.validation_path@ == seq![validation_offset],
        c.expected_bits == DEPTH_SENTINEL_BITS,
{
    let validation_path: Vec<u64> = vec![validation_offset];
    proof {
        assert(validation_path@ =~= seq![validation_offset]);
    }
    Candidate { chain, validation_path, expected_bits: DEPTH_SENTINEL_BITS }
}

/// The offsets walked from the two resolved objects to the sampled fields.
pub struct PlayerFieldPaths {
    /// From the animation controller to the left-hand surface identifier.
    pub left_grab: Vec<u64>,
    /// From the animation controller to the right-hand surface identifier.
    pub right_grab: Vec<u64>,
    /// From the position object to the horizontal coordinate.
    pub x_bits: Vec<u64>,
    /// From the position object to the vertical coordinate.
    pub y_bits: Vec<u64>,
}

/// Builds the field paths of this game build.
pub fn player_field_paths() -> (p: PlayerFieldPaths)
    ensures
        p.left_grab@ == seq![0x20u64, 0xa0, 0x34],
        p.right_grab@ == seq![0x18u64, 0xa0, 0x34],
        p.x_bits@ == seq![0xe0u64],
        p.y_bits@ == seq![0xe4u64],
{
    let p = PlayerFieldPaths {
        left_grab: vec![0x20u64, 0xa0, 0x34],
        right_grab: vec![0x18u64, 0xa0, 0x34],
        x_bits: vec![0xe0u64],
        y_bits: vec![0xe4u64],
    };
    proof {
        assert(p.left_grab@ =~= seq![0x20u64, 0xa0, 0x34]);
        assert(p.right_grab@ =~= seq![0x18u64, 0xa0, 0x34]);
        assert(p.x_bits@ =~= seq![0xe0u64]);
        assert(p.y_bits@ =~= seq![0xe4u64]);
    }
    p
}

/// Name of the game process to attach to.
pub fn process_name() -> (s: &'static str)
    ensures
        s@ == "A Difficult Game About Climbing.exe"@,
{
    "A Difficult Game About Climbing.exe"
}

/// Name of the module whose base address anchors every pointer chain.
pub fn module_name() -> (s: &'static str)
    ensures
        s@ == "UnityPlayer.dll"@,
{
    "UnityPlayer.dll"
}

} // verus!
