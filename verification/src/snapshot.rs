use vstd::prelude::*;

verus! {

// One tick's immutable sample of the player's state. Every field is a plain
// value: the grabbed-surface identifiers are integers (0 meaning "nothing
// grabbed"), the position coordinates are IEEE-754 single-precision bit
// patterns, and the optional input-listening word carries its lowest bit as
// the flag. Reading the fields from the foreign process happens outside the
// library; `sample` below turns the raw per-field outcomes of those reads
// into a complete snapshot.

/// Bit pattern of the quiet NaN used as the neutral default for a position
/// coordinate whose read failed. Every range predicate is false on it.
pub const NAN_BITS: u32 = 0x7fc0_0000;

/// An immutable per-tick sample of the player's state.
#[derive(Clone, Copy, PartialEq, Eq, Structural, Debug)]
pub struct Snapshot {
    /// Identifier of the surface the left hand grabs; 0 when not grabbed.
    pub left_grab: u32,
    /// Identifier of the surface the right hand grabs; 0 when not grabbed.
    pub right_grab: u32,
    /// Horizontal position, as a single-precision bit pattern.
    pub x_bits: u32,
    /// Vertical position, as a single-precision bit pattern.
    pub y_bits: u32,
    /// Raw input-listening word (lowest bit set while the game listens for
    /// player input); absent when the target does not expose it.
    pub input_flags: Option<u32>,
}

/// Whether a snapshot's input-listening word is present with its flag set.
pub open spec fn spec_listening(s: Snapshot) -> bool {
    s.input_flags matches Some(w) && w & 1 == 1
}

/// Whether a snapshot's input-listening word is present with its flag clear.
pub open spec fn spec_not_listening(s: Snapshot) -> bool {
    s.input_flags matches Some(w) && w & 1 == 0
}

/// The raw outcomes of one tick's field reads against the foreign process.
/// `None` records a failed (or never attempted) read of that field.
#[derive(Clone, Copy, PartialEq, Eq, Structural, Debug)]
pub struct FieldReads {
    pub left_grab: Option<u32>,
    pub right_grab: Option<u32>,
    pub x_bits: Option<u32>,
    pub y_bits: Option<u32>,
    pub input_flags: Option<u32>,
}

/// The snapshot that a set of read outcomes must yield: each failed read is
/// replaced by its field's neutral default (0 for the grabbed-surface
/// identifiers, a quiet NaN for the coordinates), and the input-listening
/// word stays optional.
pub open spec fn spec_sample(r: FieldReads) -> Snapshot {
    Snapshot {
        left_grab: match r.left_grab {
            Some(v) => v,
            None => 0,
        },
        right_grab: match r.right_grab {
            Some(v) => v,
            None => 0,
        },
        x_bits: match r.x_bits {
            Some(v) => v,
            None => NAN_BITS,
        },
        y_bits: match r.y_bits {
            Some(v) => v,
            None => NAN_BITS,
        },
        input_flags: r.input_flags,
    }
}

/// Builds the tick's snapshot from the raw read outcomes. A failed field
/// read yields that field's neutral default rather than failing the whole
/// sample, so the state machine always receives a complete snapshot.
pub fn sample(r: &FieldReads) -> (s: Snapshot)
    ensures
        s == spec_sample(*r),
{
    Snapshot {
        left_grab: match r.left_grab {
            Some(v) => v,
            None => 0,
        },
        right_grab: match r.right_grab {
            Some(v) => v,
            None => 0,
        },
        x_bits: match r.x_bits {
            Some(v) => v,
            None => NAN_BITS,
        },
        y_bits: match r.y_bits {
            Some(v) => v,
            None => NAN_BITS,
        },
        input_flags: r.input_flags,
    }
}

/// The neutral default for a coordinate is a NaN pattern, so no range
/// predicate ever fires on a coordinate whose read failed.
pub proof fn lemma_default_coordinate_inert(t: u32)
    ensures
        !crate::floatbits::lt_bits(NAN_BITS, t),
        !crate::floatbits::lt_bits(t, NAN_BITS),
{
    assert((NAN_BITS >> 23) & 0xff == 0xff && NAN_BITS & 0x7f_ffff != 0) by (bit_vector);
}

} // verus!
