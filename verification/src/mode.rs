//! The permission bits of a FIFO.

use vstd::prelude::*;

verus! {

/// All the bits that a permission set can hold: read, write and execute for
/// owner, group and others, set-user-id, set-group-id and the sticky bit.
pub const PERMISSION_BITS: u32 = 0o7777;

/// The permission set that a FIFO gets when none is asked for: read and write
/// for the owner, read for group and others.
pub const DEFAULT_MODE_BITS: u32 = 0o644;

/// A set of permission bits. It never holds a bit outside
/// [`PERMISSION_BITS`].
#[derive(Clone, Copy, Debug)]
pub struct PipeMode {
    bits: u32,
}

impl View for PipeMode {
    type V = u32;

    closed spec fn view(&self) -> u32 {
        self.bits
    }
}

impl PipeMode {
    #[verifier::type_invariant]
    spec fn within_permission_bits(self) -> bool {
        self.bits <= PERMISSION_BITS
    }

    /// The permission set of [`DEFAULT_MODE_BITS`].
    pub closed spec fn standard() -> PipeMode {
        PipeMode { bits: DEFAULT_MODE_BITS }
    }

    /// The set [`PipeMode::standard`] holds the default bits.
    pub broadcast proof fn lemma_standard_bits()
        ensures
            #[trigger] Self::standard()@ == DEFAULT_MODE_BITS,
    {
    }

    /// The permission set with exactly the bits given, if each of them is a
    /// permission bit.
    pub fn from_bits(bits: u32) -> (mode: Option<PipeMode>)
        ensures
            mode is Some <==> bits <= PERMISSION_BITS,
            mode matches Some(m) ==> m@ == bits,
    {
        if bits <= PERMISSION_BITS {
            Some(PipeMode { bits })
        } else {
            None
        }
    }

    /// The bits of the set.
    pub fn bits(&self) -> (bits: u32)
        ensures
            bits == self@,
            bits <= PERMISSION_BITS,
    {
        proof {
            use_type_invariant(self);
        }
        self.bits
    }
}

impl Default for PipeMode {
    /// The permission set of [`DEFAULT_MODE_BITS`].
    fn default() -> (mode: PipeMode)
        ensures
            mode == PipeMode::standard(),
            mode@ == DEFAULT_MODE_BITS,
    {
        PipeMode { bits: DEFAULT_MODE_BITS }
    }
}

} // verus!
