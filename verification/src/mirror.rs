//! Nametable mirroring: how the 4 KiB of nametable addresses fold onto 2 KiB
//! of video RAM.

use vstd::prelude::*;
use crate::addressable::Address;

verus! {

/// The size of the address range that is folded.
pub const MIRROR_SIZE: Address = 0x1000;

/// A way to fold nametable addresses.
pub trait Mirror {
    /// The offset in video RAM that serves the nametable offset `address`.
    spec fn spec_mirror(address: Address) -> Address;

    fn mirror(address: Address) -> (r: Address)
        ensures
            r == Self::spec_mirror(address),
    ;

    /// An offset within the folded range lands within video RAM.
    proof fn lemma_mirror_in_range(address: Address)
        requires
            address < MIRROR_SIZE,
        ensures
            Self::spec_mirror(address) < MIRROR_SIZE / 2,
    ;
}

#[derive(Debug)]
pub struct HorizontalMirror;

#[derive(Debug)]
pub struct VerticalMirror;

impl Mirror for HorizontalMirror {
    /// Horizontal mirroring halves the offset.
    open spec fn spec_mirror(address: Address) -> Address {
        address / 2
    }

    fn mirror(address: Address) -> (r: Address) {
        address / 2
    }

    proof fn lemma_mirror_in_range(address: Address) {
    }
}

impl Mirror for VerticalMirror {
    /// Vertical mirroring takes the offset modulo 2048.
    open spec fn spec_mirror(address: Address) -> Address {
        address % 0x800
    }

    fn mirror(address: Address) -> (r: Address) {
        address % (MIRROR_SIZE / 2)
    }

    proof fn lemma_mirror_in_range(address: Address) {
    }
}

} // verus!
