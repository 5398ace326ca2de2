//! The parts of an addon descriptor that are plain values.
use vstd::prelude::*;

verus! {

/// Version of an addon, as four components compared in order.
#[derive(Debug, Clone, Copy, PartialEq, Eq, Structural, PartialOrd, Ord, Hash)]
pub struct AddonVersion {
    pub major: i16,
    pub minor: i16,
    pub build: i16,
    pub revision: i16,
}

/// Where the host looks for updates of an addon.
#[derive(Debug, Clone, Copy, PartialEq, Eq, Structural, PartialOrd, Ord, Hash)]
pub enum UpdateProvider {
    /// Does not support auto updating.
    NoUpdate,
    /// Raidcore via API.
    Raidcore,
    /// GitHub releases.
    GitHub,
    /// Direct file link.
    Direct,
    /// Manual updating: the addon checks versions itself and requests updates.
    Manual,
}

/// The value that stands for each provider in the host's descriptor layout.
pub open spec fn provider_code(p: UpdateProvider) -> i32 {
    match p {
        UpdateProvider::NoUpdate => 0,
        UpdateProvider::Raidcore => 1,
        UpdateProvider::GitHub => 2,
        UpdateProvider::Direct => 3,
        UpdateProvider::Manual => 4,
    }
}

impl UpdateProvider {
    /// The provider's value in the host's descriptor layout.
    pub fn to_raw(self) -> (r: i32)
        ensures
            r == provider_code(self),
    {
        match self {
            UpdateProvider::NoUpdate => 0,
            UpdateProvider::Raidcore => 1,
            UpdateProvider::GitHub => 2,
            UpdateProvider::Direct => 3,
            UpdateProvider::Manual => 4,
        }
    }

    /// The provider with the given layout value, if there is one.
    pub fn from_raw(raw: i32) -> (r: Option<UpdateProvider>)
        ensures
            r matches Some(p) ==> provider_code(p) == raw,
            r is None <==> !(0 <= raw <= 4),
    {
        match raw {
            0 => Some(UpdateProvider::NoUpdate),
            1 => Some(UpdateProvider::Raidcore),
            2 => Some(UpdateProvider::GitHub),
            3 => Some(UpdateProvider::Direct),
            4 => Some(UpdateProvider::Manual),
            _ => None,
        }
    }
}

} // verus!

verus! {

/// Information about an addon, as a set of bits that the host reads.
#[derive(Debug, Clone, Copy, PartialEq, Eq, Structural, PartialOrd, Ord, Hash)]
pub struct AddonFlags {
    pub bits: u32,
}

impl AddonFlags {
    /// Hooking functions or doing anything else that is volatile and game build dependant.
    pub const IS_VOLATILE: u32 = 1;

    /// Prevents unloading at runtime. Will require a restart if updated, etc.
    pub const DISABLE_HOTLOADING: u32 = 2;

    /// Prevents loading the addon later than the initial character select.
    pub const ONLY_LOAD_DURING_GAME_LAUNCH_SEQUENCE: u32 = 4;

    /// The union of the bits that name a flag.
    pub const ALL_BITS: u32 = 7;

    /// No flag set.
    pub fn empty() -> (r: AddonFlags)
        ensures
            r.bits == 0,
    {
        AddonFlags { bits: 0 }
    }

    /// Every named flag set.
    pub fn all() -> (r: AddonFlags)
        ensures
            r.bits == Self::ALL_BITS,
    {
        AddonFlags { bits: Self::ALL_BITS }
    }

    /// The raw bits.
    pub fn bits(&self) -> (r: u32)
        ensures
            r == self.bits,
    {
        self.bits
    }

    /// The flags of `bits`, or `None` where it sets a bit that names no flag.
    pub fn from_bits(bits: u32) -> (r: Option<AddonFlags>)
        ensures
            r is Some <==> bits & !Self::ALL_BITS == 0,
            r matches Some(f) ==> f.bits == bits,
    {
        let truncated = bits & Self::ALL_BITS;
        if truncated == bits {
            assert(bits & !Self::ALL_BITS == 0) by (bit_vector)
                requires
                    bits & 7u32 == bits,
            ;
            Some(AddonFlags { bits })
        } else {
            assert(bits & !Self::ALL_BITS != 0) by (bit_vector)
                requires
                    bits & 7u32 != bits,
            ;
            None
        }
    }

    /// The flags of `bits`, with the bits that name no flag cleared.
    pub fn from_bits_truncate(bits: u32) -> (r: AddonFlags)
        ensures
            r.bits == bits & Self::ALL_BITS,
    {
        AddonFlags { bits: bits & Self::ALL_BITS }
    }

    /// The flags of `bits`, with every bit kept.
    pub fn from_bits_retain(bits: u32) -> (r: AddonFlags)
        ensures
            r.bits == bits,
    {
        AddonFlags { bits }
    }

    /// Whether no bit is set.
    pub fn is_empty(&self) -> (r: bool)
        ensures
            r == (self.bits == 0),
    {
        self.bits == 0
    }

    /// Whether every named flag is set.
    pub fn is_all(&self) -> (r: bool)
        ensures
            r == (self.bits & Self::ALL_BITS == Self::ALL_BITS),
    {
        let r = Self::ALL_BITS | self.bits == self.bits;
        let b = self.bits;
        assert((7u32 | b == b) == (b & 7u32 == 7u32)) by (bit_vector);
        r
    }

    /// Whether some bit is set in both.
    pub fn intersects(&self, other: AddonFlags) -> (r: bool)
        ensures
            r == (self.bits & other.bits != 0),
    {
        self.bits & other.bits != 0
    }

    /// Whether every bit of `other` is set in `self`.
    pub fn contains(&self, other: AddonFlags) -> (r: bool)
        ensures
            r == (self.bits & other.bits == other.bits),
    {
        self.bits & other.bits == other.bits
    }

    /// The bits set in either.
    pub fn union(self, other: AddonFlags) -> (r: AddonFlags)
        ensures
            r.bits == self.bits | other.bits,
    {
        AddonFlags { bits: self.bits | other.bits }
    }

    /// The bits set in both.
    pub fn intersection(self, other: AddonFlags) -> (r: AddonFlags)
        ensures
            r.bits == self.bits & other.bits,
    {
        AddonFlags { bits: self.bits & other.bits }
    }

    /// The bits set in `self` and not in `other`.
    pub fn difference(self, other: AddonFlags) -> (r: AddonFlags)
        ensures
            r.bits == self.bits & !other.bits,
    {
        AddonFlags { bits: self.bits & !other.bits }
    }

    /// The bits set in exactly one of the two.
    pub fn symmetric_difference(self, other: AddonFlags) -> (r: AddonFlags)
        ensures
            r.bits == self.bits ^ other.bits,
    {
        AddonFlags { bits: self.bits ^ other.bits }
    }

    /// The named flags that are not set.
    pub fn complement(self) -> (r: AddonFlags)
        ensures
            r.bits == !self.bits & Self::ALL_BITS,
    {
        AddonFlags { bits: !self.bits & Self::ALL_BITS }
    }

    /// Sets the bits of `other`.
    pub fn insert(&mut self, other: AddonFlags)
        ensures
            final(self).bits == old(self).bits | other.bits,
    {
        self.bits = self.bits | other.bits;
    }

    /// Clears the bits of `other`.
    pub fn remove(&mut self, other: AddonFlags)
        ensures
            final(self).bits == old(self).bits & !other.bits,
    {
        self.bits = self.bits & !other.bits;
    }

    /// Flips the bits of `other`.
    pub fn toggle(&mut self, other: AddonFlags)
        ensures
            final(self).bits == old(self).bits ^ other.bits,
    {
        self.bits = self.bits ^ other.bits;
    }

    /// Sets the bits of `other` where `value` holds, clears them otherwise.
    pub fn set(&mut self, other: AddonFlags, value: bool)
        ensures
            value ==> final(self).bits == old(self).bits | other.bits,
            !value ==> final(self).bits == old(self).bits & !other.bits,
    {
        if value {
            self.insert(other);
        } else {
            self.remove(other);
        }
    }
}

} // verus!
