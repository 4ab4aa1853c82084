//! Access-mode bits kept with a segment.
//!
//! The operating system reuses its file-permission bit layout for
//! inter-process-communication objects; this module models that layout as a
//! validated bit-set over the owner, group and other read-write-execute bits
//! together with the three high special bits.

use vstd::prelude::*;

verus! {

/// Owner read, write and execute.
pub const S_IRWXU: u32 = 0o700;

/// Owner read.
pub const S_IRUSR: u32 = 0o400;

/// Owner write.
pub const S_IWUSR: u32 = 0o200;

/// Owner execute.
pub const S_IXUSR: u32 = 0o100;

/// Group read, write and execute.
pub const S_IRWXG: u32 = 0o70;

/// Group read.
pub const S_IRGRP: u32 = 0o40;

/// Group write.
pub const S_IWGRP: u32 = 0o20;

/// Group execute.
pub const S_IXGRP: u32 = 0o10;

/// Other read, write and execute.
pub const S_IRWXO: u32 = 0o7;

/// Other read.
pub const S_IROTH: u32 = 0o4;

/// Other write.
pub const S_IWOTH: u32 = 0o2;

/// Other execute.
pub const S_IXOTH: u32 = 0o1;

/// One past the largest expressible mode word.
pub const MODE_LIMIT: u32 = 0o10000;

/// A set of access-mode bits.
#[derive(Clone, Copy, Debug, PartialEq, Eq, Structural)]
pub struct Mode {
    bits: u32,
}

impl View for Mode {
    type V = u32;

    closed spec fn view(&self) -> u32 {
        self.bits
    }
}

impl Mode {
    /// The mode lies within the defined permission bits.
    pub open spec fn well_formed(self) -> bool {
        self@ < MODE_LIMIT
    }

    /// The empty mode.
    pub fn empty() -> (r: Self)
        ensures
            r@ == 0,
            r.well_formed(),
    {
        Mode { bits: 0 }
    }

    /// The `S_IRWXU` bits alone.
    pub fn s_irwxu() -> (r: Self)
        ensures
            r@ == S_IRWXU,
            r.well_formed(),
    {
        Mode { bits: S_IRWXU }
    }

    /// The `S_IRUSR` bit alone.
    pub fn s_irusr() -> (r: Self)
        ensures
            r@ == S_IRUSR,
            r.well_formed(),
    {
        Mode { bits: S_IRUSR }
    }

    /// The `S_IWUSR` bit alone.
    pub fn s_iwusr() -> (r: Self)
        ensures
            r@ == S_IWUSR,
            r.well_formed(),
    {
        Mode { bits: S_IWUSR }
    }

    /// The `S_IXUSR` bit alone.
    pub fn s_ixusr() -> (r: Self)
        ensures
            r@ == S_IXUSR,
            r.well_formed(),
    {
        Mode { bits: S_IXUSR }
    }

    /// The `S_IRWXG` bits alone.
    pub fn s_irwxg() -> (r: Self)
        ensures
            r@ == S_IRWXG,
            r.well_formed(),
    {
        Mode { bits: S_IRWXG }
    }

    /// The `S_IRGRP` bit alone.
    pub fn s_irgrp() -> (r: Self)
        ensures
            r@ == S_IRGRP,
            r.well_formed(),
    {
        Mode { bits: S_IRGRP }
    }

    /// The `S_IWGRP` bit alone.
    pub fn s_iwgrp() -> (r: Self)
        ensures
            r@ == S_IWGRP,
            r.well_formed(),
    {
        Mode { bits: S_IWGRP }
    }

    /// The `S_IXGRP` bit alone.
    pub fn s_ixgrp() -> (r: Self)
        ensures
            r@ == S_IXGRP,
            r.well_formed(),
    {
        Mode { bits: S_IXGRP }
    }

    /// The `S_IRWXO` bits alone.
    pub fn s_irwxo() -> (r: Self)
        ensures
            r@ == S_IRWXO,
            r.well_formed(),
    {
        Mode { bits: S_IRWXO }
    }

    /// The `S_IROTH` bit alone.
    pub fn s_iroth() -> (r: Self)
        ensures
            r@ == S_IROTH,
            r.well_formed(),
    {
        Mode { bits: S_IROTH }
    }

    /// The `S_IWOTH` bit alone.
    pub fn s_iwoth() -> (r: Self)
        ensures
            r@ == S_IWOTH,
            r.well_formed(),
    {
        Mode { bits: S_IWOTH }
    }

    /// The `S_IXOTH` bit alone.
    pub fn s_ixoth() -> (r: Self)
        ensures
            r@ == S_IXOTH,
            r.well_formed(),
    {
        Mode { bits: S_IXOTH }
    }

    /// Validate a raw mode word.
    pub fn from_bits(bits: u32) -> (r: Option<Self>)
        ensures
            bits < MODE_LIMIT ==> (r matches Some(m) && m@ == bits),
            bits >= MODE_LIMIT ==> r is None,
    {
        if bits < MODE_LIMIT {
            Some(Mode { bits })
        } else {
            None
        }
    }

    /// The union of two modes.
    pub fn union(self, other: Self) -> (r: Self)
        ensures
            r@ == (self@ | other@),
            self.well_formed() && other.well_formed() ==> r.well_formed(),
    {
        proof {
            let a = self@;
            let b = other@;
            assert(a < 0o10000u32 && b < 0o10000u32 ==> (a | b) < 0o10000u32) by (bit_vector);
        }
        Mode { bits: self.bits | other.bits }
    }

    /// The raw mode word.
    pub fn bits(self) -> (r: u32)
        ensures
            r == self@,
    {
        self.bits
    }

    /// The raw mode word, widened into the flag word's type.
    pub fn bits_i32(self) -> (r: i32)
        requires
            self.well_formed(),
        ensures
            r == self@ as i32,
            0 <= r < MODE_LIMIT,
    {
        self.bits as i32
    }

    /// Whether every bit of `other` is set in `self`.
    pub fn contains(self, other: Self) -> (r: bool)
        ensures
            r == (self@ & other@ == other@),
    {
        self.bits & other.bits == other.bits
    }
}

} // verus!
