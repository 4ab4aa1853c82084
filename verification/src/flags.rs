//! Flag families accepted by the shared-memory operations.
//!
//! Each family is an independent bit-set over operating-system-defined
//! constants, validated against the family's known universe of bits and
//! combined by bitwise or. The control family is not a bit-set but a small
//! set of command words; it gets the same validated-wrapper treatment
//! without a composition operator.

use vstd::prelude::*;

verus! {

/// Key value naming a fresh, unnamed segment rather than a shared key.
pub const IPC_PRIVATE: i32 = 0;

/// Create the segment if no segment is bound to the key.
pub const IPC_CREAT: i32 = 0o1000;

/// Together with `IPC_CREAT`, fail if a segment is already bound to the key.
pub const IPC_EXCL: i32 = 0o2000;

/// Back the segment with huge pages.
pub const SHM_HUGETLB: i32 = 0o4000;

/// Do not reserve swap space for the segment.
pub const SHM_NORESERVE: i32 = 0o10000;

/// Every bit that the allocate-or-locate operation defines.
pub const SHMGET_UNIVERSE: i32 = 0o17000;

/// Attach the segment for reading only.
pub const SHM_RDONLY: i32 = 0o10000;

/// Round a preferred address down to the segment boundary.
pub const SHM_RND: i32 = 0o20000;

/// Replace any existing mapping in the attached range.
pub const SHM_REMAP: i32 = 0o40000;

/// Allow the contents of the segment to be executed.
pub const SHM_EXEC: i32 = 0o100000;

/// Every bit that the attach operation defines.
pub const SHMAT_UNIVERSE: i32 = 0o170000;

/// Mark the segment to be destroyed once its last attachment is released.
pub const IPC_RMID: i32 = 0;

/// Update the permission bits kept with the segment.
pub const IPC_SET: i32 = 1;

/// Copy the segment's status out of the kernel.
pub const IPC_STAT: i32 = 2;

/// Report the highest used entry of the kernel's segment table.
pub const IPC_INFO: i32 = 3;

/// Prevent swapping of the segment.
pub const SHM_LOCK: i32 = 11;

/// Allow swapping of the segment again.
pub const SHM_UNLOCK: i32 = 12;

/// A flag set accepted by the allocate-or-locate operation.
#[derive(Clone, Copy, Debug, PartialEq, Eq, Structural)]
pub struct ShmgetFlag {
    bits: i32,
}

impl View for ShmgetFlag {
    type V = i32;

    closed spec fn view(&self) -> i32 {
        self.bits
    }
}

impl ShmgetFlag {
    /// The flag set lies within the family's universe of defined bits.
    pub open spec fn well_formed(self) -> bool {
        self@ & !SHMGET_UNIVERSE == 0
    }

    /// The empty flag set.
    pub fn empty() -> (r: Self)
        ensures
            r@ == 0,
            r.well_formed(),
    {
        proof {
            assert(0i32 & !0o17000i32 == 0) by (bit_vector);
        }
        ShmgetFlag { bits: 0 }
    }

    /// The `IPC_CREAT` flag alone.
    pub fn ipc_creat() -> (r: Self)
        ensures
            r@ == IPC_CREAT,
            r.well_formed(),
    {
        proof {
            assert(0o1000i32 & !0o17000i32 == 0) by (bit_vector);
        }
        ShmgetFlag { bits: IPC_CREAT }
    }

    /// The `IPC_EXCL` flag alone.
    pub fn ipc_excl() -> (r: Self)
        ensures
            r@ == IPC_EXCL,
            r.well_formed(),
    {
        proof {
            assert(0o2000i32 & !0o17000i32 == 0) by (bit_vector);
        }
        ShmgetFlag { bits: IPC_EXCL }
    }

    /// The `SHM_HUGETLB` flag alone.
    pub fn shm_hugetlb() -> (r: Self)
        ensures
            r@ == SHM_HUGETLB,
            r.well_formed(),
    {
        proof {
            assert(0o4000i32 & !0o17000i32 == 0) by (bit_vector);
        }
        ShmgetFlag { bits: SHM_HUGETLB }
    }

    /// The `SHM_NORESERVE` flag alone.
    pub fn shm_noreserve() -> (r: Self)
        ensures
            r@ == SHM_NORESERVE,
            r.well_formed(),
    {
        proof {
            assert(0o10000i32 & !0o17000i32 == 0) by (bit_vector);
        }
        ShmgetFlag { bits: SHM_NORESERVE }
    }

    /// Validate a raw bit pattern against the family's universe.
    pub fn from_bits(bits: i32) -> (r: Option<Self>)
        ensures
            bits & !SHMGET_UNIVERSE == 0 ==> (r matches Some(f) && f@ == bits),
            bits & !SHMGET_UNIVERSE != 0 ==> r is None,
    {
        if bits & !SHMGET_UNIVERSE == 0 {
            Some(ShmgetFlag { bits })
        } else {
            None
        }
    }

    /// The union of two flag sets.
    pub fn union(self, other: Self) -> (r: Self)
        ensures
            r@ == (self@ | other@),
            self.well_formed() && other.well_formed() ==> r.well_formed(),
    {
        proof {
            let a = self@;
            let b = other@;
            assert(a & !0o17000i32 == 0 && b & !0o17000i32 == 0 ==> (a | b) & !0o17000i32
                == 0) by (bit_vector);
        }
        ShmgetFlag { bits: self.bits | other.bits }
    }

    /// The raw bit pattern of the flag set.
    pub fn bits(self) -> (r: i32)
        ensures
            r == self@,
    {
        self.bits
    }

    /// Whether every bit of `other` is set in `self`.
    pub fn contains(self, other: Self) -> (r: bool)
        ensures
            r == (self@ & other@ == other@),
    {
        self.bits & other.bits == other.bits
    }
}

/// A flag set accepted by the attach operation.
#[derive(Clone, Copy, Debug, PartialEq, Eq, Structural)]
pub struct ShmatFlag {
    bits: i32,
}

impl View for ShmatFlag {
    type V = i32;

    closed spec fn view(&self) -> i32 {
        self.bits
    }
}

impl ShmatFlag {
    /// The flag set lies within the family's universe of defined bits.
    pub open spec fn well_formed(self) -> bool {
        self@ & !SHMAT_UNIVERSE == 0
    }

    /// The empty flag set.
    pub fn empty() -> (r: Self)
        ensures
            r@ == 0,
            r.well_formed(),
    {
        proof {
            assert(0i32 & !0o170000i32 == 0) by (bit_vector);
        }
        ShmatFlag { bits: 0 }
    }

    /// The `SHM_RDONLY` flag alone.
    pub fn shm_rdonly() -> (r: Self)
        ensures
            r@ == SHM_RDONLY,
            r.well_formed(),
    {
        proof {
            assert(0o10000i32 & !0o170000i32 == 0) by (bit_vector);
        }
        ShmatFlag { bits: SHM_RDONLY }
    }

    /// The `SHM_RND` flag alone.
    pub fn shm_rnd() -> (r: Self)
        ensures
            r@ == SHM_RND,
            r.well_formed(),
    {
        proof {
            assert(0o20000i32 & !0o170000i32 == 0) by (bit_vector);
        }
        ShmatFlag { bits: SHM_RND }
    }

    /// The `SHM_REMAP` flag alone.
    pub fn shm_remap() -> (r: Self)
        ensures
            r@ == SHM_REMAP,
            r.well_formed(),
    {
        proof {
            assert(0o40000i32 & !0o170000i32 == 0) by (bit_vector);
        }
        ShmatFlag { bits: SHM_REMAP }
    }

    /// The `SHM_EXEC` flag alone.
    pub fn shm_exec() -> (r: Self)
        ensures
            r@ == SHM_EXEC,
            r.well_formed(),
    {
        proof {
            assert(0o100000i32 & !0o170000i32 == 0) by (bit_vector);
        }
        ShmatFlag { bits: SHM_EXEC }
    }

    /// Validate a raw bit pattern against the family's universe.
    pub fn from_bits(bits: i32) -> (r: Option<Self>)
        ensures
            bits & !SHMAT_UNIVERSE == 0 ==> (r matches Some(f) && f@ == bits),
            bits & !SHMAT_UNIVERSE != 0 ==> r is None,
    {
        if bits & !SHMAT_UNIVERSE == 0 {
            Some(ShmatFlag { bits })
        } else {
            None
        }
    }

    /// The union of two flag sets.
    pub fn union(self, other: Self) -> (r: Self)
        ensures
            r@ == (self@ | other@),
            self.well_formed() && other.well_formed() ==> r.well_formed(),
    {
        proof {
            let a = self@;
            let b = other@;
            assert(a & !0o170000i32 == 0 && b & !0o170000i32 == 0 ==> (a | b) & !0o170000i32
                == 0) by (bit_vector);
        }
        ShmatFlag { bits: self.bits | other.bits }
    }

    /// The raw bit pattern of the flag set.
    pub fn bits(self) -> (r: i32)
        ensures
            r == self@,
    {
        self.bits
    }

    /// Whether every bit of `other` is set in `self`.
    pub fn contains(self, other: Self) -> (r: bool)
        ensures
            r == (self@ & other@ == other@),
    {
        self.bits & other.bits == other.bits
    }
}

/// One control command for a segment.
#[derive(Clone, Copy, Debug, PartialEq, Eq, Structural)]
pub struct ShmctlFlag {
    bits: i32,
}

impl View for ShmctlFlag {
    type V = i32;

    closed spec fn view(&self) -> i32 {
        self.bits
    }
}

impl ShmctlFlag {
    /// The word is one of the commands the control operation defines.
    pub open spec fn well_formed(self) -> bool {
        self@ == IPC_RMID || self@ == IPC_SET || self@ == IPC_STAT || self@ == IPC_INFO || self@
            == SHM_LOCK || self@ == SHM_UNLOCK
    }

    /// The `IPC_RMID` command.
    pub fn ipc_rmid() -> (r: Self)
        ensures
            r@ == IPC_RMID,
            r.well_formed(),
    {
        ShmctlFlag { bits: IPC_RMID }
    }

    /// The `IPC_SET` command.
    pub fn ipc_set() -> (r: Self)
        ensures
            r@ == IPC_SET,
            r.well_formed(),
    {
        ShmctlFlag { bits: IPC_SET }
    }

    /// The `IPC_STAT` command.
    pub fn ipc_stat() -> (r: Self)
        ensures
            r@ == IPC_STAT,
            r.well_formed(),
    {
        ShmctlFlag { bits: IPC_STAT }
    }

    /// The `IPC_INFO` command.
    pub fn ipc_info() -> (r: Self)
        ensures
            r@ == IPC_INFO,
            r.well_formed(),
    {
        ShmctlFlag { bits: IPC_INFO }
    }

    /// The `SHM_LOCK` command.
    pub fn shm_lock() -> (r: Self)
        ensures
            r@ == SHM_LOCK,
            r.well_formed(),
    {
        ShmctlFlag { bits: SHM_LOCK }
    }

    /// The `SHM_UNLOCK` command.
    pub fn shm_unlock() -> (r: Self)
        ensures
            r@ == SHM_UNLOCK,
            r.well_formed(),
    {
        ShmctlFlag { bits: SHM_UNLOCK }
    }

    /// Validate a raw command word against the family's commands.
    pub fn from_bits(bits: i32) -> (r: Option<Self>)
        ensures
            (bits == IPC_RMID || bits == IPC_SET || bits == IPC_STAT || bits == IPC_INFO || bits
                == SHM_LOCK || bits == SHM_UNLOCK) ==> (r matches Some(f) && f@ == bits),
            !(bits == IPC_RMID || bits == IPC_SET || bits == IPC_STAT || bits == IPC_INFO || bits
                == SHM_LOCK || bits == SHM_UNLOCK) ==> r is None,
    {
        if bits == IPC_RMID || bits == IPC_SET || bits == IPC_STAT || bits == IPC_INFO || bits
            == SHM_LOCK || bits == SHM_UNLOCK {
            Some(ShmctlFlag { bits })
        } else {
            None
        }
    }

    /// The raw command word.
    pub fn bits(self) -> (r: i32)
        ensures
            r == self@,
    {
        self.bits
    }
}

} // verus!
