//! The segment table and the typed handle over one segment.
//!
//! The kernel's shared-memory subsystem is modelled as a table of segments,
//! each holding one value of the mapped type; a handle owns exactly one
//! attachment to one segment. The four operations — allocate-or-locate,
//! attach, control, detach — are given their observable contract over this
//! table: which identifier or error each input produces, and how the table
//! changes. The binding of the same operations to the kernel's own table is
//! the thin unverified layer around this crate; it builds its call words and
//! interprets its return values through the functions verified here.

use vstd::prelude::*;

use crate::errno::Errno;
use crate::flags::IPC_CREAT;
use crate::flags::IPC_EXCL;
use crate::flags::IPC_INFO;
use crate::flags::IPC_PRIVATE;
use crate::flags::IPC_RMID;
use crate::flags::IPC_SET;
use crate::flags::IPC_STAT;
use crate::flags::SHM_LOCK;
use crate::flags::SHM_RDONLY;
use crate::flags::SHM_UNLOCK;
use crate::flags::ShmatFlag;
use crate::flags::ShmctlFlag;
use crate::flags::ShmgetFlag;
use crate::mode::Mode;

verus! {

/// The status values a control operation carries in or out.
#[derive(Clone, Copy, Debug, PartialEq, Eq, Structural)]
pub struct ShmidDs {
    /// The permission bits to keep with the segment.
    pub mode: u32,
}

/// One shared memory segment of the table.
#[derive(Clone, Copy)]
pub struct Segment<T> {
    /// The identifier the table issued for the segment.
    pub id: i32,
    /// The key cooperating callers agreed on, or `IPC_PRIVATE`.
    pub key: i32,
    /// The byte size the segment was created with.
    pub size: usize,
    /// The permission bits kept with the segment.
    pub perm: u32,
    /// The value stored in the segment, absent until first written.
    pub contents: Option<T>,
    /// How many attachments the segment currently has.
    pub nattch: u32,
    /// Whether the segment is marked to be destroyed at its last detach.
    pub removed: bool,
    /// Whether the segment is locked against swapping.
    pub locked: bool,
}

/// The mathematical view of a segment table.
pub struct ShmStoreView<T> {
    /// The live segments, in order of creation.
    pub segs: Seq<Segment<T>>,
    /// The identifier the next created segment will receive.
    pub next_id: i32,
}

/// The mathematical view of a handle: which segment it is attached to, and
/// whether the attachment permits writing.
#[derive(Clone, Copy)]
pub struct SharedMemoryView {
    /// The identifier of the attached segment.
    pub id: i32,
    /// Whether the attachment is read-only.
    pub read_only: bool,
}

impl<T> ShmStoreView<T> {
    /// The table's internal invariant: identifiers are positive, unique and
    /// below the issue counter, a shared key names at most one segment,
    /// segments marked for destruction have given their key up and are still
    /// attached, and permission words hold only permission bits.
    pub open spec fn wf(self) -> bool {
        &&& 1 <= self.next_id
        &&& self.segs.len() < self.next_id as int
        &&& forall|i: int|
            0 <= i < self.segs.len() ==> 0 < (#[trigger] self.segs[i]).id < self.next_id
        &&& forall|i: int, j: int|
            0 <= i < self.segs.len() && 0 <= j < self.segs.len() && i != j ==> (
            #[trigger] self.segs[i]).id != (#[trigger] self.segs[j]).id
        &&& forall|i: int, j: int|
            0 <= i < self.segs.len() && 0 <= j < self.segs.len() && i != j && (
            #[trigger] self.segs[i]).key != IPC_PRIVATE ==> self.segs[i].key != (
            #[trigger] self.segs[j]).key
        &&& forall|i: int|
            0 <= i < self.segs.len() && (#[trigger] self.segs[i]).removed ==> self.segs[i].key
                == IPC_PRIVATE && self.segs[i].nattch > 0
        &&& forall|i: int|
            0 <= i < self.segs.len() ==> (#[trigger] self.segs[i]).perm & !0o777u32 == 0
    }

    /// Whether some segment is bound to `key`.
    pub open spec fn has_key(self, key: i32) -> bool {
        exists|i: int| 0 <= i < self.segs.len() && (#[trigger] self.segs[i]).key == key
    }

    /// The position of the segment bound to `key`.
    pub open spec fn key_index(self, key: i32) -> int {
        choose|i: int| 0 <= i < self.segs.len() && (#[trigger] self.segs[i]).key == key
    }

    /// Whether some segment carries the identifier `id`.
    pub open spec fn has_id(self, id: i32) -> bool {
        exists|i: int| 0 <= i < self.segs.len() && (#[trigger] self.segs[i]).id == id
    }

    /// The position of the segment carrying the identifier `id`.
    pub open spec fn id_index(self, id: i32) -> int {
        choose|i: int| 0 <= i < self.segs.len() && (#[trigger] self.segs[i]).id == id
    }

    /// The segment carrying the identifier `id`.
    pub open spec fn seg_of(self, id: i32) -> Segment<T>
        recommends
            self.has_id(id),
    {
        self.segs[self.id_index(id)]
    }

    /// Whether `h` is a live attachment into this table.
    pub open spec fn valid_handle(self, h: SharedMemoryView) -> bool {
        self.has_id(h.id) && self.seg_of(h.id).nattch >= 1
    }
}

/// Whether a permission word grants every owner bit requested.
pub open spec fn perm_grants(perm: u32, requested: u32) -> bool {
    requested & 0o700 & !perm == 0
}

impl<T> ShmStoreView<T> {
    /// Create a fresh segment bound to `key`, or report that the table's
    /// identifier space is exhausted.
    pub open spec fn create_spec(self, key: i32, mode: u32, size: usize) -> (ShmStoreView<T>, Result<
        i32,
        Errno,
    >) {
        if self.next_id == i32::MAX {
            (self, Err(Errno::ENOSPC))
        } else {
            (
                ShmStoreView {
                    segs: self.segs.push(
                        Segment {
                            id: self.next_id,
                            key: key,
                            size: size,
                            perm: mode & 0o777,
                            contents: None,
                            nattch: 0,
                            removed: false,
                            locked: false,
                        },
                    ),
                    next_id: (self.next_id + 1) as i32,
                },
                Ok(self.next_id),
            )
        }
    }

    /// Allocate or locate a segment: a private key always creates; a shared
    /// key locates the segment bound to it, failing with `EEXIST` under
    /// exclusive creation and with `EACCES` when the requested owner bits
    /// exceed the granted ones; an unbound key creates under `IPC_CREAT`
    /// and fails with `ENOENT` otherwise.
    pub open spec fn shmget_spec(self, key: i32, flags: i32, mode: u32, size: usize) -> (ShmStoreView<
        T,
    >, Result<i32, Errno>) {
        if key == IPC_PRIVATE {
            self.create_spec(key, mode, size)
        } else if self.has_key(key) {
            let seg = self.segs[self.key_index(key)];
            if flags & (IPC_CREAT | IPC_EXCL) == (IPC_CREAT | IPC_EXCL) {
                (self, Err(Errno::EEXIST))
            } else if !perm_grants(seg.perm, mode) {
                (self, Err(Errno::EACCES))
            } else {
                (self, Ok(seg.id))
            }
        } else if flags & IPC_CREAT == 0 {
            (self, Err(Errno::ENOENT))
        } else {
            self.create_spec(key, mode, size)
        }
    }
    /// Attach to the segment carrying `id`. The composed call word decides
    /// read-only attachment; the segment must grant the owner bits the
    /// attachment needs. An unknown identifier reports `EINVAL`.
    pub open spec fn shmat_spec(self, id: i32, word: i32) -> (ShmStoreView<T>, Result<
        SharedMemoryView,
        Errno,
    >) {
        if !self.has_id(id) {
            (self, Err(Errno::EINVAL))
        } else {
            let i = self.id_index(id);
            let seg = self.segs[i];
            let read_only = word & SHM_RDONLY != 0;
            if read_only && seg.perm & 0o400 == 0 {
                (self, Err(Errno::EACCES))
            } else if !read_only && seg.perm & 0o600 != 0o600 {
                (self, Err(Errno::EACCES))
            } else if seg.nattch == u32::MAX {
                (self, Err(Errno::ENOMEM))
            } else {
                (
                    ShmStoreView {
                        segs: self.segs.update(
                            i,
                            Segment { nattch: (seg.nattch + 1) as u32, ..seg },
                        ),
                        ..self
                    },
                    Ok(SharedMemoryView { id: id, read_only: read_only }),
                )
            }
        }
    }

    /// The value read through an attachment: the segment's contents, absent
    /// until some attachment has written them.
    pub open spec fn read_spec(self, h: SharedMemoryView) -> Option<T>
        recommends
            self.valid_handle(h),
    {
        self.seg_of(h.id).contents
    }

    /// Write through an attachment: refused on a read-only attachment,
    /// otherwise the segment's contents become the written value.
    pub open spec fn write_spec(self, h: SharedMemoryView, value: T) -> (ShmStoreView<T>, Result<
        (),
        Errno,
    >)
        recommends
            self.valid_handle(h),
    {
        if h.read_only {
            (self, Err(Errno::EACCES))
        } else {
            let i = self.id_index(h.id);
            let seg = self.segs[i];
            (
                ShmStoreView {
                    segs: self.segs.update(i, Segment { contents: Some(value), ..seg }),
                    ..self
                },
                Ok(()),
            )
        }
    }
    /// Perform one control command on the segment carrying `id`. Marking for
    /// removal gives the key up at once and destroys the segment as soon as
    /// no attachment remains; updating the status takes the permission bits
    /// from the carried status value.
    pub open spec fn shmctl_spec(self, id: i32, word: i32, buf: Option<ShmidDs>) -> (ShmStoreView<
        T,
    >, Result<i32, Errno>) {
        if !self.has_id(id) {
            (self, Err(Errno::EINVAL))
        } else {
            let i = self.id_index(id);
            let seg = self.segs[i];
            if word == IPC_RMID {
                if seg.nattch == 0 {
                    (ShmStoreView { segs: self.segs.remove(i), ..self }, Ok(0))
                } else {
                    (
                        ShmStoreView {
                            segs: self.segs.update(
                                i,
                                Segment { key: IPC_PRIVATE, removed: true, ..seg },
                            ),
                            ..self
                        },
                        Ok(0),
                    )
                }
            } else if word == IPC_SET {
                match buf {
                    Some(b) => (
                        ShmStoreView {
                            segs: self.segs.update(i, Segment { perm: b.mode & 0o777, ..seg }),
                            ..self
                        },
                        Ok(0),
                    ),
                    None => (self, Err(Errno::EFAULT)),
                }
            } else if word == IPC_STAT {
                (self, Ok(0))
            } else if word == IPC_INFO {
                (self, Ok((self.segs.len() - 1) as i32))
            } else if word == SHM_LOCK {
                (ShmStoreView { segs: self.segs.update(i, Segment { locked: true, ..seg }), ..self },
                Ok(0))
            } else if word == SHM_UNLOCK {
                (
                    ShmStoreView {
                        segs: self.segs.update(i, Segment { locked: false, ..seg }),
                        ..self
                    },
                    Ok(0),
                )
            } else {
                (self, Err(Errno::EINVAL))
            }
        }
    }

    /// Release one attachment of the segment `h` is attached to: the
    /// segment is destroyed when its last attachment leaves a segment
    /// marked for removal, and stays otherwise.
    pub open spec fn shmdt_spec(self, h: SharedMemoryView) -> ShmStoreView<T>
        recommends
            self.valid_handle(h),
    {
        if !self.has_id(h.id) {
            self
        } else {
            let i = self.id_index(h.id);
            let seg = self.segs[i];
            if seg.removed && seg.nattch <= 1 {
                ShmStoreView { segs: self.segs.remove(i), ..self }
            } else {
                ShmStoreView {
                    segs: self.segs.update(i, Segment { nattch: (seg.nattch - 1) as u32, ..seg }),
                    ..self
                }
            }
        }
    }
}

/// In a well-formed table, any position whose segment is bound to `key`
/// is the position `key_index` names.
pub proof fn lemma_key_index_is<T>(m: ShmStoreView<T>, key: i32, i: int)
    requires
        m.wf(),
        key != IPC_PRIVATE,
        0 <= i < m.segs.len(),
        m.segs[i].key == key,
    ensures
        m.has_key(key),
        m.key_index(key) == i,
{
    assert(m.has_key(key));
    let j = m.key_index(key);
    assert(0 <= j < m.segs.len() && m.segs[j].key == key);
}

/// In a well-formed table, any position whose segment carries `id` is the
/// position `id_index` names.
pub proof fn lemma_id_index_is<T>(m: ShmStoreView<T>, id: i32, i: int)
    requires
        m.wf(),
        0 <= i < m.segs.len(),
        m.segs[i].id == id,
    ensures
        m.has_id(id),
        m.id_index(id) == i,
{
    assert(m.has_id(id));
    let j = m.id_index(id);
    assert(0 <= j < m.segs.len() && m.segs[j].id == id);
}

/// A table of shared memory segments, each holding one value of type `T`.
pub struct ShmStore<T> {
    segs: Vec<Segment<T>>,
    next_id: i32,
}

impl<T> View for ShmStore<T> {
    type V = ShmStoreView<T>;

    closed spec fn view(&self) -> ShmStoreView<T> {
        ShmStoreView { segs: self.segs@, next_id: self.next_id }
    }
}

impl<T: Copy> ShmStore<T> {
    /// An empty table.
    pub fn new() -> (r: Self)
        ensures
            r@.segs.len() == 0,
            r@.next_id == 1,
            r@.wf(),
    {
        ShmStore { segs: Vec::new(), next_id: 1 }
    }

    /// The position of the segment bound to `key`, if any.
    fn find_key(&self, key: i32) -> (r: Option<usize>)
        ensures
            match r {
                Some(i) => 0 <= i < self@.segs.len() && self@.segs[i as int].key == key,
                None => !self@.has_key(key),
            },
    {
        let mut i: usize = 0;
        while i < self.segs.len()
            invariant
                i <= self.segs.len(),
                forall|j: int| 0 <= j < i ==> (#[trigger] self.segs@[j]).key != key,
            decreases self.segs.len() - i,
        {
            if self.segs[i].key == key {
                return Some(i);
            }
            i = i + 1;
        }
        None
    }

    /// The position of the segment carrying the identifier `id`, if any.
    fn find_id(&self, id: i32) -> (r: Option<usize>)
        ensures
            match r {
                Some(i) => 0 <= i < self@.segs.len() && self@.segs[i as int].id == id,
                None => !self@.has_id(id),
            },
    {
        let mut i: usize = 0;
        while i < self.segs.len()
            invariant
                i <= self.segs.len(),
                forall|j: int| 0 <= j < i ==> (#[trigger] self.segs@[j]).id != id,
            decreases self.segs.len() - i,
        {
            if self.segs[i].id == id {
                return Some(i);
            }
            i = i + 1;
        }
        None
    }
}

/// Creating a segment under a fresh or private key preserves the table's
/// invariant.
pub proof fn lemma_create_spec_wf<T>(m: ShmStoreView<T>, key: i32, mode: u32, size: usize)
    requires
        m.wf(),
        key == IPC_PRIVATE || !m.has_key(key),
    ensures
        m.create_spec(key, mode, size).0.wf(),
{
    if m.next_id != i32::MAX {
        let m1 = m.create_spec(key, mode, size).0;
        assert((mode & 0o777u32) & !0o777u32 == 0) by (bit_vector);
        assert forall|i: int, j: int|
            0 <= i < m1.segs.len() && 0 <= j < m1.segs.len() && i != j && (
            #[trigger] m1.segs[i]).key != IPC_PRIVATE implies m1.segs[i].key != (
        #[trigger] m1.segs[j]).key by {
            if i < m.segs.len() && j < m.segs.len() {
            } else if i < m.segs.len() {
                if m.segs[i].key == key {
                    assert(m.has_key(key));
                }
            } else {
                if m.segs[j].key == key && key != IPC_PRIVATE {
                    assert(m.has_key(key));
                }
            }
        };
    }
}

/// Replacing one segment with one carrying the same identifier, its own or
/// the private key, and a permission word of permission bits preserves the
/// table's invariant, provided a marked replacement is private and attached.
pub proof fn lemma_update_wf<T>(m: ShmStoreView<T>, i: int, seg: Segment<T>)
    requires
        m.wf(),
        0 <= i < m.segs.len(),
        seg.id == m.segs[i].id,
        seg.key == m.segs[i].key || seg.key == IPC_PRIVATE,
        seg.perm & !0o777u32 == 0,
        seg.removed ==> seg.key == IPC_PRIVATE && seg.nattch > 0,
    ensures
        (ShmStoreView { segs: m.segs.update(i, seg), ..m }).wf(),
{
    let m1 = ShmStoreView { segs: m.segs.update(i, seg), ..m };
    assert forall|a: int, b: int|
        0 <= a < m1.segs.len() && 0 <= b < m1.segs.len() && a != b && (
        #[trigger] m1.segs[a]).key != IPC_PRIVATE implies m1.segs[a].key != (
    #[trigger] m1.segs[b]).key by {
        assert(m.segs[a].key != IPC_PRIVATE ==> m.segs[a].key != m.segs[b].key);
    };
}

/// Deleting one segment preserves the table's invariant.
pub proof fn lemma_remove_wf<T>(m: ShmStoreView<T>, i: int)
    requires
        m.wf(),
        0 <= i < m.segs.len(),
    ensures
        (ShmStoreView { segs: m.segs.remove(i), ..m }).wf(),
{
    let m1 = ShmStoreView { segs: m.segs.remove(i), ..m };
    m.segs.remove_ensures(i);
    assert forall|a: int|
        0 <= a < m1.segs.len() implies 0 < (#[trigger] m1.segs[a]).id < m1.next_id && (
    m1.segs[a].removed ==> m1.segs[a].key == IPC_PRIVATE && m1.segs[a].nattch > 0) && m1.segs[a].perm
        & !0o777u32 == 0 by {
        if a < i {
            assert(m1.segs[a] == m.segs[a]);
        } else {
            assert(m1.segs[a] == m.segs[a + 1]);
        }
    };
    assert forall|a: int, b: int|
        0 <= a < m1.segs.len() && 0 <= b < m1.segs.len() && a != b implies (
    #[trigger] m1.segs[a]).id != (#[trigger] m1.segs[b]).id && (m1.segs[a].key != IPC_PRIVATE
        ==> m1.segs[a].key != m1.segs[b].key) by {
        let a0 = if a < i {
            a
        } else {
            a + 1
        };
        let b0 = if b < i {
            b
        } else {
            b + 1
        };
        assert(m1.segs[a] == m.segs[a0]);
        assert(m1.segs[b] == m.segs[b0]);
        assert(m.segs[a0].id != m.segs[b0].id);
    };
}

/// The typed handle over one attached segment.
///
/// A handle is issued only by a successful attach, is not copyable, and is
/// consumed by its release; between the two it owns exactly one attachment
/// of its segment, through which the stored value is read and, unless the
/// attachment is read-only, written.
#[derive(Debug)]
pub struct SharedMemory<T> {
    id: i32,
    read_only: bool,
    marker: core::marker::PhantomData<T>,
}

impl<T> View for SharedMemory<T> {
    type V = SharedMemoryView;

    closed spec fn view(&self) -> SharedMemoryView {
        SharedMemoryView { id: self.id, read_only: self.read_only }
    }
}

/// The view of an attach result: the handle's view on success, the same
/// error on failure.
pub open spec fn attach_result_view<T>(r: Result<SharedMemory<T>, Errno>) -> Result<
    SharedMemoryView,
    Errno,
> {
    match r {
        Ok(h) => Ok(h@),
        Err(e) => Err(e),
    }
}

impl<T: Copy> SharedMemory<T> {
    /// Allocate a fresh segment of `size_of::<T>()` bytes, or locate the
    /// segment already bound to `key`.
    pub fn shmget(store: &mut ShmStore<T>, key: i32, shmget_flag: ShmgetFlag, mode: Mode) -> (r:
        Result<i32, Errno>)
        requires
            old(store)@.wf(),
            mode.well_formed(),
        ensures
            final(store)@ == old(store)@.shmget_spec(
                key,
                shmget_flag@,
                mode@,
                vstd::layout::size_of::<T>() as usize,
            ).0,
            r == old(store)@.shmget_spec(
                key,
                shmget_flag@,
                mode@,
                vstd::layout::size_of::<T>() as usize,
            ).1,
            final(store)@.wf(),
    {
        let ghost m0 = store@;
        let size = core::mem::size_of::<T>();
        if key == IPC_PRIVATE {
            Self::create_segment(store, key, mode, size)
        } else {
            match store.find_key(key) {
                Some(i) => {
                    proof {
                        lemma_key_index_is(m0, key, i as int);
                    }
                    let seg = store.segs[i];
                    if shmget_flag.bits() & (IPC_CREAT | IPC_EXCL) == (IPC_CREAT | IPC_EXCL) {
                        Err(Errno::EEXIST)
                    } else if mode.bits() & 0o700 & !seg.perm != 0 {
                        Err(Errno::EACCES)
                    } else {
                        Ok(seg.id)
                    }
                },
                None => {
                    if shmget_flag.bits() & IPC_CREAT == 0 {
                        Err(Errno::ENOENT)
                    } else {
                        Self::create_segment(store, key, mode, size)
                    }
                },
            }
        }
    }

    /// Create a fresh segment in the table.
    fn create_segment(store: &mut ShmStore<T>, key: i32, mode: Mode, size: usize) -> (r: Result<
        i32,
        Errno,
    >)
        requires
            old(store)@.wf(),
            key == IPC_PRIVATE || !old(store)@.has_key(key),
        ensures
            final(store)@ == old(store)@.create_spec(key, mode@, size).0,
            r == old(store)@.create_spec(key, mode@, size).1,
            final(store)@.wf(),
    {
        let ghost m0 = store@;
        if store.next_id == i32::MAX {
            return Err(Errno::ENOSPC);
        }
        let id = store.next_id;
        let seg = Segment {
            id: id,
            key: key,
            size: size,
            perm: mode.bits() & 0o777,
            contents: None,
            nattch: 0,
            removed: false,
            locked: false,
        };
        store.segs.push(seg);
        store.next_id = id + 1;
        proof {
            lemma_create_spec_wf(m0, key, mode@, size);
        }
        Ok(id)
    }

    /// Attach to the segment carrying `shmid` and wrap the attachment in an
    /// owning handle. The preferred address is a hint the table is free to
    /// ignore; it does not affect which segment is attached.
    #[allow(unused_variables)]
    pub fn new(
        store: &mut ShmStore<T>,
        shmid: i32,
        shmaddr: Option<usize>,
        shmat_flag: ShmatFlag,
        mode: Mode,
    ) -> (r: Result<SharedMemory<T>, Errno>)
        requires
            old(store)@.wf(),
            mode.well_formed(),
        ensures
            final(store)@ == old(store)@.shmat_spec(shmid, (mode@ as i32) | shmat_flag@).0,
            attach_result_view(r) == old(store)@.shmat_spec(shmid, (mode@ as i32) | shmat_flag@).1,
            final(store)@.wf(),
            r matches Ok(h) ==> final(store)@.valid_handle(h@),
    {
        let ghost m0 = store@;
        let word = shmat_word(shmat_flag, mode);
        match store.find_id(shmid) {
            None => Err(Errno::EINVAL),
            Some(i) => {
                proof {
                    lemma_id_index_is(m0, shmid, i as int);
                }
                let seg = store.segs[i];
                let read_only = word & SHM_RDONLY != 0;
                if read_only && seg.perm & 0o400 == 0 {
                    Err(Errno::EACCES)
                } else if !read_only && seg.perm & 0o600 != 0o600 {
                    Err(Errno::EACCES)
                } else if seg.nattch == u32::MAX {
                    Err(Errno::ENOMEM)
                } else {
                    let newseg = Segment { nattch: seg.nattch + 1, ..seg };
                    store.segs[i] = newseg;
                    proof {
                        lemma_update_wf(m0, i as int, newseg);
                        lemma_id_index_is(store@, shmid, i as int);
                    }
                    Ok(SharedMemory { id: shmid, read_only: read_only, marker: core::marker::PhantomData })
                }
            },
        }
    }

    /// Read the value stored in the attached segment, absent until some
    /// attachment has written it.
    pub fn read(&self, store: &ShmStore<T>) -> (r: Option<T>)
        requires
            store@.wf(),
            store@.valid_handle(self@),
        ensures
            r == store@.read_spec(self@),
    {
        match store.find_id(self.id) {
            Some(i) => {
                proof {
                    lemma_id_index_is(store@, self.id, i as int);
                }
                let seg = store.segs[i];
                seg.contents
            },
            None => unreached(),
        }
    }

    /// Write a value into the attached segment, visible afterwards through
    /// every attachment of the same segment. A read-only attachment refuses
    /// the write with `EACCES`.
    pub fn write(&self, store: &mut ShmStore<T>, value: T) -> (r: Result<(), Errno>)
        requires
            old(store)@.wf(),
            old(store)@.valid_handle(self@),
        ensures
            final(store)@ == old(store)@.write_spec(self@, value).0,
            r == old(store)@.write_spec(self@, value).1,
            final(store)@.wf(),
    {
        let ghost m0 = store@;
        if self.read_only {
            return Err(Errno::EACCES);
        }
        match store.find_id(self.id) {
            Some(i) => {
                proof {
                    lemma_id_index_is(m0, self.id, i as int);
                }
                let seg = store.segs[i];
                let newseg = Segment { contents: Some(value), ..seg };
                store.segs[i] = newseg;
                proof {
                    lemma_update_wf(m0, i as int, newseg);
                }
                Ok(())
            },
            None => unreached(),
        }
    }

    /// Perform one control command on the attached segment. The command
    /// word is the composed mode and command, passed on verbatim.
    pub fn shmctl(&self, store: &mut ShmStore<T>, shmctl_flag: ShmctlFlag, buf: Option<ShmidDs>, mode: Mode) -> (r:
        Result<i32, Errno>)
        requires
            old(store)@.wf(),
            mode.well_formed(),
        ensures
            final(store)@ == old(store)@.shmctl_spec(self@.id, (mode@ as i32) | shmctl_flag@, buf).0,
            r == old(store)@.shmctl_spec(self@.id, (mode@ as i32) | shmctl_flag@, buf).1,
            final(store)@.wf(),
    {
        let ghost m0 = store@;
        let word = shmctl_word(shmctl_flag, mode);
        match store.find_id(self.id) {
            None => Err(Errno::EINVAL),
            Some(i) => {
                proof {
                    lemma_id_index_is(m0, self.id, i as int);
                }
                let seg = store.segs[i];
                if word == IPC_RMID {
                    if seg.nattch == 0 {
                        store.segs.remove(i);
                        proof {
                            lemma_remove_wf(m0, i as int);
                        }
                        Ok(0)
                    } else {
                        let newseg = Segment { key: IPC_PRIVATE, removed: true, ..seg };
                        store.segs[i] = newseg;
                        proof {
                            lemma_update_wf(m0, i as int, newseg);
                        }
                        Ok(0)
                    }
                } else if word == IPC_SET {
                    match buf {
                        Some(b) => {
                            let newseg = Segment { perm: b.mode & 0o777, ..seg };
                            store.segs[i] = newseg;
                            proof {
                                let bm = b.mode;
                                assert((bm & 0o777u32) & !0o777u32 == 0) by (bit_vector);
                                lemma_update_wf(m0, i as int, newseg);
                            }
                            Ok(0)
                        },
                        None => Err(Errno::EFAULT),
                    }
                } else if word == IPC_STAT {
                    Ok(0)
                } else if word == IPC_INFO {
                    Ok((store.segs.len() - 1) as i32)
                } else if word == SHM_LOCK {
                    let newseg = Segment { locked: true, ..seg };
                    store.segs[i] = newseg;
                    proof {
                        lemma_update_wf(m0, i as int, newseg);
                    }
                    Ok(0)
                } else if word == SHM_UNLOCK {
                    let newseg = Segment { locked: false, ..seg };
                    store.segs[i] = newseg;
                    proof {
                        lemma_update_wf(m0, i as int, newseg);
                    }
                    Ok(0)
                } else {
                    Err(Errno::EINVAL)
                }
            },
        }
    }

    /// Release the handle's attachment. Release happens exactly once per
    /// handle: the handle is consumed, and no path back to the attached
    /// state exists for it.
    pub fn release(self, store: &mut ShmStore<T>)
        requires
            old(store)@.wf(),
            old(store)@.valid_handle(self@),
        ensures
            final(store)@ == old(store)@.shmdt_spec(self@),
            final(store)@.wf(),
    {
        let ghost m0 = store@;
        match store.find_id(self.id) {
            Some(i) => {
                proof {
                    lemma_id_index_is(m0, self.id, i as int);
                }
                let seg = store.segs[i];
                if seg.removed && seg.nattch <= 1 {
                    store.segs.remove(i);
                    proof {
                        lemma_remove_wf(m0, i as int);
                    }
                } else {
                    let newseg = Segment { nattch: seg.nattch - 1, ..seg };
                    store.segs[i] = newseg;
                    proof {
                        lemma_update_wf(m0, i as int, newseg);
                    }
                }
            },
            None => unreached(),
        }
    }

    /// The identifier of the attached segment.
    pub fn id(&self) -> (r: i32)
        ensures
            r == self@.id,
    {
        self.id
    }

    /// Whether the attachment is read-only.
    pub fn is_read_only(&self) -> (r: bool)
        ensures
            r == self@.read_only,
    {
        self.read_only
    }
}

/// Allocate-or-locate preserves the table's invariant.
pub proof fn lemma_shmget_spec_wf<T>(m: ShmStoreView<T>, key: i32, flags: i32, mode: u32, size: usize)
    requires
        m.wf(),
    ensures
        m.shmget_spec(key, flags, mode, size).0.wf(),
{
    if key == IPC_PRIVATE {
        lemma_create_spec_wf(m, key, mode, size);
    } else if !m.has_key(key) && flags & IPC_CREAT != 0 {
        lemma_create_spec_wf(m, key, mode, size);
    }
}

/// Attach preserves the table's invariant, and a successful attach yields a
/// live handle of the requested segment whose read-only bit mirrors the
/// call word.
pub proof fn lemma_shmat_spec_wf<T>(m: ShmStoreView<T>, id: i32, word: i32)
    requires
        m.wf(),
    ensures
        m.shmat_spec(id, word).0.wf(),
        m.shmat_spec(id, word).1 matches Ok(h) ==> {
            &&& m.shmat_spec(id, word).0.valid_handle(h)
            &&& h.id == id
            &&& h.read_only == (word & SHM_RDONLY != 0)
        },
{
    if m.has_id(id) {
        let i = m.id_index(id);
        let seg = m.segs[i];
        let read_only = word & SHM_RDONLY != 0;
        if !(read_only && seg.perm & 0o400 == 0) && !(!read_only && seg.perm & 0o600 != 0o600)
            && seg.nattch != u32::MAX {
            let newseg = Segment { nattch: (seg.nattch + 1) as u32, ..seg };
            lemma_update_wf(m, i, newseg);
            let m1 = m.shmat_spec(id, word).0;
            lemma_id_index_is(m1, id, i);
        }
    }
}

/// Writing through a writable attachment succeeds, keeps the table's
/// invariant and every attachment of the segment, and the written value is
/// what any attachment of the segment reads afterwards.
pub proof fn lemma_write_spec_wf<T>(m: ShmStoreView<T>, h: SharedMemoryView, v: T)
    requires
        m.wf(),
        m.valid_handle(h),
    ensures
        m.write_spec(h, v).0.wf(),
        m.write_spec(h, v).1 == if h.read_only {
            Err::<(), Errno>(Errno::EACCES)
        } else {
            Ok::<(), Errno>(())
        },
        !h.read_only ==> m.write_spec(h, v).0.valid_handle(h) && m.write_spec(h, v).0.read_spec(h)
            == Some(v),
{
    if !h.read_only {
        let i = m.id_index(h.id);
        let seg = m.segs[i];
        let newseg = Segment { contents: Some(v), ..seg };
        lemma_update_wf(m, i, newseg);
        let m1 = m.write_spec(h, v).0;
        lemma_id_index_is(m1, h.id, i);
    }
}

/// A successful allocate-or-locate followed by a successful attach yields a
/// live handle: its dereferenced value is readable, and, unless the
/// attachment is read-only, writable — a written value is read back
/// through it.
pub proof fn lemma_get_then_attach_usable<T>(
    m: ShmStoreView<T>,
    key: i32,
    flags: i32,
    mode: u32,
    size: usize,
    word: i32,
    id: i32,
    h: SharedMemoryView,
    v: T,
)
    requires
        m.wf(),
        m.shmget_spec(key, flags, mode, size).1 == Ok::<i32, Errno>(id),
        m.shmget_spec(key, flags, mode, size).0.shmat_spec(id, word).1 == Ok::<
            SharedMemoryView,
            Errno,
        >(h),
    ensures
        ({
            let m1 = m.shmget_spec(key, flags, mode, size).0;
            let m2 = m1.shmat_spec(id, word).0;
            &&& m2.wf()
            &&& m2.valid_handle(h)
            &&& h.id == id
            &&& h.read_only == (word & SHM_RDONLY != 0)
            &&& !h.read_only ==> m2.write_spec(h, v).1 == Ok::<(), Errno>(()) && m2.write_spec(
                h,
                v,
            ).0.read_spec(h) == Some(v)
        }),
{
    let m1 = m.shmget_spec(key, flags, mode, size).0;
    lemma_shmget_spec_wf(m, key, flags, mode, size);
    lemma_shmat_spec_wf(m1, id, word);
    let m2 = m1.shmat_spec(id, word).0;
    if !h.read_only {
        lemma_write_spec_wf(m2, h, v);
    }
}

/// Requesting exclusive creation of a key a segment is already bound to
/// fails with `EEXIST` and leaves the table unchanged.
pub proof fn lemma_exclusive_create_exists<T>(
    m: ShmStoreView<T>,
    key: i32,
    flags: i32,
    mode: u32,
    size: usize,
)
    requires
        m.wf(),
        key != IPC_PRIVATE,
        m.has_key(key),
        flags & (IPC_CREAT | IPC_EXCL) == (IPC_CREAT | IPC_EXCL),
    ensures
        m.shmget_spec(key, flags, mode, size) == (m, Err::<i32, Errno>(Errno::EEXIST)),
{
}

/// Writing a value through one attachment and reading through a second,
/// independent attachment of the same segment observes the written value.
pub proof fn lemma_write_then_read_other_handle<T>(
    m: ShmStoreView<T>,
    h1: SharedMemoryView,
    h2: SharedMemoryView,
    v: T,
)
    requires
        m.wf(),
        m.valid_handle(h1),
        m.valid_handle(h2),
        h1.id == h2.id,
        !h1.read_only,
    ensures
        m.write_spec(h1, v).1 == Ok::<(), Errno>(()),
        m.write_spec(h1, v).0.valid_handle(h2),
        m.write_spec(h1, v).0.read_spec(h2) == Some(v),
{
    lemma_write_spec_wf(m, h1, v);
}

/// Releasing a handle of a segment not marked for removal keeps the
/// segment in the table: its identifier, key and contents survive until a
/// control operation marks it for removal.
pub proof fn lemma_release_keeps_segment<T>(m: ShmStoreView<T>, h: SharedMemoryView)
    requires
        m.wf(),
        m.valid_handle(h),
        !m.seg_of(h.id).removed,
    ensures
        m.shmdt_spec(h).wf(),
        m.shmdt_spec(h).has_id(h.id),
        m.shmdt_spec(h).seg_of(h.id).key == m.seg_of(h.id).key,
        m.shmdt_spec(h).seg_of(h.id).contents == m.seg_of(h.id).contents,
{
    let i = m.id_index(h.id);
    let seg = m.segs[i];
    let newseg = Segment { nattch: (seg.nattch - 1) as u32, ..seg };
    lemma_update_wf(m, i, newseg);
    let m1 = m.shmdt_spec(h);
    lemma_id_index_is(m1, h.id, i);
}

/// Marking a segment for removal while attachments remain succeeds but does
/// not invalidate those attachments: a handle of the segment stays live and
/// reads the same value as before.
pub proof fn lemma_rmid_keeps_attachments<T>(
    m: ShmStoreView<T>,
    h: SharedMemoryView,
    buf: Option<ShmidDs>,
)
    requires
        m.wf(),
        m.valid_handle(h),
    ensures
        m.shmctl_spec(h.id, IPC_RMID, buf).1 == Ok::<i32, Errno>(0),
        m.shmctl_spec(h.id, IPC_RMID, buf).0.wf(),
        m.shmctl_spec(h.id, IPC_RMID, buf).0.valid_handle(h),
        m.shmctl_spec(h.id, IPC_RMID, buf).0.read_spec(h) == m.read_spec(h),
{
    let i = m.id_index(h.id);
    let seg = m.segs[i];
    let newseg = Segment { key: IPC_PRIVATE, removed: true, ..seg };
    lemma_update_wf(m, i, newseg);
    let m1 = m.shmctl_spec(h.id, IPC_RMID, buf).0;
    lemma_id_index_is(m1, h.id, i);
}

/// Marking a segment with no remaining attachments for removal releases it
/// at once: its identifier is gone, its key is free, and allocation under
/// the same key with exclusive creation succeeds again.
pub proof fn lemma_rmid_releases_segment<T>(
    m: ShmStoreView<T>,
    id: i32,
    buf: Option<ShmidDs>,
    flags: i32,
    mode: u32,
    size: usize,
)
    requires
        m.wf(),
        m.has_id(id),
        m.seg_of(id).nattch == 0,
        m.seg_of(id).key != IPC_PRIVATE,
        m.next_id < i32::MAX,
        flags & IPC_CREAT != 0,
    ensures
        m.shmctl_spec(id, IPC_RMID, buf).1 == Ok::<i32, Errno>(0),
        m.shmctl_spec(id, IPC_RMID, buf).0.wf(),
        !m.shmctl_spec(id, IPC_RMID, buf).0.has_id(id),
        !m.shmctl_spec(id, IPC_RMID, buf).0.has_key(m.seg_of(id).key),
        m.shmctl_spec(id, IPC_RMID, buf).0.shmget_spec(m.seg_of(id).key, flags, mode, size).1
            == Ok::<i32, Errno>(m.next_id),
{
    let i = m.id_index(id);
    let key = m.seg_of(id).key;
    lemma_remove_wf(m, i);
    let m1 = m.shmctl_spec(id, IPC_RMID, buf).0;
    m.segs.remove_ensures(i);
    assert forall|a: int| 0 <= a < m1.segs.len() implies (#[trigger] m1.segs[a]).id != id && (
    #[trigger] m1.segs[a]).key != key by {
        if a < i {
            assert(m1.segs[a] == m.segs[a]);
        } else {
            assert(m1.segs[a] == m.segs[a + 1]);
        }
    };
    lemma_create_spec_wf(m1, key, mode, size);
}

/// The call word the allocate-or-locate operation hands to the kernel: the
/// access mode composed verbatim with the family's flag bits.
pub fn shmget_word(shmget_flag: ShmgetFlag, mode: Mode) -> (r: i32)
    requires
        mode.well_formed(),
    ensures
        r == (mode@ as i32 | shmget_flag@),
{
    mode.bits_i32() | shmget_flag.bits()
}

/// The call word the attach operation hands to the kernel.
pub fn shmat_word(shmat_flag: ShmatFlag, mode: Mode) -> (r: i32)
    requires
        mode.well_formed(),
    ensures
        r == (mode@ as i32 | shmat_flag@),
{
    mode.bits_i32() | shmat_flag.bits()
}

/// The call word the control operation hands to the kernel.
pub fn shmctl_word(shmctl_flag: ShmctlFlag, mode: Mode) -> (r: i32)
    requires
        mode.well_formed(),
    ensures
        r == (mode@ as i32 | shmctl_flag@),
{
    mode.bits_i32() | shmctl_flag.bits()
}

} // verus!
