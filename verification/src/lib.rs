//! A typed handle over System V shared memory segments.
//!
//! The crate separates the logic of the wrapper — flag composition, error
//! mapping, and the attach/detach lifecycle of a segment handle — from the
//! kernel calls themselves, and verifies the former: the segment table and
//! its handles are specified in [`shm`], the flag families in [`flags`],
//! the access modes in [`mode`], and the error mapping in [`errno`].

pub mod errno;
pub mod flags;
pub mod mode;
pub mod shm;
