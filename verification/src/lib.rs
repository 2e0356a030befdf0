//! The decisions of a FUSE communication channel, kept apart from the system
//! calls that carry them out.
//!
//! A channel is the one file descriptor through which a userspace filesystem
//! talks to the kernel driver, together with the mount that produced it.
//! Mounting, reading, writing, closing and unmounting are system calls; what
//! to ask of the operating system, in which order, and what to make of each
//! answer is decided here and proved. The caller performs each call that a
//! function of this crate describes and hands back what the call returned.

pub mod args;
pub mod channel;
pub mod cstr;
pub mod io;
pub mod mount;

pub use args::{with_fuse_args, FuseArgs};
pub use channel::{Channel, ChannelSender, Release};
pub use cstr::NulTerminated;
pub use io::{Read, Write};
pub use mount::{real_path, unmount, Mount, Platform, Resolve, Unmount};
