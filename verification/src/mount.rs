//! Mounting and unmounting: what to ask of the path resolver and of the mount
//! facility, and what to make of their answers.

use crate::args::{can_marshal, marshaled, FuseArgs};
use crate::channel::{Channel, ChannelView};
use crate::cstr::{has_nul, texts, until_nul, NulTerminated};
use vstd::prelude::*;

verus! {

/// The size of the buffer that a path is resolved into. No resolved path,
/// with the NUL byte that ends it, is longer.
pub const PATH_MAX: usize = 4096;

/// What the path resolver's answer comes to. `found` tells whether it
/// returned its buffer rather than a null pointer; `resolved` is that buffer,
/// and `errno` the error code read right after the call.
///
/// A resolved path is the C string at the start of the buffer. A failure is
/// the error code as it came.
pub open spec fn resolved_path(found: bool, resolved: Seq<u8>, errno: i32) -> Result<Seq<u8>, i32> {
    if found {
        Ok(until_nul(resolved))
    } else {
        Err(errno)
    }
}

/// Reads the answer of the path resolver, given as to `resolved_path`.
pub fn real_path(found: bool, resolved: &[u8], errno: i32) -> (path: Result<NulTerminated, i32>)
    ensures
        match path {
            Ok(p) => resolved_path(found, resolved@, errno) == Ok::<Seq<u8>, i32>(p@),
            Err(e) => resolved_path(found, resolved@, errno) == Err::<Seq<u8>, i32>(e),
        },
{
    if found {
        Ok(NulTerminated::from_buffer(resolved))
    } else {
        Err(errno)
    }
}

/// A mount that waits for its path to be resolved.
#[derive(Debug)]
pub struct Resolve<'a> {
    path: NulTerminated,
    options: &'a [&'a [u8]],
}

/// What a `Resolve` holds.
pub struct ResolveView {
    /// The path as the caller gave it.
    pub path: Seq<u8>,
    /// The mount options, in order.
    pub options: Seq<Seq<u8>>,
}

impl<'a> View for Resolve<'a> {
    type V = ResolveView;

    closed spec fn view(&self) -> ResolveView {
        ResolveView { path: self.path@, options: texts(self.options) }
    }
}

/// Where a mount stands once the resolver has answered. Where the path did
/// not resolve, the mount ends with the resolver's error code. Where it did,
/// the mount itself is next, on the resolved path and with the argument list
/// made of the options.
pub open spec fn resolve_step(state: ResolveView, found: bool, resolved: Seq<u8>, errno: i32) -> Result<
    MountView,
    i32,
> {
    match resolved_path(found, resolved, errno) {
        Ok(mountpoint) => Ok(MountView { mountpoint, args: marshaled(state.options) }),
        Err(e) => Err(e),
    }
}

/// Where a mount stands once the mount facility has answered with the
/// descriptor `fd`. A negative descriptor is a failure with the error code
/// `errno`, read right after the call. Any other descriptor makes a channel
/// that owns it and keeps the resolved path.
pub open spec fn mount_step(state: MountView, fd: i32, errno: i32) -> Result<ChannelView, i32> {
    if fd < 0 {
        Err(errno)
    } else {
        Ok(ChannelView { mountpoint: state.mountpoint, fd })
    }
}

/// A whole mount: the resolver answers first, and the mount facility is asked
/// only where the path resolved.
pub open spec fn mount_run(
    state: ResolveView,
    found: bool,
    resolved: Seq<u8>,
    resolve_errno: i32,
    fd: i32,
    mount_errno: i32,
) -> Result<ChannelView, i32> {
    match resolve_step(state, found, resolved, resolve_errno) {
        Ok(mount) => mount_step(mount, fd, mount_errno),
        Err(e) => Err(e),
    }
}

/// A mount makes a channel if and only if the path resolved and the mount
/// facility returned a descriptor that is not negative. Otherwise it ends
/// with the error code of the call that failed first, and there is no
/// channel and no descriptor to give up.
pub proof fn lemma_mount_run(
    state: ResolveView,
    found: bool,
    resolved: Seq<u8>,
    resolve_errno: i32,
    fd: i32,
    mount_errno: i32,
)
    ensures
        mount_run(state, found, resolved, resolve_errno, fd, mount_errno) is Ok <==> found && fd
            >= 0,
        !found ==> mount_run(state, found, resolved, resolve_errno, fd, mount_errno) == Err::<
            ChannelView,
            i32,
        >(resolve_errno),
        found && fd < 0 ==> mount_run(state, found, resolved, resolve_errno, fd, mount_errno)
            == Err::<ChannelView, i32>(mount_errno),
        found && fd >= 0 ==> mount_run(state, found, resolved, resolve_errno, fd, mount_errno)
            == Ok::<ChannelView, i32>(ChannelView { mountpoint: until_nul(resolved), fd }),
{
}

impl<'a> Resolve<'a> {
    /// Starts at the path and the options that the caller gave.
    pub(crate) fn new(mountpoint: &[u8], options: &'a [&'a [u8]]) -> (resolve: Self)
        requires
            !has_nul(mountpoint@),
        ensures
            resolve@ == (ResolveView { path: mountpoint@, options: texts(options) }),
    {
        Resolve { path: NulTerminated::new(mountpoint), options }
    }

    /// The path to hand to the resolver.
    pub fn path(&self) -> (path: &NulTerminated)
        ensures
            path@ == self@.path,
    {
        &self.path
    }

    /// The size of the buffer to hand to the resolver.
    pub fn room(&self) -> (room: usize)
        ensures
            room == PATH_MAX,
    {
        PATH_MAX
    }

    /// Takes the resolver's answer, given as to `real_path`, and says where
    /// the mount stands: at the mount itself, or at its end with the
    /// resolver's error code, in which case the mount facility is never
    /// asked.
    pub fn finish(self, found: bool, resolved: &[u8], errno: i32) -> (next: Result<Mount, i32>)
        requires
            found ==> can_marshal(self@.options),
        ensures
            match next {
                Ok(mount) => resolve_step(self@, found, resolved@, errno) == Ok::<MountView, i32>(
                    mount@,
                ),
                Err(e) => resolve_step(self@, found, resolved@, errno) == Err::<MountView, i32>(e),
            },
    {
        match real_path(found, resolved, errno) {
            Ok(mountpoint) => Ok(Mount { mountpoint, args: FuseArgs::new(self.options) }),
            Err(e) => Err(e),
        }
    }
}

/// A mount that waits for the mount facility to hand back a descriptor.
#[derive(Debug, PartialEq, Eq)]
pub struct Mount {
    mountpoint: NulTerminated,
    args: FuseArgs,
}

/// What a `Mount` holds.
pub struct MountView {
    /// The resolved path to mount at.
    pub mountpoint: Seq<u8>,
    /// The argument list for the mount facility.
    pub args: Seq<Seq<u8>>,
}

impl View for Mount {
    type V = MountView;

    closed spec fn view(&self) -> MountView {
        MountView { mountpoint: self.mountpoint@, args: self.args@ }
    }
}

impl Mount {
    /// The path to hand to the mount facility.
    pub fn mountpoint(&self) -> (mountpoint: &NulTerminated)
        ensures
            mountpoint@ == self@.mountpoint,
    {
        &self.mountpoint
    }

    /// The argument list to hand to the mount facility.
    pub fn args(&self) -> (args: &FuseArgs)
        ensures
            args@ == self@.args,
    {
        &self.args
    }

    /// Takes the mount facility's answer: the descriptor `fd` that it
    /// returned, and the error code `errno` read right after the call. The
    /// result is the channel, or the error code where no descriptor came.
    pub fn finish(self, fd: i32, errno: i32) -> (channel: Result<Channel, i32>)
        ensures
            match channel {
                Ok(c) => mount_step(self@, fd, errno) == Ok::<ChannelView, i32>(c@),
                Err(e) => mount_step(self@, fd, errno) == Err::<ChannelView, i32>(e),
            },
    {
        if fd < 0 {
            Err(errno)
        } else {
            Ok(Channel::mounted(self.mountpoint, fd))
        }
    }
}

/// The platform that the program was built for, as far as unmounting
/// depends on it.
#[derive(Debug, Clone, Copy, PartialEq, Eq)]
pub enum Platform {
    /// macOS, where the mount facility resolves the path once more before it
    /// unmounts, and gives up without a word if that fails.
    MacOs,
    /// Any other platform.
    Other,
}

/// An unmount to carry out.
#[derive(Debug, PartialEq, Eq)]
pub struct Unmount {
    mountpoint: NulTerminated,
    direct: bool,
    flags: i32,
}

/// What an `Unmount` holds.
pub struct UnmountView {
    /// The path to unmount.
    pub mountpoint: Seq<u8>,
    /// Whether to call the operating system's unmount itself rather than the
    /// mount facility's.
    pub direct: bool,
    /// The flags for the operating system's unmount.
    pub flags: i32,
}

impl View for Unmount {
    type V = UnmountView;

    closed spec fn view(&self) -> UnmountView {
        UnmountView { mountpoint: self.mountpoint@, direct: self.direct, flags: self.flags }
    }
}

/// The unmount of `mountpoint` on `platform`: on macOS the operating system's
/// own call with no flags, elsewhere the mount facility's. Either way the path
/// is used as it stands.
pub open spec fn unmount_call(mountpoint: Seq<u8>, platform: Platform) -> UnmountView {
    UnmountView { mountpoint, direct: platform is MacOs, flags: 0 }
}

impl Unmount {
    /// The path to unmount.
    pub fn mountpoint(&self) -> (mountpoint: &NulTerminated)
        ensures
            mountpoint@ == self@.mountpoint,
    {
        &self.mountpoint
    }

    /// Whether to call the operating system's unmount itself rather than the
    /// mount facility's.
    pub fn direct(&self) -> (direct: bool)
        ensures
            direct == self@.direct,
    {
        self.direct
    }

    /// The flags for the operating system's unmount.
    pub fn flags(&self) -> (flags: i32)
        ensures
            flags == self@.flags,
    {
        self.flags
    }

    /// The unmount of an already resolved path.
    pub(crate) fn of(mountpoint: NulTerminated, platform: Platform) -> (call: Self)
        ensures
            call@ == unmount_call(mountpoint@, platform),
    {
        let direct = match platform {
            Platform::MacOs => true,
            Platform::Other => false,
        };
        Unmount { mountpoint, direct, flags: 0 }
    }
}

/// Describes the unmount of `mountpoint`, a path that was resolved when it
/// was mounted. The path is not resolved again: the filesystem behind it may
/// no longer answer.
pub fn unmount(mountpoint: &[u8], platform: Platform) -> (call: Unmount)
    requires
        !has_nul(mountpoint@),
    ensures
        call@ == unmount_call(mountpoint@, platform),
{
    Unmount::of(NulTerminated::new(mountpoint), platform)
}

} // verus!
