//! The channel and the handles that send through it.

use crate::cstr::{has_nul, texts, NulTerminated};
use crate::io::{can_gather, readied, Read, ReadView, Write, WriteView};
use crate::mount::{unmount_call, Platform, Resolve, ResolveView, Unmount};
use vstd::prelude::*;

verus! {

/// The owner of a mount and of the descriptor that the mount produced.
#[derive(Debug, PartialEq, Eq)]
pub struct Channel {
    mountpoint: NulTerminated,
    fd: i32,
}

/// What a `Channel` holds.
pub struct ChannelView {
    /// The resolved path of the mount.
    pub mountpoint: Seq<u8>,
    /// The descriptor.
    pub fd: i32,
}

impl View for Channel {
    type V = ChannelView;

    closed spec fn view(&self) -> ChannelView {
        ChannelView { mountpoint: self.mountpoint@, fd: self.fd }
    }
}

impl Channel {
    #[verifier::type_invariant]
    spec fn open(self) -> bool {
        self.fd >= 0
    }

    /// Begins to mount a filesystem at `mountpoint` with `options`. The
    /// first thing to ask for is the resolved form of the path.
    pub fn new<'a>(mountpoint: &[u8], options: &'a [&'a [u8]]) -> (resolve: Resolve<'a>)
        requires
            !has_nul(mountpoint@),
        ensures
            resolve@ == (ResolveView { path: mountpoint@, options: texts(options) }),
    {
        Resolve::new(mountpoint, options)
    }

    /// The channel of a mount that succeeded.
    pub(crate) fn mounted(mountpoint: NulTerminated, fd: i32) -> (channel: Self)
        requires
            fd >= 0,
        ensures
            channel@ == (ChannelView { mountpoint: mountpoint@, fd }),
    {
        Channel { mountpoint, fd }
    }

    /// The resolved path of the mount.
    pub fn mountpoint(&self) -> (mountpoint: &[u8])
        ensures
            mountpoint@ == self@.mountpoint,
            !has_nul(mountpoint@),
    {
        self.mountpoint.as_bytes()
    }

    /// The descriptor, which is never negative.
    pub fn fd(&self) -> (fd: i32)
        ensures
            fd == self@.fd,
            fd >= 0,
    {
        proof {
            use_type_invariant(self);
        }
        self.fd
    }

    /// Makes `buffer` ready to receive the next message and describes the
    /// read to carry out: from the channel's descriptor, into the buffer, up
    /// to its capacity. The read blocks until a message arrives or the
    /// descriptor is closed.
    pub fn receive(&self, buffer: &mut Vec<u8>) -> (read: Read)
        ensures
            final(buffer)@ == readied(old(buffer)@, read@.count as int),
            read@ == (ReadView {
                fd: self@.fd,
                count: final(buffer)@.len() as usize,
                len: old(buffer)@.len() as usize,
            }),
    {
        Read::into_capacity(self.fd, buffer)
    }

    /// A handle that sends through the channel's descriptor. The handle
    /// holds the descriptor's number and nothing else: it may be copied and
    /// handed to other threads, and has no say in when the descriptor is
    /// closed.
    pub fn sender(&self) -> (sender: ChannelSender)
        ensures
            sender@ == self@.fd,
    {
        ChannelSender { fd: self.fd }
    }

    /// Ends the channel and lists what is left to do, in the order in which
    /// to do it: first close the descriptor, then unmount the path that was
    /// resolved at the mount. The close comes first so that an unmount that
    /// waits for operations in flight cannot wait for a read of a descriptor
    /// that is still open. Neither step's failure changes the other.
    pub fn teardown(self, platform: Platform) -> (steps: Vec<Release>)
        ensures
            steps@.len() == 2,
            steps@[0] == (Release::Close { fd: self@.fd }),
            steps@[1] matches Release::Unmount(call) && call@ == unmount_call(
                self@.mountpoint,
                platform,
            ),
    {
        let mut steps: Vec<Release> = Vec::new();
        steps.push(Release::Close { fd: self.fd });
        steps.push(Release::Unmount(Unmount::of(self.mountpoint, platform)));
        steps
    }
}

/// One step of giving up a channel.
#[derive(Debug, PartialEq, Eq)]
pub enum Release {
    /// Close the descriptor.
    Close {
        /// The descriptor to close.
        fd: i32,
    },
    /// Unmount the filesystem.
    Unmount(Unmount),
}

/// A handle that sends messages through a channel's descriptor.
#[derive(Debug, Clone, Copy, PartialEq, Eq)]
pub struct ChannelSender {
    fd: i32,
}

impl View for ChannelSender {
    type V = i32;

    /// The descriptor that the handle writes to.
    closed spec fn view(&self) -> i32 {
        self.fd
    }
}

impl ChannelSender {
    /// The descriptor that the handle writes to.
    pub fn fd(&self) -> (fd: i32)
        ensures
            fd == self@,
    {
        self.fd
    }

    /// Describes the one vectored write that sends `buffer`, the pieces of a
    /// single message, in order. The pieces are not copied.
    pub fn send<'a>(&self, buffer: &'a [&'a [u8]]) -> (write: Write<'a>)
        requires
            can_gather(texts(buffer)),
        ensures
            write@ == (WriteView { fd: self@, buffers: texts(buffer) }),
    {
        Write::gather(self.fd, buffer)
    }
}

} // verus!
