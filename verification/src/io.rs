//! The reads and writes of a descriptor: what to hand to each call, and what
//! to make of what it returns.

use crate::cstr::texts;
use std::io::IoSlice;
use vstd::prelude::*;

verus! {

/// `std::io::IoSlice`, a borrowed byte slice laid out as the operating
/// system's vectored calls expect it. Nothing of its inside is known here.
#[verifier::external_type_specification]
#[verifier::external_body]
pub struct ExIoSlice<'a>(std::io::IoSlice<'a>);

/// The bytes that `slice` refers to.
pub uninterp spec fn gathered(slice: IoSlice<'_>) -> Seq<u8>;

/// `IoSlice::new` wraps a byte slice without copying it: the result refers to
/// the bytes of `buf`. On Windows it panics where the slice is longer than
/// 4 GiB, so no longer slice is handed to it.
pub assume_specification<'a>[ IoSlice::<'a>::new ](buf: &'a [u8]) -> (slice: IoSlice<'a>)
    requires
        buf@.len() <= u32::MAX,
    ensures
        gathered(slice) == buf@,
;

/// `Vec::capacity`: the number of bytes that `buffer` has room for without
/// allocating again. How many that is lies with the allocator; it is never
/// less than the length.
#[verifier::external_body]
fn capacity(buffer: &Vec<u8>) -> (room: usize)
    ensures
        room >= buffer@.len(),
{
    buffer.capacity()
}

/// The first `n` bytes of `storage`, or all of it where `n` is no length of a
/// part of it.
pub open spec fn kept(storage: Seq<u8>, n: int) -> Seq<u8> {
    if 0 <= n <= storage.len() {
        storage.take(n)
    } else {
        storage
    }
}

/// What a call that returned `rc` comes to: a negative value is a failure
/// with the error code `errno`, read right after the call; anything else is
/// a success.
pub open spec fn outcome(rc: int, errno: i32) -> Result<(), i32> {
    if rc < 0 {
        Err(errno)
    } else {
        Ok(())
    }
}

/// A read that waits to be carried out on a buffer.
#[derive(Debug, Clone, Copy, PartialEq, Eq)]
pub struct Read {
    fd: i32,
    count: usize,
    len: usize,
}

/// What a `Read` holds.
pub struct ReadView {
    /// The descriptor to read from.
    pub fd: i32,
    /// The number of bytes that the read may fill.
    pub count: usize,
    /// The length that the buffer had before it was made ready.
    pub len: usize,
}

impl View for Read {
    type V = ReadView;

    closed spec fn view(&self) -> ReadView {
        ReadView { fd: self.fd, count: self.count, len: self.len }
    }
}

/// A buffer that held `before`, made ready for a read of up to `room` bytes:
/// what it held, then zeros up to that length. A buffer that is already
/// longer stays as it is.
pub open spec fn readied(before: Seq<u8>, room: int) -> Seq<u8> {
    if room > before.len() {
        before + Seq::new((room - before.len()) as nat, |i: int| 0u8)
    } else {
        before
    }
}

/// The buffer after a read that returned `rc`, where `storage` is the buffer
/// as the call left it. A failed read gives the buffer its former length
/// back; a read of `rc` bytes leaves those bytes, which the call wrote at the
/// front of the storage.
pub open spec fn after_read(storage: Seq<u8>, read: ReadView, rc: int) -> Seq<u8> {
    if rc < 0 {
        kept(storage, read.len as int)
    } else {
        kept(storage, rc)
    }
}

impl Read {
    /// Makes `buffer` ready for a read from `fd` of up to `room` bytes: the
    /// buffer is filled up with zeros to that length, so that the call may
    /// write to all of it. What the buffer held stays at its front.
    pub fn with_room(fd: i32, buffer: &mut Vec<u8>, room: usize) -> (read: Self)
        ensures
            final(buffer)@ == readied(old(buffer)@, room as int),
            read@ == (ReadView {
                fd,
                count: final(buffer)@.len() as usize,
                len: old(buffer)@.len() as usize,
            }),
    {
        let len = buffer.len();
        if room > len {
            buffer.resize(room, 0);
            proof {
                assert(buffer@ =~= readied(old(buffer)@, room as int));
            }
        }
        Read { fd, count: buffer.len(), len }
    }

    /// Makes `buffer` ready for a read from `fd` into all the room that it
    /// has: its length becomes its capacity.
    pub(crate) fn into_capacity(fd: i32, buffer: &mut Vec<u8>) -> (read: Self)
        ensures
            final(buffer)@ == readied(old(buffer)@, read@.count as int),
            read@ == (ReadView {
                fd,
                count: final(buffer)@.len() as usize,
                len: old(buffer)@.len() as usize,
            }),
    {
        let room = capacity(buffer);
        Read::with_room(fd, buffer, room)
    }

    /// The descriptor to read from.
    pub fn fd(&self) -> (fd: i32)
        ensures
            fd == self@.fd,
    {
        self.fd
    }

    /// The number of bytes that the read may fill, starting at the first byte
    /// of the buffer.
    pub fn count(&self) -> (count: usize)
        ensures
            count == self@.count,
    {
        self.count
    }

    /// Takes what the read returned: `rc`, and the error code `errno` read
    /// right after the call. `buffer` is the buffer that the call wrote to.
    ///
    /// A negative `rc` is a failure: the result is the error code, and the
    /// buffer gets its former length back. Otherwise the read succeeded, and
    /// the buffer is cut to the `rc` bytes that were read, which may be fewer
    /// than it had room for.
    pub fn finish(self, buffer: &mut Vec<u8>, rc: isize, errno: i32) -> (result: Result<(), i32>)
        ensures
            result == outcome(rc as int, errno),
            final(buffer)@ == after_read(old(buffer)@, self@, rc as int),
    {
        if rc < 0 {
            buffer.truncate(self.len);
            Err(errno)
        } else {
            buffer.truncate(rc as usize);
            Ok(())
        }
    }
}

/// One vectored write that waits to be carried out.
#[derive(Debug)]
pub struct Write<'a> {
    fd: i32,
    iov: Vec<IoSlice<'a>>,
    iovcnt: i32,
}

/// What a `Write` holds.
pub struct WriteView {
    /// The descriptor to write to.
    pub fd: i32,
    /// The byte strings to write, in order.
    pub buffers: Seq<Seq<u8>>,
}

impl<'a> View for Write<'a> {
    type V = WriteView;

    closed spec fn view(&self) -> WriteView {
        WriteView { fd: self.fd, buffers: Seq::new(self.iov@.len(), |i: int| gathered(self.iov@[i])) }
    }
}

/// Whether `buffers` can be gathered for one vectored write: their number
/// fits the C `int` that counts them, and the length of each fits the 32 bits
/// that every platform's entry has room for.
pub open spec fn can_gather(buffers: Seq<Seq<u8>>) -> bool {
    &&& buffers.len() <= i32::MAX
    &&& forall|i: int| 0 <= i < buffers.len() ==> (#[trigger] buffers[i]).len() <= u32::MAX
}

/// Tells whether `buffers` can be gathered for one vectored write.
pub fn gatherable(buffers: &[&[u8]]) -> (ok: bool)
    ensures
        ok == can_gather(texts(buffers)),
{
    if buffers.len() > 0x7fff_ffff {
        return false;
    }
    let mut i: usize = 0;
    while i < buffers.len()
        invariant
            i <= buffers.len(),
            buffers.len() <= i32::MAX,
            forall|k: int| 0 <= k < i ==> (#[trigger] texts(buffers)[k]).len() <= u32::MAX,
        decreases buffers.len() - i,
    {
        if buffers[i].len() > 0xffff_ffff {
            assert(texts(buffers)[i as int].len() > u32::MAX);
            return false;
        }
        i += 1;
    }
    true
}

/// The message that one vectored write of `buffers` delivers: their bytes,
/// one buffer after the other.
pub open spec fn message(buffers: Seq<Seq<u8>>) -> Seq<u8> {
    buffers.flatten()
}

impl<'a> Write<'a> {
    #[verifier::type_invariant]
    spec fn counted(self) -> bool {
        self.iovcnt == self.iov@.len()
    }

    /// Gathers `buffers` for one write to `fd`. Nothing is copied: each entry
    /// of the list refers to the bytes of its buffer.
    pub(crate) fn gather(fd: i32, buffers: &'a [&'a [u8]]) -> (write: Self)
        requires
            can_gather(texts(buffers)),
        ensures
            write@ == (WriteView { fd, buffers: texts(buffers) }),
    {
        let mut iov: Vec<IoSlice<'a>> = Vec::new();
        let mut i: usize = 0;
        while i < buffers.len()
            invariant
                i <= buffers.len(),
                can_gather(texts(buffers)),
                iov@.len() == i,
                forall|k: int| 0 <= k < i ==> gathered(#[trigger] iov@[k]) == buffers@[k]@,
            decreases buffers.len() - i,
        {
            assert(texts(buffers)[i as int].len() <= u32::MAX);
            iov.push(IoSlice::new(buffers[i]));
            i += 1;
        }
        let iovcnt = iov.len() as i32;
        let write = Write { fd, iov, iovcnt };
        proof {
            assert(write@.buffers =~= texts(buffers));
        }
        write
    }

    /// The descriptor to write to.
    pub fn fd(&self) -> (fd: i32)
        ensures
            fd == self@.fd,
    {
        self.fd
    }

    /// The list to hand to the write: one entry for each buffer, in order.
    pub fn iov(&self) -> (iov: &[IoSlice<'a>])
        ensures
            iov@.len() == self@.buffers.len(),
            forall|i: int| 0 <= i < iov@.len() ==> gathered(#[trigger] iov@[i]) == self@.buffers[i],
    {
        self.iov.as_slice()
    }

    /// The number of entries in the list.
    pub fn iovcnt(&self) -> (iovcnt: i32)
        ensures
            iovcnt == self@.buffers.len(),
    {
        proof {
            use_type_invariant(self);
        }
        self.iovcnt
    }

    /// Takes what the write returned: `rc`, and the error code `errno` read
    /// right after the call. A negative `rc` is a failure with that error
    /// code; anything else is a success.
    pub fn finish(self, rc: isize, errno: i32) -> (result: Result<(), i32>)
        ensures
            result == outcome(rc as int, errno),
    {
        if rc < 0 {
            Err(errno)
        } else {
            Ok(())
        }
    }
}

/// A read of `rc` bytes, no more than the storage holds, leaves a buffer of
/// exactly those bytes.
pub proof fn lemma_read_fills(storage: Seq<u8>, read: ReadView, rc: int)
    requires
        0 <= rc <= storage.len(),
    ensures
        after_read(storage, read, rc) == storage.take(rc),
        after_read(storage, read, rc).len() == rc,
        outcome(rc, 0) == Ok::<(), i32>(()),
{
}

/// A failed read that wrote nothing leaves the buffer as it was before it
/// was made ready, whatever room it was given.
pub proof fn lemma_failed_read_restores(before: Seq<u8>, room: int, read: ReadView, rc: int, errno: i32)
    requires
        read.len == before.len(),
        rc < 0,
    ensures
        after_read(readied(before, room), read, rc) == before,
        outcome(rc, errno) == Err::<(), i32>(errno),
{
    assert(readied(before, room).take(before.len() as int) =~= before);
}

/// The message of a header and a payload is the header's bytes followed by
/// the payload's.
pub proof fn lemma_message_of_two(header: Seq<u8>, payload: Seq<u8>)
    ensures
        message(seq![header, payload]) == header + payload,
{
    let both = seq![header, payload];
    assert(both.drop_first() =~= seq![payload]);
    assert(both.drop_first().drop_first() =~= Seq::<Seq<u8>>::empty());
    reveal_with_fuel(Seq::flatten, 3);
    assert(both.flatten() =~= header + payload);
}

} // verus!
