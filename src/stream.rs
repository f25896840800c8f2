use vstd::prelude::*;

verus! {

/// Where a seek is measured from, as in a seekable byte stream.
#[derive(Clone, Copy, Debug, PartialEq, Eq, Structural)]
pub enum SeekTarget {
    /// An absolute offset from the start of the device.
    Start(u64),
    /// An offset relative to the end of the device.
    End(i64),
    /// An offset relative to the current cursor.
    Current(i64),
}

/// Failures of the byte-stream view of a device.
#[derive(Clone, Copy, Debug, PartialEq, Eq, Structural)]
pub enum StreamError {
    /// The seek would move the cursor before offset 0 or beyond `u64::MAX`.
    InvalidSeek,
    /// A write starts at or beyond the end of a device that cannot grow.
    OutOfRange,
    /// The device reported more bytes than it was asked for, or failed.
    Device,
}

/// The absolute offset that `target` designates, for a cursor at `pos` on a
/// device of `size` bytes (possibly negative or beyond `u64::MAX`).
pub open spec fn seek_offset(pos: nat, size: nat, target: SeekTarget) -> int {
    match target {
        SeekTarget::Start(n) => n as int,
        SeekTarget::End(d) => size + d,
        SeekTarget::Current(d) => pos + d,
    }
}

/// Number of bytes a read of `want` bytes delivers at `pos`: zero at or past
/// the end of the device.
pub open spec fn read_count(pos: nat, size: nat, want: nat) -> nat {
    if pos >= size {
        0
    } else if want <= size - pos {
        want
    } else {
        (size - pos) as nat
    }
}

/// Byte-stream view of a block device: a cursor over a device of fixed size.
/// The cursor may stand beyond the end of the device after a seek.
pub struct FatDevice {
    pos: u64,
    size: u64,
}

impl FatDevice {
    /// The cursor, as an absolute offset.
    pub closed spec fn pos_spec(&self) -> nat {
        self.pos as nat
    }

    /// The size in bytes of the underlying device.
    pub closed spec fn size_spec(&self) -> nat {
        self.size as nat
    }

    /// A fresh adapter over a device of `size` bytes; its cursor is at 0.
    pub fn new(size: u64) -> (r: FatDevice)
        ensures
            r.pos_spec() == 0,
            r.size_spec() == size,
    {
        FatDevice { pos: 0, size }
    }

    pub fn position(&self) -> (r: u64)
        ensures
            r == self.pos_spec(),
    {
        self.pos
    }

    pub fn size(&self) -> (r: u64)
        ensures
            r == self.size_spec(),
    {
        self.size
    }

    /// Moves the cursor to the offset that `target` designates and returns it.
    /// Fails, leaving the cursor where it was, when that offset is negative or
    /// beyond `u64::MAX`. Seeking past the end of the device is allowed.
    pub fn seek(&mut self, target: SeekTarget) -> (r: Result<u64, StreamError>)
        ensures
            final(self).size_spec() == old(self).size_spec(),
            ({
                let t = seek_offset(old(self).pos_spec(), old(self).size_spec(), target);
                &&& (0 <= t <= u64::MAX) ==> r == Ok::<u64, StreamError>(t as u64)
                    && final(self).pos_spec() == t
                &&& !(0 <= t <= u64::MAX) ==> r == Err::<u64, StreamError>(
                    StreamError::InvalidSeek,
                ) && final(self).pos_spec() == old(self).pos_spec()
            }),
    {
        let base: i128 = match target {
            SeekTarget::Start(n) => n as i128,
            SeekTarget::End(d) => self.size as i128 + d as i128,
            SeekTarget::Current(d) => self.pos as i128 + d as i128,
        };
        if base < 0 || base > u64::MAX as i128 {
            Err(StreamError::InvalidSeek)
        } else {
            self.pos = base as u64;
            Ok(self.pos)
        }
    }

    /// How many bytes a read of `want` bytes takes from the device at the
    /// cursor: all of them, or what is left before the end; zero at or past
    /// the end (end of file, not an error).
    pub fn read_len(&self, want: usize) -> (r: usize)
        ensures
            r == read_count(self.pos_spec(), self.size_spec(), want as nat),
    {
        if self.pos >= self.size {
            0
        } else {
            let left: u64 = self.size - self.pos;
            if (want as u64) <= left {
                want
            } else {
                left as usize
            }
        }
    }

    /// How many bytes a write of `want` bytes puts on the device at the
    /// cursor. The device does not grow: a non-empty write at or past its end
    /// fails with `OutOfRange`; otherwise the write is cut at the end.
    pub fn write_len(&self, want: usize) -> (r: Result<usize, StreamError>)
        ensures
            want == 0 ==> r == Ok::<usize, StreamError>(0),
            want > 0 && self.pos_spec() >= self.size_spec() ==> r == Err::<usize, StreamError>(
                StreamError::OutOfRange,
            ),
            want > 0 && self.pos_spec() < self.size_spec() ==> r == Ok::<usize, StreamError>(
                read_count(self.pos_spec(), self.size_spec(), want as nat) as usize,
            ),
    {
        if want == 0 {
            Ok(0)
        } else if self.pos >= self.size {
            Err(StreamError::OutOfRange)
        } else {
            Ok(self.read_len(want))
        }
    }

    /// Accounts for a transfer that the device reports as `done` bytes of the
    /// `planned` ones: the cursor moves by `done`. A report beyond the plan is
    /// a device fault and leaves the cursor in place.
    pub fn consume(&mut self, planned: usize, done: usize) -> (r: Result<usize, StreamError>)
        requires
            planned == read_count(old(self).pos_spec(), old(self).size_spec(), planned as nat),
        ensures
            final(self).size_spec() == old(self).size_spec(),
            done <= planned ==> r == Ok::<usize, StreamError>(done) && final(self).pos_spec()
                == old(self).pos_spec() + done,
            done > planned ==> r == Err::<usize, StreamError>(StreamError::Device)
                && final(self).pos_spec() == old(self).pos_spec(),
    {
        if done > planned {
            Err(StreamError::Device)
        } else {
            self.pos = self.pos + done as u64;
            Ok(done)
        }
    }
}

} // verus!
