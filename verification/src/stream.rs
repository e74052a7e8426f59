//! The bookkeeping of the streaming reader. Audio arrives in chunks that are
//! appended to a temporary file through a write buffer; the decoder reads
//! and seeks in that file. The cursor keeps how far the stream has been
//! written, how much of it is flushed to the file, where the decoder reads,
//! and whether the stream has ended; it decides when to wait for a chunk and
//! when to flush. Receiving, writing and reading stay with the caller.
use vstd::prelude::*;

verus! {

/// A position to seek to, as `std::io::SeekFrom` gives it.
#[derive(Debug, Clone, Copy, PartialEq, Eq, Structural)]
pub enum SeekPos {
    Start(u64),
    Current(i64),
    End(i64),
}

/// `a + n`, held to the range of `u64`.
pub open spec fn clamp_add(a: int, n: int) -> int {
    if a + n < 0 {
        0
    } else if a + n > u64::MAX {
        u64::MAX as int
    } else {
        a + n
    }
}

/// `a + n` held to the range of `u64` (the integer method
/// `saturating_add_signed`).
pub fn saturating_add_signed(a: u64, n: i64) -> (r: u64)
    ensures
        r == clamp_add(a as int, n as int),
{
    if n >= 0 {
        let m = n as u64;
        if a > u64::MAX - m {
            u64::MAX
        } else {
            a + m
        }
    } else {
        let m = ((-(n + 1)) as u64) + 1;
        if a < m {
            0
        } else {
            a - m
        }
    }
}

/// Positions in the stream, in bytes.
#[derive(Debug, Clone, Copy, PartialEq, Eq, Structural)]
pub struct StreamCursor {
    /// Bytes received and written to the write buffer.
    pub write_pos: u64,
    /// Bytes known to be in the file.
    pub flushed_pos: u64,
    /// Where the decoder reads next.
    pub read_pos: u64,
    /// Whether the stream has ended.
    pub exhausted: bool,
}

impl StreamCursor {
    /// What is flushed was written.
    pub open spec fn wf(&self) -> bool {
        self.flushed_pos <= self.write_pos
    }

    /// A stream with nothing received.
    pub fn new() -> (c: Self)
        ensures
            c.wf(),
            c == (StreamCursor { write_pos: 0, flushed_pos: 0, read_pos: 0, exhausted: false }),
    {
        StreamCursor { write_pos: 0, flushed_pos: 0, read_pos: 0, exhausted: false }
    }

    /// Whether to wait for another chunk to have `until` bytes: the stream
    /// goes on and has less.
    pub fn wants_chunk(&self, until: u64) -> (b: bool)
        ensures
            b == (!self.exhausted && self.write_pos < until),
    {
        !self.exhausted && self.write_pos < until
    }

    /// A chunk of `len` bytes was written.
    pub fn on_chunk(&mut self, len: u64)
        requires
            old(self).wf(),
            old(self).write_pos + len <= u64::MAX,
        ensures
            final(self).wf(),
            *final(self) == (StreamCursor { write_pos: (old(self).write_pos + len) as u64, ..*old(self) }),
    {
        self.write_pos = self.write_pos + len;
    }

    /// The stream ended, and the write buffer was flushed.
    pub fn on_end(&mut self)
        requires
            old(self).wf(),
        ensures
            final(self).wf(),
            *final(self) == (StreamCursor { exhausted: true, flushed_pos: old(self).write_pos, ..*old(self) }),
    {
        self.exhausted = true;
        self.flushed_pos = self.write_pos;
    }

    /// Whether the write buffer must be flushed for the file to hold `until`
    /// bytes.
    pub fn needs_flush(&self, until: u64) -> (b: bool)
        ensures
            b == (self.flushed_pos < until),
    {
        self.flushed_pos < until
    }

    /// The write buffer was flushed.
    pub fn on_flush(&mut self)
        requires
            old(self).wf(),
        ensures
            final(self).wf(),
            *final(self) == (StreamCursor { flushed_pos: old(self).write_pos, ..*old(self) }),
    {
        self.flushed_pos = self.write_pos;
    }

    /// How many bytes must have arrived for a read of `out_len` bytes.
    pub fn read_needed(&self, out_len: u64) -> (n: u64)
        requires
            self.read_pos + out_len <= u64::MAX,
        ensures
            n == self.read_pos + out_len,
    {
        self.read_pos + out_len
    }

    /// Whether the decoder has read everything that arrived.
    pub fn at_end(&self) -> (b: bool)
        ensures
            b == (self.read_pos >= self.write_pos),
    {
        self.read_pos >= self.write_pos
    }

    /// `n` bytes were read.
    pub fn on_read(&mut self, n: u64)
        requires
            old(self).wf(),
            old(self).read_pos + n <= u64::MAX,
        ensures
            final(self).wf(),
            *final(self) == (StreamCursor { read_pos: (old(self).read_pos + n) as u64, ..*old(self) }),
    {
        self.read_pos = self.read_pos + n;
    }

    /// Where a seek goes before it is held to what arrived. For `End` the
    /// stream must have been drained first.
    pub fn seek_target(&self, pos: SeekPos) -> (t: u64)
        ensures
            pos matches SeekPos::Start(n) ==> t == n,
            pos matches SeekPos::Current(n) ==> t == clamp_add(self.read_pos as int, n as int),
            pos matches SeekPos::End(n) ==> t == clamp_add(self.write_pos as int, n as int),
    {
        match pos {
            SeekPos::Start(n) => n,
            SeekPos::Current(n) => saturating_add_signed(self.read_pos, n),
            SeekPos::End(n) => saturating_add_signed(self.write_pos, n),
        }
    }

    /// Where a seek to `target` lands: no further than what arrived.
    pub fn seek_landing(&self, target: u64) -> (p: u64)
        ensures
            p == if target < self.write_pos { target } else { self.write_pos },
    {
        if target < self.write_pos {
            target
        } else {
            self.write_pos
        }
    }

    /// The decoder now reads at `pos`.
    pub fn on_seek(&mut self, pos: u64)
        requires
            old(self).wf(),
        ensures
            final(self).wf(),
            *final(self) == (StreamCursor { read_pos: pos, ..*old(self) }),
    {
        self.read_pos = pos;
    }
}

} // verus!
