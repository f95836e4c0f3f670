//! Reading a one-dimensional dataset of bytes as a stream: the position in
//! it, seeking, and the part of the dataset that each read takes.

use vstd::prelude::*;
use crate::container::{ensure_convertible, spec_ensure_convertible, Conversion};
use crate::error::{Error, ErrorView};
use crate::text::string_of;

verus! {

/// Where a seek is measured from.
#[derive(Clone, Copy, Debug, PartialEq, Eq)]
pub enum SeekFrom {
    /// From the start of the data.
    Start(u64),
    /// From the end of the data.
    End(i64),
    /// From the current position.
    Current(i64),
}

/// Why a seek failed.
#[derive(Clone, Copy, Debug, PartialEq, Eq)]
pub enum SeekError {
    /// The position would be negative or overflow.
    InvalidInput,
}

impl SeekError {
    /// The message of the error.
    pub fn message(self) -> (r: String)
        ensures
            r@ == "invalid seek to a negative or overflowing position"@,
    {
        string_of("invalid seek to a negative or overflowing position")
    }
}

/// A reader of the bytes of a one-dimensional dataset: its position and the
/// dataset's length.
#[derive(Clone, Debug, PartialEq, Eq)]
pub struct ByteReader {
    pos: u64,
    len: usize,
}

/// Abstract value of a [`ByteReader`].
pub struct ByteReaderView {
    pub pos: u64,
    pub len: usize,
}

impl View for ByteReader {
    type V = ByteReaderView;

    closed spec fn view(&self) -> ByteReaderView {
        ByteReaderView { pos: self.pos, len: self.len }
    }
}

/// Why a byte reader cannot be made for an object, if it cannot: it is an
/// attribute, its datatype does not convert to bytes without a conversion,
/// or it is not one-dimensional.
pub open spec fn spec_reader_check(is_attr: bool, path: Option<Conversion>, shape: Seq<usize>) -> Result<(), Seq<char>> {
    if is_attr {
        Err("ByteReader cannot be used on attribute datasets"@)
    } else if spec_ensure_convertible(path, Conversion::NoOp) is Err {
        spec_ensure_convertible(path, Conversion::NoOp)
    } else if shape.len() != 1 {
        Err("Only rank 1 datasets can be read via ByteReader"@)
    } else {
        Ok(())
    }
}

/// The bytes left after position `pos` in `len` bytes (the position taken
/// as a `usize`), none when it lies at or past the end.
pub open spec fn spec_remaining(pos: u64, len: usize) -> usize {
    if (pos as usize) < len {
        (len - (pos as usize)) as usize
    } else {
        0
    }
}

/// The position a seek leads to, if it is neither negative nor beyond the
/// largest position.
pub open spec fn spec_seek(pos: u64, len: usize, style: SeekFrom) -> Option<u64> {
    let (base, offset) = match style {
        SeekFrom::Start(n) => (0int, n as int),
        SeekFrom::End(n) => (len as int, n as int),
        SeekFrom::Current(n) => (pos as int, n as int),
    };
    if 0 <= base + offset <= u64::MAX {
        Some((base + offset) as u64)
    } else {
        None
    }
}

impl ByteReader {
    /// A reader at the start of an object of the given shape. `is_attr`
    /// tells whether the object is an attribute, and `path` is the
    /// conversion path from its datatype to bytes.
    pub fn new(is_attr: bool, path: Option<Conversion>, shape: &[usize]) -> (r: Result<Self, Error>)
        ensures
            match (r, spec_reader_check(is_attr, path, shape@)) {
                (Ok(b), Ok(_)) => b@.pos == 0 && b@.len == shape@[0],
                (Err(e), Err(m)) => e@ == ErrorView::Internal(m),
                _ => false,
            },
    {
        if is_attr {
            return Err(Error::Internal(string_of("ByteReader cannot be used on attribute datasets")));
        }
        match ensure_convertible(path, Conversion::NoOp) {
            Ok(()) => {},
            Err(e) => {
                return Err(e);
            },
        }
        if shape.len() != 1 {
            return Err(Error::Internal(string_of("Only rank 1 datasets can be read via ByteReader")));
        }
        Ok(ByteReader { pos: 0, len: shape[0] })
    }

    /// The length of the dataset in bytes.
    pub fn dataset_len(&self) -> (r: usize)
        ensures
            r == self@.len,
    {
        self.len
    }

    /// The bytes left to read.
    pub fn remaining_len(&self) -> (r: usize)
        ensures
            r == spec_remaining(self@.pos, self@.len),
    {
        self.len.saturating_sub(self.pos as usize)
    }

    /// Whether the position lies at or past the end.
    pub fn is_empty(&self) -> (r: bool)
        ensures
            r == (self@.pos >= self@.len),
    {
        self.pos >= self.len as u64
    }

    /// The current position.
    pub fn stream_position(&self) -> (r: u64)
        ensures
            r == self@.pos,
    {
        self.pos
    }

    /// Moves the position; a seek to a negative or overflowing position
    /// fails and leaves the position as it was.
    pub fn seek(&mut self, style: SeekFrom) -> (r: Result<u64, SeekError>)
        ensures
            final(self)@.len == old(self)@.len,
            match spec_seek(old(self)@.pos, old(self)@.len, style) {
                Some(p) => r == Ok::<u64, SeekError>(p) && final(self)@.pos == p,
                None => r == Err::<u64, SeekError>(SeekError::InvalidInput) && final(self)@.pos == old(self)@.pos,
            },
    {
        let (base, offset): (u64, i64) = match style {
            SeekFrom::Start(n) => {
                self.pos = n;
                return Ok(n);
            },
            SeekFrom::End(n) => (self.len as u64, n),
            SeekFrom::Current(n) => (self.pos, n),
        };
        let new_pos = if offset < 0 {
            let back: u64 = if offset == i64::MIN { 0x8000_0000_0000_0000u64 } else { (-offset) as u64 };
            base.checked_sub(back)
        } else {
            base.checked_add(offset as u64)
        };
        match new_pos {
            Some(n) => {
                self.pos = n;
                Ok(n)
            },
            None => Err(SeekError::InvalidInput),
        }
    }

    /// The part of the dataset that a read into a buffer of `buf_len` bytes
    /// takes: its start and its length, no more than the buffer holds or
    /// than is left.
    pub fn read_window(&self, buf_len: usize) -> (r: (usize, usize))
        ensures
            r.0 == self@.pos as usize,
            r.1 == if buf_len < spec_remaining(self@.pos, self@.len) { buf_len } else { spec_remaining(self@.pos, self@.len) },
            r.0 + r.1 <= self@.len || r.1 == 0,
            self@.pos + r.1 <= u64::MAX,
    {
        let start = self.pos as usize;
        let rem = self.remaining_len();
        let amt = if buf_len < rem { buf_len } else { rem };
        proof {
            let p = self.pos;
            let t = p as usize;
            let l = self.len;
            assert(t < l ==> p + (l - t) <= u64::MAX) by (bit_vector)
                requires
                    t == p as usize,
            ;
        }
        (start, amt)
    }

    /// Moves past `amt` bytes just read.
    pub fn advance(&mut self, amt: usize)
        requires
            old(self)@.pos + amt <= u64::MAX,
        ensures
            final(self)@ == (ByteReaderView { pos: (old(self)@.pos + amt) as u64, len: old(self)@.len }),
    {
        self.pos = self.pos + amt as u64;
    }
}

/// Seeking to `n` from the start leads to `n`; seeking by 0 from the
/// current position stays there; seeking by 0 from the end leads to the
/// length of the data.
pub proof fn seek_positions(pos: u64, len: usize, n: u64)
    ensures
        spec_seek(pos, len, SeekFrom::Start(n)) == Some(n),
        spec_seek(n, len, SeekFrom::Current(0)) == Some(n),
        spec_seek(pos, len, SeekFrom::End(0)) == Some(len as u64),
{
}

} // verus!
