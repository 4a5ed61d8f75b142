//! Archive entries and the chunks that an archive stream yields.
use vstd::prelude::*;

use crate::error::TarError;
use crate::header::{place, BLOCK};

verus! {

/// `n` rounded up to a whole number of 512-byte blocks.
pub open spec fn ceil_block(n: nat) -> nat {
    ((n + 511) / 512 * 512) as nat
}

/// One entry of an archive.
#[derive(Debug)]
pub enum TarEntry {
    /// A regular file, by its path.
    File(String),
}

/// The ordered list of entries that an archive stream will write.
pub struct TarArchive {
    pub entries: Vec<TarEntry>,
}

impl TarArchive {
    pub fn new() -> (r: TarArchive)
        ensures
            r.entries@.len() == 0,
    {
        TarArchive { entries: Vec::new() }
    }

    pub fn append_file(&mut self, file: String)
        ensures
            final(self).entries@.len() == old(self).entries@.len() + 1,
            final(self).entries@.drop_last() == old(self).entries@,
            final(self).entries@.last() is File,
            final(self).entries@.last()->File_0@ == file@,
    {
        self.entries.push(TarEntry::File(file));
        assert(self.entries@.drop_last() =~= old(self).entries@);
    }
}

/// A piece of the archive byte stream.
#[derive(Debug)]
pub enum TarChunk {
    /// The header of the entry at the given path.
    Header(String, Vec<u8>),
    /// File contents, a whole number of pages, the last one zero-padded.
    Data(Vec<u8>),
    /// One of the two zero blocks that end an archive.
    Padding(usize),
}

impl TarChunk {
    /// The bytes that this chunk stands for in the archive.
    pub open spec fn bytes(&self) -> Seq<u8> {
        match self {
            TarChunk::Header(_, data) => data@,
            TarChunk::Data(data) => data@,
            TarChunk::Padding(_) => Seq::new(BLOCK as nat, |i: int| 0u8),
        }
    }

    pub fn header(path: String, data: Vec<u8>) -> (r: TarChunk)
        ensures
            r is Header,
            r->Header_0@ == path@,
            r->Header_1@ == data@,
    {
        TarChunk::Header(path, data)
    }

    pub fn padding(index: usize) -> (r: TarChunk)
        ensures
            r == TarChunk::Padding(index),
    {
        TarChunk::Padding(index)
    }

    pub fn data(pages: usize) -> (r: TarChunk)
        requires
            pages * BLOCK <= usize::MAX,
        ensures
            r is Data,
            r.bytes() == Seq::new((pages * BLOCK) as nat, |i: int| 0u8),
    {
        let data: Vec<u8> = vec![0u8; pages * BLOCK];
        assert(data@ =~= Seq::new((pages * BLOCK) as nat, |i: int| 0u8));
        TarChunk::Data(data)
    }

    pub fn len(&self) -> (r: usize)
        ensures
            r == self.bytes().len(),
    {
        match self {
            TarChunk::Header(_, data) => data.len(),
            TarChunk::Padding(_) => BLOCK,
            TarChunk::Data(data) => data.len(),
        }
    }

    /// How many bytes can be written from `value` on; padding takes none.
    pub fn offset(&self, value: usize) -> (r: Result<usize, TarError>)
        ensures
            r is Ok <==> !(self is Padding) && value <= self.bytes().len(),
            r is Ok ==> r->Ok_0 == self.bytes().len() - value,
            r is Err ==> r->Err_0 is MemoryAccess,
    {
        match self {
            TarChunk::Padding(_) => Err(TarError::memory_access("Padding cannot provide offset")),
            TarChunk::Header(_, data) => {
                if value <= data.len() {
                    Ok(data.len() - value)
                } else {
                    Err(TarError::memory_access("Header cannot provide offset"))
                }
            },
            TarChunk::Data(data) => {
                if value <= data.len() {
                    Ok(data.len() - value)
                } else {
                    Err(TarError::memory_access("Data cannot provide offset"))
                }
            },
        }
    }

    /// Writes `bytes` into the chunk from `at` on.
    pub fn fill(&mut self, at: usize, bytes: &[u8]) -> (r: Result<(), TarError>)
        ensures
            r is Ok <==> !(*old(self) is Padding) && at + bytes@.len() <= old(self).bytes().len(),
            r is Ok ==> final(self).bytes() == place(old(self).bytes(), at as int, bytes@),
            r is Err ==> *final(self) == *old(self) && r->Err_0 is MemoryAccess,
            *final(self) is Header <==> *old(self) is Header,
            *final(self) is Data <==> *old(self) is Data,
            *final(self) is Padding <==> *old(self) is Padding,
            *old(self) is Header ==> (*final(self))->Header_0 == (*old(self))->Header_0,
    {
        let available = match self.offset(at) {
            Ok(n) => n,
            Err(e) => return Err(e),
        };
        if bytes.len() > available {
            return Err(TarError::memory_access("Chunk cannot hold the bytes"));
        }
        match self {
            TarChunk::Header(_, data) => {
                Self::copy_into(data, at, bytes);
            },
            TarChunk::Data(data) => {
                Self::copy_into(data, at, bytes);
            },
            TarChunk::Padding(_) => {},
        }
        Ok(())
    }

    fn copy_into(data: &mut Vec<u8>, at: usize, bytes: &[u8])
        requires
            at + bytes@.len() <= old(data)@.len(),
        ensures
            final(data)@ == place(old(data)@, at as int, bytes@),
    {
        let ghost start = data@;
        let n: usize = data.len();
        let mut i: usize = 0;
        while i < bytes.len()
            invariant
                n == data@.len(),
                at + bytes@.len() <= data@.len(),
                data@.len() == start.len(),
                i <= bytes@.len(),
                forall|k: int|
                    0 <= k < data@.len() ==> data@[k] == (if at <= k < at + i {
                        bytes@[k - at]
                    } else {
                        start[k]
                    }),
            decreases bytes@.len() - i,
        {
            data.set(at + i, bytes[i]);
            i = i + 1;
        }
        assert(data@ =~= place(start, at as int, bytes@));
    }

    /// The chunk as the bytes it stands for in the archive.
    pub fn into_bytes(self) -> (r: Vec<u8>)
        ensures
            r@ == self.bytes(),
    {
        match self {
            TarChunk::Header(_, data) => data,
            TarChunk::Padding(_) => {
                let r: Vec<u8> = vec![0u8; BLOCK];
                assert(r@ =~= Seq::new(BLOCK as nat, |i: int| 0u8));
                r
            },
            TarChunk::Data(data) => data,
        }
    }
}

} // verus!
