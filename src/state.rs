//! The archive writer as a state machine: it decides what comes next, and the
//! caller performs the file operations that it asks for.
use vstd::prelude::*;
use vstd::utf8::encode_utf8;

use crate::chunk::{ceil_block, TarArchive, TarChunk, TarEntry};
use crate::error::TarError;
use crate::header::{place, ustar_header, TarHeader, TarMetadata, BLOCK};

verus! {

/// Size of the data chunk allocated while `left` bytes of a file remain:
/// `min(buffer, ceil(left / 512) * 512)`.
pub open spec fn chunk_size(left: nat, buffer: nat) -> nat {
    if buffer < ceil_block(left) {
        buffer
    } else {
        ceil_block(left)
    }
}

/// The sizes of the data chunks written for a file of `left` bytes, in order.
pub open spec fn data_chunk_sizes(left: nat, buffer: nat) -> Seq<nat>
    decreases left,
{
    let c = chunk_size(left, buffer);
    if c >= left || c == 0 {
        seq![c]
    } else {
        seq![c] + data_chunk_sizes((left - c) as nat, buffer)
    }
}

/// The sum of a sequence of sizes.
pub open spec fn size_sum(s: Seq<nat>) -> nat
    decreases s.len(),
{
    if s.len() == 0 {
        0
    } else {
        s[0] + size_sum(s.drop_first())
    }
}

/// A usable buffer size: a positive multiple of 512.
pub open spec fn valid_buffer(buffer: nat) -> bool {
    buffer >= BLOCK && buffer % 512 == 0
}

/// The buffer size that a requested one is turned into: rounded down to a
/// multiple of 512, and at least 512.
pub open spec fn normalized_buffer(requested: nat) -> nat {
    if requested < BLOCK {
        BLOCK as nat
    } else {
        requested / 512 * 512
    }
}

/// The bytes of one file that the archive holds: a header and its data
/// chunks, which together come to `512 + ceil(size / 512) * 512` bytes.
pub proof fn lemma_file_bytes(size: nat, buffer: nat)
    requires
        valid_buffer(buffer),
    ensures
        BLOCK + size_sum(data_chunk_sizes(size, buffer)) == BLOCK + ceil_block(size),
        forall|i: int|
            0 <= i < data_chunk_sizes(size, buffer).len() ==> #[trigger] data_chunk_sizes(size, buffer)[i]
                % 512 == 0,
    decreases size,
{
    let c = chunk_size(size, buffer);
    let s = data_chunk_sizes(size, buffer);
    assert(ceil_block(size) % 512 == 0 && ceil_block(size) >= size && ceil_block(size) < size + 512)
        by (nonlinear_arith);
    if c >= size || c == 0 {
        assert(s =~= seq![c]);
        assert(s.drop_first() =~= Seq::<nat>::empty());
        assert(size_sum(s.drop_first()) == 0);
        if c < ceil_block(size) {
            // then c == buffer, a multiple of 512 no smaller than size
            assert(c == buffer);
            assert(false) by (nonlinear_arith)
                requires
                    buffer % 512 == 0,
                    buffer >= size,
                    buffer < ceil_block(size),
                    ceil_block(size) == ((size + 511) / 512 * 512) as nat,
            ;
        }
    } else {
        let rest = (size - c) as nat;
        lemma_file_bytes(rest, buffer);
        assert(c == buffer);
        assert(s.drop_first() =~= data_chunk_sizes(rest, buffer));
        assert(ceil_block(rest) + buffer == ceil_block(size)) by (nonlinear_arith)
            requires
                buffer % 512 == 0,
                buffer < size,
                rest == size - buffer,
                ceil_block(rest) == ((rest + 511) / 512 * 512) as nat,
                ceil_block(size) == ((size + 511) / 512 * 512) as nat,
        ;
        assert forall|i: int| 0 <= i < s.len() implies #[trigger] s[i] % 512 == 0 by {
            if i > 0 {
                assert(s[i] == data_chunk_sizes(rest, buffer)[i - 1]);
            }
        }
    }
}

/// Waiting to take the next entry.
pub struct TarStateInit {}

impl TarStateInit {
    pub fn new() -> (r: TarStateInit) {
        TarStateInit {}
    }
}

/// Waiting for the file at `path` to be opened.
pub struct TarStateOpen {
    pub path: String,
}

/// Waiting for the metadata of the open file at `path`.
pub struct TarStateHeader {
    pub path: String,
}

/// Copying the contents of the open file into data chunks.
pub struct TarStateRead {
    pub buffer_size: usize,
    /// Bytes of the file not read yet.
    pub left: u64,
    /// Bytes of the file read so far.
    pub completed: u64,
    /// The data chunk being filled.
    pub chunk: TarChunk,
    /// How much of `chunk` is filled.
    pub offset: usize,
}

impl TarStateRead {
    pub open spec fn wf(&self) -> bool {
        &&& valid_buffer(self.buffer_size as nat)
        &&& self.chunk is Data
        &&& self.offset <= self.chunk.bytes().len()
        &&& self.chunk.bytes().len() == chunk_size((self.left + self.offset) as nat, self.buffer_size as nat)
        &&& self.left > 0 ==> self.offset < self.chunk.bytes().len()
        &&& self.completed + self.left <= u64::MAX
        &&& self.offset <= self.completed
    }

    /// How many bytes the next read may bring: up to the end of the chunk,
    /// and no further than the end of the file.
    pub open spec fn wanted_spec(&self) -> nat {
        let room = (self.chunk.bytes().len() - self.offset) as nat;
        if (self.left as nat) < room {
            self.left as nat
        } else {
            room
        }
    }

    fn new(buffer_size: usize, length: u64) -> (r: TarStateRead)
        requires
            valid_buffer(buffer_size as nat),
        ensures
            r.wf(),
            r.buffer_size == buffer_size,
            r.left == length,
            r.completed == 0,
            r.offset == 0,
            r.chunk.bytes() == Seq::new(chunk_size(length as nat, buffer_size as nat), |i: int| 0u8),
    {
        let chunk = Self::allocate(buffer_size, length);
        TarStateRead { buffer_size, left: length, completed: 0, chunk, offset: 0 }
    }

    /// A zeroed data chunk of `min(buffer_size, ceil(left / 512) * 512)` bytes.
    fn allocate(buffer_size: usize, left: u64) -> (r: TarChunk)
        requires
            valid_buffer(buffer_size as nat),
        ensures
            r is Data,
            r.bytes() == Seq::new(chunk_size(left as nat, buffer_size as nat), |i: int| 0u8),
    {
        let available: usize = buffer_size / BLOCK;
        let whole: u64 = left / 512;
        let needed: u64 = whole + if left % 512 > 0 {
            1u64
        } else {
            0u64
        };
        let pages: usize = if needed < available as u64 {
            needed as usize
        } else {
            available
        };
        proof {
            assert(needed * 512 == ceil_block(left as nat)) by (nonlinear_arith)
                requires
                    whole == left / 512,
                    needed == whole + if left % 512 > 0 {
                        1int
                    } else {
                        0int
                    },
                    ceil_block(left as nat) == ((left + 511) / 512 * 512) as nat,
            ;
            assert(available * 512 == buffer_size) by (nonlinear_arith)
                requires
                    available == buffer_size / 512,
                    buffer_size % 512 == 0,
            ;
            assert(pages * 512 <= buffer_size) by (nonlinear_arith)
                requires
                    pages <= available,
                    available * 512 == buffer_size,
            ;
        }
        TarChunk::data(pages)
    }

    fn wanted(&self) -> (r: usize)
        requires
            self.wf(),
        ensures
            r == self.wanted_spec(),
    {
        let room: usize = self.chunk.len() - self.offset;
        if self.left < room as u64 {
            self.left as usize
        } else {
            room
        }
    }
}

/// Writing the zero block `index` of the two that end the archive.
pub struct TarStatePadding {
    pub index: usize,
}

impl TarStatePadding {
    pub fn new() -> (r: TarStatePadding)
        ensures
            r.index == 0,
    {
        TarStatePadding { index: 0 }
    }

    pub fn next(self) -> (r: TarStatePadding)
        requires
            self.index < usize::MAX,
        ensures
            r.index == self.index + 1,
    {
        TarStatePadding { index: self.index + 1 }
    }
}

/// The archive is finished, or failed; nothing more comes.
pub struct TarStateCompleted {}

impl TarStateCompleted {
    pub fn new() -> (r: TarStateCompleted) {
        TarStateCompleted {}
    }
}

/// Where the archive writer stands.
pub enum TarState {
    Init(TarStateInit),
    Open(TarStateOpen),
    Header(TarStateHeader),
    Read(TarStateRead),
    Padding(TarStatePadding),
    Completed(TarStateCompleted),
}

impl TarState {
    pub fn init() -> (r: TarState)
        ensures
            r is Init,
    {
        TarState::Init(TarStateInit::new())
    }

    pub fn completed() -> (r: TarState)
        ensures
            r is Completed,
    {
        TarState::Completed(TarStateCompleted::new())
    }

    pub fn padding() -> (r: TarState)
        ensures
            r is Padding,
            r->Padding_0.index == 0,
    {
        TarState::Padding(TarStatePadding::new())
    }

    pub fn open(entry: TarEntry) -> (r: TarState)
        ensures
            r is Open,
            r->Open_0.path@ == entry->File_0@,
    {
        match entry {
            TarEntry::File(path) => TarState::Open(TarStateOpen { path }),
        }
    }

    pub fn read(buffer_size: usize, length: u64) -> (r: TarState)
        requires
            valid_buffer(buffer_size as nat),
        ensures
            r->Read_0.wf(),
            fresh_read(r, buffer_size, length, 0),
    {
        TarState::Read(TarStateRead::new(buffer_size, length))
    }
}

/// What the caller reports back after doing what the writer asked for.
pub enum TarEvent {
    /// Nothing to report: the first poll, or the one after a chunk was taken.
    Resume,
    /// The file asked for by [`TarAction::Open`] is open.
    Opened,
    /// The metadata asked for by [`TarAction::Stat`].
    Metadata(TarMetadata),
    /// The bytes that a read asked for by [`TarAction::Read`] brought.
    Read(Vec<u8>),
    /// The file operation failed.
    Failed(std::io::Error),
}

/// What the writer asks the caller to do next.
pub enum TarAction {
    /// Open the file at this path.
    Open(String),
    /// Fetch the metadata of the open file.
    Stat,
    /// Read at most this many bytes from the open file.
    Read(usize),
    /// Hand this chunk downstream.
    Emit(TarChunk),
    /// Hand this error downstream; the stream is over.
    Fail(TarError),
    /// The stream is over.
    End,
}

/// Relies on `std::io::Error::from(ErrorKind::UnexpectedEof)`: the error for a
/// file that ends before the size its metadata gave.
#[verifier::external_body]
fn unexpected_eof() -> std::io::Error {
    std::io::Error::from(std::io::ErrorKind::UnexpectedEof)
}

/// A lazily written ustar archive over a list of files.
pub struct TarStream {
    pub state: TarState,
    pub buffer_size: usize,
    pub entries: Vec<TarEntry>,
    /// Index in `entries` of the next entry to write.
    pub next: usize,
}

impl TarStream {
    pub open spec fn wf(&self) -> bool {
        &&& valid_buffer(self.buffer_size as nat)
        &&& self.next <= self.entries@.len()
        &&& self.state is Read ==> self.state->Read_0.wf() && self.state->Read_0.buffer_size
            == self.buffer_size
        &&& self.state is Padding ==> self.state->Padding_0.index <= 2
    }

    pub fn new(entries: Vec<TarEntry>, buffer_size: usize) -> (r: TarStream)
        ensures
            r.wf(),
            r.state is Init,
            r.entries@ == entries@,
            r.next == 0,
            r.buffer_size == normalized_buffer(buffer_size as nat),
    {
        let pages: usize = buffer_size / BLOCK;
        proof {
            assert(pages * 512 <= buffer_size && (pages * 512) % 512 == 0) by (nonlinear_arith)
                requires
                    pages == buffer_size / 512,
            ;
        }
        let buffer_size: usize = if pages == 0 {
            BLOCK
        } else {
            pages * BLOCK
        };
        TarStream { state: TarState::init(), buffer_size, entries, next: 0 }
    }
}

/// `n` zero bytes.
pub open spec fn zeros(n: nat) -> Seq<u8> {
    Seq::new(n, |i: int| 0u8)
}

/// A `Read` state that has just allocated a fresh chunk for `left` bytes.
pub open spec fn fresh_read(s: TarState, buffer: usize, left: u64, completed: u64) -> bool {
    &&& s is Read
    &&& s->Read_0.buffer_size == buffer
    &&& s->Read_0.left == left
    &&& s->Read_0.completed == completed
    &&& s->Read_0.offset == 0
    &&& s->Read_0.chunk.bytes() == zeros(chunk_size(left as nat, buffer as nat))
}

/// What the `Read` state `s` does on `event`: it returns `r` and moves to `next`.
pub open spec fn read_step(s: TarStateRead, event: TarEvent, r: TarAction, next: TarState) -> bool {
    match event {
        TarEvent::Failed(e) => r == TarAction::Fail(TarError::IOFailed(e)) && next is Completed,
        TarEvent::Read(bytes) => {
            let n = bytes@.len();
            if n > s.wanted_spec() {
                r is Fail && r->Fail_0 is MemoryAccess && next is Completed
            } else if n == 0 && s.wanted_spec() > 0 {
                r is Fail && r->Fail_0 is IOFailed && next is Completed
            } else {
                let filled = place(s.chunk.bytes(), s.offset as int, bytes@);
                let left = (s.left - n) as u64;
                let offset = s.offset + n;
                if left == 0 {
                    r is Emit && r->Emit_0 is Data && r->Emit_0.bytes() == filled && next is Init
                } else if offset == filled.len() {
                    &&& r is Emit
                    &&& r->Emit_0 is Data
                    &&& r->Emit_0.bytes() == filled
                    &&& fresh_read(next, s.buffer_size, left, (s.completed + n) as u64)
                } else {
                    &&& r is Read
                    &&& r->Read_0 == (if (left as nat) < filled.len() - offset {
                        left as nat
                    } else {
                        (filled.len() - offset) as nat
                    })
                    &&& next is Read
                    &&& next->Read_0.buffer_size == s.buffer_size
                    &&& next->Read_0.left == left
                    &&& next->Read_0.completed == s.completed + n
                    &&& next->Read_0.offset == offset
                    &&& next->Read_0.chunk.bytes() == filled
                }
            }
        },
        _ => if s.left == 0 {
            r is Emit && r->Emit_0 is Data && r->Emit_0.bytes() == s.chunk.bytes() && next is Init
        } else {
            &&& r == TarAction::Read(s.wanted_spec() as usize)
            &&& next is Read
            &&& next->Read_0.buffer_size == s.buffer_size
            &&& next->Read_0.left == s.left
            &&& next->Read_0.completed == s.completed
            &&& next->Read_0.offset == s.offset
            &&& next->Read_0.chunk.bytes() == s.chunk.bytes()
        },
    }
}

/// What one poll of the stream `o` on `event` does: it returns `r` and leaves `f`.
pub open spec fn poll_step(o: TarStream, event: TarEvent, r: TarAction, f: TarStream) -> bool {
    match o.state {
        TarState::Init(_) => if o.next < o.entries@.len() {
            let path = o.entries@[o.next as int]->File_0;
            &&& f.next == o.next + 1
            &&& r is Open
            &&& r->Open_0@ == path@
            &&& f.state is Open
            &&& f.state->Open_0.path@ == path@
        } else {
            &&& f.next == o.next
            &&& r == TarAction::Emit(TarChunk::Padding(0))
            &&& f.state is Padding
            &&& f.state->Padding_0.index == 1
        },
        TarState::Open(s) => f.next == o.next && match event {
            TarEvent::Opened => r is Stat && f.state is Header && f.state->Header_0.path@ == s.path@,
            TarEvent::Failed(e) => r == TarAction::Fail(TarError::IOFailed(e)) && f.state is Completed,
            _ => r is Open && r->Open_0@ == s.path@ && f.state is Open && f.state->Open_0.path@ == s.path@,
        },
        TarState::Header(s) => f.next == o.next && match event {
            TarEvent::Metadata(m) => {
                &&& r is Emit
                &&& r->Emit_0 is Header
                &&& r->Emit_0->Header_0@ == s.path@
                &&& r->Emit_0.bytes() == ustar_header(encode_utf8(s.path@), m)
                &&& fresh_read(f.state, o.buffer_size, m.size, 0)
            },
            TarEvent::Failed(e) => r == TarAction::Fail(TarError::IOFailed(e)) && f.state is Completed,
            _ => r is Stat && f.state is Header && f.state->Header_0.path@ == s.path@,
        },
        TarState::Read(s) => f.next == o.next && read_step(s, event, r, f.state),
        TarState::Padding(p) => f.next == o.next && if p.index <= 1 {
            r == TarAction::Emit(TarChunk::Padding(p.index)) && f.state is Padding
                && f.state->Padding_0.index == p.index + 1
        } else {
            r is End && f.state is Completed
        },
        TarState::Completed(_) => f.next == o.next && r is End && f.state is Completed,
    }
}

impl TarStream {
    /// Advances the writer by one step on what the caller reports.
    pub fn poll_next(&mut self, event: TarEvent) -> (r: TarAction)
        requires
            old(self).wf(),
        ensures
            final(self).wf(),
            final(self).buffer_size == old(self).buffer_size,
            final(self).entries@ == old(self).entries@,
            poll_step(*old(self), event, r, *final(self)),
    {
        let mut state = TarState::completed();
        core::mem::swap(&mut state, &mut self.state);
        match state {
            TarState::Init(_) => {
                if self.next < self.entries.len() {
                    let path: String = match &self.entries[self.next] {
                        TarEntry::File(path) => path.clone(),
                    };
                    self.next = self.next + 1;
                    let request: String = path.clone();
                    self.state = TarState::open(TarEntry::File(path));
                    TarAction::Open(request)
                } else {
                    self.state = TarState::Padding(TarStatePadding::new().next());
                    TarAction::Emit(TarChunk::padding(0))
                }
            },
            TarState::Open(s) => match event {
                TarEvent::Opened => {
                    self.state = TarState::Header(TarStateHeader { path: s.path });
                    TarAction::Stat
                },
                TarEvent::Failed(e) => TarAction::Fail(TarError::IOFailed(e)),
                _ => {
                    let request: String = s.path.clone();
                    self.state = TarState::Open(s);
                    TarAction::Open(request)
                },
            },
            TarState::Header(s) => match event {
                TarEvent::Metadata(m) => {
                    match TarHeader::empty(s.path).write(&m) {
                        Ok(chunk) => {
                            self.state = TarState::read(self.buffer_size, m.size);
                            TarAction::Emit(chunk)
                        },
                        Err(e) => TarAction::Fail(e),
                    }
                },
                TarEvent::Failed(e) => TarAction::Fail(TarError::IOFailed(e)),
                _ => {
                    self.state = TarState::Header(s);
                    TarAction::Stat
                },
            },
            TarState::Read(s) => self.read(s, event),
            TarState::Padding(p) => {
                if p.index <= 1 {
                    let index: usize = p.index;
                    self.state = TarState::Padding(p.next());
                    TarAction::Emit(TarChunk::padding(index))
                } else {
                    TarAction::End
                }
            },
            TarState::Completed(_) => TarAction::End,
        }
    }

    fn read(&mut self, s: TarStateRead, event: TarEvent) -> (r: TarAction)
        requires
            old(self).state is Completed,
            s.wf(),
            s.buffer_size == old(self).buffer_size,
            valid_buffer(old(self).buffer_size as nat),
        ensures
            final(self).buffer_size == old(self).buffer_size,
            final(self).entries == old(self).entries,
            final(self).next == old(self).next,
            final(self).state is Read ==> final(self).state->Read_0.wf(),
            !(final(self).state is Padding),
            read_step(s, event, r, final(self).state),
    {
        match event {
            TarEvent::Failed(e) => TarAction::Fail(TarError::IOFailed(e)),
            TarEvent::Read(bytes) => {
                let wanted: usize = s.wanted();
                if bytes.len() > wanted {
                    TarAction::Fail(TarError::memory_access("Read brought more than was asked for"))
                } else if bytes.len() == 0 && wanted > 0 {
                    TarAction::Fail(TarError::IOFailed(unexpected_eof()))
                } else {
                    let TarStateRead { buffer_size, left, completed, chunk, offset } = s;
                    let mut chunk = chunk;
                    match chunk.fill(offset, bytes.as_slice()) {
                        Ok(()) => {},
                        Err(e) => return TarAction::Fail(e),
                    }
                    let n: usize = bytes.len();
                    let left: u64 = left - n as u64;
                    let completed: u64 = completed + n as u64;
                    let offset: usize = offset + n;
                    if left == 0 {
                        self.state = TarState::init();
                        TarAction::Emit(chunk)
                    } else if offset == chunk.len() {
                        let fresh = Self::allocate_read(buffer_size, left, completed);
                        self.state = TarState::Read(fresh);
                        TarAction::Emit(chunk)
                    } else {
                        let next = TarStateRead { buffer_size, left, completed, chunk, offset };
                        let w: usize = next.wanted();
                        self.state = TarState::Read(next);
                        TarAction::Read(w)
                    }
                }
            },
            _ => {
                if s.left == 0 {
                    self.state = TarState::init();
                    TarAction::Emit(s.chunk)
                } else {
                    let w: usize = s.wanted();
                    self.state = TarState::Read(s);
                    TarAction::Read(w)
                }
            },
        }
    }

    fn allocate_read(buffer_size: usize, left: u64, completed: u64) -> (r: TarStateRead)
        requires
            valid_buffer(buffer_size as nat),
            completed + left <= u64::MAX,
        ensures
            r.wf(),
            fresh_read(TarState::Read(r), buffer_size, left, completed),
    {
        let chunk = TarStateRead::allocate(buffer_size, left);
        TarStateRead { buffer_size, left, completed, chunk, offset: 0 }
    }
}

impl TarArchive {
    /// The lazy stream that writes this archive with chunks of at most
    /// `buffer_size` bytes (rounded down to a multiple of 512, at least 512).
    pub fn into_stream(self, buffer_size: usize) -> (r: TarStream)
        ensures
            r.wf(),
            r.state is Init,
            r.entries@ == self.entries@,
            r.next == 0,
            r.buffer_size == normalized_buffer(buffer_size as nat),
    {
        TarStream::new(self.entries, buffer_size)
    }
}

/// The data chunks that the writer emits for a file follow the plan of
/// [`data_chunk_sizes`]: each emitted chunk is the head of the plan for the
/// bytes not yet emitted, and the rest of the plan is that of the next state.
pub proof fn lemma_read_follows_plan(s: TarStateRead, event: TarEvent, r: TarAction, next: TarState)
    requires
        s.wf(),
        read_step(s, event, r, next),
        r is Emit,
    ensures
        next is Init ==> data_chunk_sizes((s.left + s.offset) as nat, s.buffer_size as nat) == seq![
            r->Emit_0.bytes().len(),
        ],
        next is Read ==> data_chunk_sizes((s.left + s.offset) as nat, s.buffer_size as nat) == seq![
            r->Emit_0.bytes().len(),
        ] + data_chunk_sizes((next->Read_0.left + next->Read_0.offset) as nat, s.buffer_size as nat),
{
    let total = (s.left + s.offset) as nat;
    let c = chunk_size(total, s.buffer_size as nat);
    assert(s.chunk.bytes().len() == c);
}

/// Once every entry is written, the archive ends with two 512-byte zero
/// blocks and then nothing more, whatever the caller reports.
pub proof fn lemma_archive_end(
    s0: TarStream,
    e1: TarEvent,
    r1: TarAction,
    s1: TarStream,
    e2: TarEvent,
    r2: TarAction,
    s2: TarStream,
    e3: TarEvent,
    r3: TarAction,
    s3: TarStream,
    e4: TarEvent,
    r4: TarAction,
    s4: TarStream,
)
    requires
        s0.state is Init,
        s0.next == s0.entries@.len(),
        poll_step(s0, e1, r1, s1),
        poll_step(s1, e2, r2, s2),
        poll_step(s2, e3, r3, s3),
        poll_step(s3, e4, r4, s4),
    ensures
        r1 is Emit && r1->Emit_0.bytes() == zeros(BLOCK as nat),
        r2 is Emit && r2->Emit_0.bytes() == zeros(BLOCK as nat),
        r3 is End,
        r4 is End,
        s4.state is Completed,
{
}

} // verus!
