//! The 512-byte POSIX ustar header of one archive entry.
use vstd::prelude::*;
use vstd::utf8::encode_utf8;

use crate::chunk::TarChunk;
use crate::error::TarError;

verus! {

/// Size of a header, of a padding block and of a data page.
pub const BLOCK: usize = 512;

/// `8` to the power `i`.
pub open spec fn pow8(i: nat) -> nat
    decreases i,
{
    if i == 0 {
        1
    } else {
        8 * pow8((i - 1) as nat)
    }
}

pub proof fn lemma_pow8_positive(i: nat)
    ensures
        pow8(i) > 0,
    decreases i,
{
    if i > 0 {
        lemma_pow8_positive((i - 1) as nat);
    }
}

/// The ASCII octal digit of weight `8^i` in `v`.
pub open spec fn octal_digit(v: nat, i: nat) -> u8 {
    (48 + (v / pow8(i)) % 8) as u8
}

/// A numeric field of `width` bytes: the low `width - 1` octal digits of `v`,
/// most significant first, then a NUL.
pub open spec fn octal_field(v: nat, width: nat) -> Seq<u8> {
    Seq::new(
        width,
        |j: int|
            if j == width - 1 {
                0u8
            } else {
                octal_digit(v, (width - 2 - j) as nat)
            },
    )
}

/// A text field of `width` bytes: the first bytes of `b`, NUL-filled.
pub open spec fn text_field(b: Seq<u8>, width: nat) -> Seq<u8> {
    Seq::new(width, |j: int| if j < b.len() { b[j] } else { 0u8 })
}

/// `h` with the bytes from `offset` on replaced by `f`.
pub open spec fn place(h: Seq<u8>, offset: int, f: Seq<u8>) -> Seq<u8> {
    Seq::new(h.len(), |i: int| if offset <= i < offset + f.len() { f[i - offset] } else { h[i] })
}

/// The unsigned sum of all bytes of `s`.
pub open spec fn byte_sum(s: Seq<u8>) -> nat
    decreases s.len(),
{
    if s.len() == 0 {
        0
    } else {
        byte_sum(s.drop_last()) + s.last() as nat
    }
}

/// Eight ASCII spaces, the checksum field while the checksum is computed.
pub open spec fn blank_checksum() -> Seq<u8> {
    Seq::new(8, |j: int| 32u8)
}

/// The magic of a ustar header: `"ustar  \0"`.
pub open spec fn ustar_magic() -> Seq<u8> {
    seq![117u8, 115u8, 116u8, 97u8, 114u8, 32u8, 32u8, 0u8]
}

/// What the header records of a regular file.
#[derive(Debug, Clone, Copy)]
pub struct TarMetadata {
    /// Unix mode bits; only the permission bits are kept.
    pub mode: u32,
    /// Size in bytes.
    pub size: u64,
    /// Modification time in seconds since the epoch.
    pub mtime: i64,
}

/// The header of a file called `name` with metadata `m`, before the checksum:
/// its checksum field holds eight spaces.
pub open spec fn unsummed_header(name: Seq<u8>, m: TarMetadata) -> Seq<u8> {
    let h = Seq::new(BLOCK as nat, |i: int| 0u8);
    let h = place(h, 0, text_field(name, 99));
    let h = place(h, 100, octal_field((m.mode % 512) as nat, 8));
    let h = place(h, 108, octal_field(0, 8));
    let h = place(h, 116, octal_field(0, 8));
    let h = place(h, 124, octal_field(m.size as nat, 12));
    let h = place(h, 136, octal_field((m.mtime as u64) as nat, 12));
    let h = place(h, 257, ustar_magic());
    let h = place(h, 156, seq![48u8]);
    place(h, 148, blank_checksum())
}

/// The complete header of a file called `name` with metadata `m`.
pub open spec fn ustar_header(name: Seq<u8>, m: TarMetadata) -> Seq<u8> {
    let h = unsummed_header(name, m);
    place(h, 148, octal_field(byte_sum(h), 8))
}

/// A header under construction for the entry at `path`.
pub struct TarHeader {
    pub path: String,
    pub data: Vec<u8>,
}

impl TarHeader {
    pub open spec fn wf(&self) -> bool {
        self.data@.len() == BLOCK
    }

    pub fn empty(path: String) -> (r: TarHeader)
        ensures
            r.wf(),
            r.path@ == path@,
            r.data@ == Seq::new(BLOCK as nat, |i: int| 0u8),
    {
        let data: Vec<u8> = vec![0u8; BLOCK];
        let r = TarHeader { path, data };
        assert(r.data@ =~= Seq::new(BLOCK as nat, |i: int| 0u8));
        r
    }

    /// Checks that `length` bytes from `offset` lie inside the header, and
    /// returns the end of that range.
    fn slice(header: &Vec<u8>, offset: usize, length: usize) -> (r: Result<usize, TarError>)
        ensures
            r is Ok <==> offset + length <= header@.len(),
            r is Ok ==> r->Ok_0 == offset + length,
            r is Err ==> r->Err_0 is MemoryAccess,
    {
        if length > header.len() || offset > header.len() - length {
            Err(TarError::memory_access("Header cannot be sliced"))
        } else {
            Ok(offset + length)
        }
    }

    /// Writes `value` as a right-aligned, NUL-terminated octal field.
    fn write_octal(header: &mut Vec<u8>, offset: usize, length: usize, value: u64) -> (r: Result<(), TarError>)
        requires
            1 <= length,
        ensures
            r is Ok <==> offset + length <= old(header)@.len(),
            r is Ok ==> final(header)@ == place(old(header)@, offset as int, octal_field(value as nat, length as nat)),
            r is Err ==> final(header)@ == old(header)@ && r->Err_0 is MemoryAccess,
    {
        let end = match Self::slice(header, offset, length) {
            Ok(end) => end,
            Err(e) => return Err(e),
        };
        let ghost start = header@;
        let last: usize = end - 1;
        let mut v: u64 = value;
        let mut i: usize = 0;
        assert(pow8(0) == 1);
        while i < length - 1
            invariant
                end == offset + length,
                last == end - 1,
                end <= header@.len(),
                header@.len() == start.len(),
                1 <= length,
                i <= length - 1,
                v as nat == value as nat / pow8(i as nat),
                forall|k: int|
                    0 <= k < header@.len() ==> header@[k] == (if last - i <= k < last {
                        octal_digit(value as nat, (last - 1 - k) as nat)
                    } else {
                        start[k]
                    }),
            decreases length - 1 - i,
        {
            proof {
                lemma_pow8_positive(i as nat);
                vstd::arithmetic::div_mod::lemma_div_denominator(value as int, pow8(i as nat) as int, 8);
                assert(pow8((i + 1) as nat) == 8 * pow8(i as nat));
                assert(pow8(i as nat) * 8 == 8 * pow8(i as nat)) by (nonlinear_arith);
            }
            let digit: u8 = (48 + v % 8) as u8;
            header.set(last - 1 - i, digit);
            v = v / 8;
            i = i + 1;
        }
        header.set(last, 0u8);
        assert(header@ =~= place(start, offset as int, octal_field(value as nat, length as nat)));
        Ok(())
    }

    /// Writes `bytes` as a NUL-filled text field, cut to `length`.
    fn write_bytes(header: &mut Vec<u8>, offset: usize, length: usize, bytes: &[u8]) -> (r: Result<(), TarError>)
        ensures
            r is Ok <==> offset + length <= old(header)@.len(),
            r is Ok ==> final(header)@ == place(old(header)@, offset as int, text_field(bytes@, length as nat)),
            r is Err ==> final(header)@ == old(header)@ && r->Err_0 is MemoryAccess,
    {
        let end = match Self::slice(header, offset, length) {
            Ok(end) => end,
            Err(e) => return Err(e),
        };
        let ghost start = header@;
        let mut i: usize = 0;
        while i < length
            invariant
                end == offset + length,
                offset + length <= header@.len(),
                header@.len() == start.len(),
                i <= length,
                forall|k: int|
                    0 <= k < header@.len() ==> header@[k] == (if offset <= k < offset + i {
                        text_field(bytes@, length as nat)[k - offset]
                    } else {
                        start[k]
                    }),
            decreases length - i,
        {
            let b: u8 = if i < bytes.len() {
                bytes[i]
            } else {
                0u8
            };
            header.set(offset + i, b);
            i = i + 1;
        }
        assert(header@ =~= place(start, offset as int, text_field(bytes@, length as nat)));
        Ok(())
    }

    /// The unsigned sum of all bytes of the header.
    fn calculate_checksum(header: &Vec<u8>) -> (r: u32)
        requires
            header@.len() == BLOCK,
        ensures
            r as nat == byte_sum(header@),
    {
        let mut checksum: u32 = 0;
        let mut i: usize = 0;
        while i < header.len()
            invariant
                header@.len() == BLOCK,
                i <= header@.len(),
                checksum as nat == byte_sum(header@.take(i as int)),
                checksum <= 255 * i,
            decreases header@.len() - i,
        {
            assert(header@.take(i as int + 1).drop_last() =~= header@.take(i as int));
            checksum = checksum + header[i] as u32;
            i = i + 1;
        }
        assert(header@.take(i as int) =~= header@);
        checksum
    }

    /// Fills in every field and the checksum, and turns the header into the
    /// chunk that carries it.
    pub fn write(self, metadata: &TarMetadata) -> (r: Result<TarChunk, TarError>)
        requires
            self.wf(),
            self.data@ == Seq::new(BLOCK as nat, |i: int| 0u8),
        ensures
            r is Ok,
            r->Ok_0 is Header,
            r->Ok_0->Header_0@ == self.path@,
            r->Ok_0.bytes() == ustar_header(encode_utf8(self.path@), *metadata),
    {
        let TarHeader { path, data } = self;
        let mut data = data;
        let ghost h0 = data@;
        let name: &[u8] = path.as_str().as_bytes();
        let r1 = Self::write_bytes(&mut data, 0, 99, name);
        let r2 = Self::write_octal(&mut data, 100, 8, (metadata.mode & 0o777u32) as u64);
        let r3 = Self::write_octal(&mut data, 108, 8, 0);
        let r4 = Self::write_octal(&mut data, 116, 8, 0);
        let r5 = Self::write_octal(&mut data, 124, 12, metadata.size);
        let r6 = Self::write_octal(&mut data, 136, 12, metadata.mtime as u64);
        let magic: Vec<u8> = vec![117u8, 115u8, 116u8, 97u8, 114u8, 32u8, 32u8, 0u8];
        let regular: Vec<u8> = vec![48u8];
        let blank: Vec<u8> = vec![32u8; 8];
        let r7 = Self::write_bytes(&mut data, 257, 8, magic.as_slice());
        let r8 = Self::write_bytes(&mut data, 156, 1, regular.as_slice());
        let r9 = Self::write_bytes(&mut data, 148, 8, blank.as_slice());
        let ghost h9 = data@;
        let sum: u32 = Self::calculate_checksum(&data);
        let r10 = Self::write_octal(&mut data, 148, 8, sum as u64);
        proof {
            let mode = metadata.mode;
            assert(mode & 0o777u32 == mode % 512) by (bit_vector);
            assert(text_field(magic@, 8) =~= ustar_magic());
            assert(text_field(regular@, 1) =~= seq![48u8]);
            assert(text_field(blank@, 8) =~= blank_checksum());
            assert(h9 =~= unsummed_header(encode_utf8(path@), *metadata));
        }
        Ok(TarChunk::header(path, data))
    }
}

/// The number that a string of ASCII octal digits spells, most significant first.
pub open spec fn octal_value(digits: Seq<u8>) -> nat
    decreases digits.len(),
{
    if digits.len() == 0 {
        0
    } else {
        (octal_value(digits.drop_last()) * 8 + (digits.last() - 48)) as nat
    }
}

/// The low `n` octal digits of `v`, most significant first.
pub open spec fn octal_digits(v: nat, n: nat) -> Seq<u8> {
    Seq::new(n, |j: int| octal_digit(v, (n - 1 - j) as nat))
}

proof fn lemma_octal_prefix(v: nat, n: nat, k: nat)
    requires
        k <= n,
        v < pow8(n),
    ensures
        octal_value(octal_digits(v, n).take(k as int)) == v / pow8((n - k) as nat),
    decreases k,
{
    lemma_pow8_positive((n - k) as nat);
    if k == 0 {
        assert(octal_digits(v, n).take(0) =~= Seq::<u8>::empty());
        vstd::arithmetic::div_mod::lemma_basic_div(v as int, pow8(n) as int);
    } else {
        lemma_octal_prefix(v, n, (k - 1) as nat);
        let d = octal_digits(v, n).take(k as int);
        assert(d.drop_last() =~= octal_digits(v, n).take(k - 1));
        let x = v / pow8((n - k) as nat);
        assert(pow8((n - k + 1) as nat) == 8 * pow8((n - k) as nat));
        vstd::arithmetic::div_mod::lemma_div_denominator(v as int, pow8((n - k) as nat) as int, 8);
        assert(pow8((n - k) as nat) * 8 == 8 * pow8((n - k) as nat)) by (nonlinear_arith);
        vstd::arithmetic::div_mod::lemma_fundamental_div_mod(x as int, 8);
        assert(d.last() == octal_digit(v, (n - k) as nat));
    }
}

/// A value below `8^n` rendered as `n` octal digits reads back as itself.
pub proof fn lemma_octal_round_trip(v: nat, n: nat)
    requires
        v < pow8(n),
    ensures
        octal_value(octal_digits(v, n)) == v,
{
    lemma_octal_prefix(v, n, n);
    assert(octal_digits(v, n).take(n as int) =~= octal_digits(v, n));
    assert(pow8((n - n) as nat) == 1);
    assert(v / 1 == v);
}

proof fn lemma_byte_sum_bound(s: Seq<u8>)
    ensures
        byte_sum(s) <= 255 * s.len(),
    decreases s.len(),
{
    if s.len() > 0 {
        lemma_byte_sum_bound(s.drop_last());
    }
}

/// The checksum field of every header holds the unsigned sum of all 512 of
/// its bytes, counted with the checksum field as eight spaces; the sum always
/// fits the field's seven octal digits.
pub proof fn lemma_header_checksum(name: Seq<u8>, m: TarMetadata)
    ensures
        ustar_header(name, m).len() == BLOCK,
        byte_sum(place(ustar_header(name, m), 148, blank_checksum())) < pow8(7),
        octal_value(ustar_header(name, m).subrange(148, 155)) == byte_sum(
            place(ustar_header(name, m), 148, blank_checksum()),
        ),
        ustar_header(name, m)[155] == 0,
        ustar_header(name, m).subrange(148, 156) == octal_field(
            byte_sum(place(ustar_header(name, m), 148, blank_checksum())),
            8,
        ),
{
    let u = unsummed_header(name, m);
    let h = ustar_header(name, m);
    assert(u.len() == BLOCK);
    assert(place(h, 148, blank_checksum()) =~= u);
    assert(h.subrange(148, 156) =~= octal_field(byte_sum(u), 8));
    lemma_byte_sum_bound(u);
    reveal_with_fuel(pow8, 8);
    assert(h.subrange(148, 155) =~= octal_digits(byte_sum(u), 7));
    lemma_octal_round_trip(byte_sum(u), 7);
}

} // verus!
