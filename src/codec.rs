//! The framing codecs of the engine's streamed bodies: the multiplexed log
//! stream and the newline-delimited image-pull records.
use vstd::prelude::*;
use vstd::utf8::{decode_utf8, encode_utf8, encode_utf8_decode_utf8, encode_utf8_valid_utf8, valid_utf8};

use crate::buffer::DockerStreamBuffer;
use crate::error::{DockerError, DockerResult};

verus! {

/// The number that four bytes spell, most significant first.
pub open spec fn be_u32(b0: u8, b1: u8, b2: u8, b3: u8) -> nat {
    (b0 as nat) * 16777216 + (b1 as nat) * 65536 + (b2 as nat) * 256 + (b3 as nat)
}

/// The items that a log extraction yields from `b`, and how many bytes of `b`
/// it consumes. Each complete frame (an 8-byte header whose last four bytes
/// give the payload size, then the payload) becomes its payload's text, or
/// `None` where the payload is not UTF-8; extraction stops after such a frame,
/// and before an incomplete one.
pub open spec fn log_extract(b: Seq<u8>) -> (Seq<Option<Seq<char>>>, nat)
    decreases b.len(),
{
    if b.len() < 8 {
        (Seq::empty(), 0)
    } else {
        let size = be_u32(b[4], b[5], b[6], b[7]);
        if b.len() < 8 + size {
            (Seq::empty(), 0)
        } else {
            let payload = b.subrange(8, 8 + size as int);
            if !valid_utf8(payload) {
                (seq![None], (8 + size) as nat)
            } else {
                let rest = log_extract(b.skip(8 + size as int));
                (seq![Some(decode_utf8(payload))] + rest.0, (8 + size + rest.1) as nat)
            }
        }
    }
}

proof fn lemma_log_extract_len(b: Seq<u8>)
    ensures
        log_extract(b).1 <= b.len(),
    decreases b.len(),
{
    if b.len() >= 8 {
        let n = 8 + be_u32(b[4], b[5], b[6], b[7]);
        if b.len() >= n && valid_utf8(b.subrange(8, n as int)) {
            lemma_log_extract_len(b.skip(n as int));
        }
    }
}

/// Extraction is a left fold: extracting from `a`, then from what it left
/// followed by `b`, yields the items and leaves the bytes that one extraction
/// from `a + b` does, when the first extraction met no payload that is not UTF-8.
pub proof fn lemma_log_extract_fold(a: Seq<u8>, b: Seq<u8>)
    requires
        forall|k: int| 0 <= k < log_extract(a).0.len() ==> (#[trigger] log_extract(a).0[k]) is Some,
    ensures
        log_extract(a).0 + log_extract(a.skip(log_extract(a).1 as int) + b).0 == log_extract(a + b).0,
        (a.skip(log_extract(a).1 as int) + b).skip(log_extract(a.skip(log_extract(a).1 as int) + b).1 as int)
            == (a + b).skip(log_extract(a + b).1 as int),
    decreases a.len(),
{
    let first = log_extract(a);
    let ab = a + b;
    if a.len() < 8 || a.len() < 8 + be_u32(a[4], a[5], a[6], a[7]) {
        assert(first.0 =~= Seq::<Option<Seq<char>>>::empty());
        assert(a.skip(0) + b =~= ab);
        assert(first.0 + log_extract(ab).0 =~= log_extract(ab).0);
    } else {
        let size = be_u32(a[4], a[5], a[6], a[7]);
        let n = 8 + size;
        let payload = a.subrange(8, n as int);
        assert(ab[4] == a[4] && ab[5] == a[5] && ab[6] == a[6] && ab[7] == a[7]);
        assert(ab.subrange(8, n as int) =~= payload);
        if !valid_utf8(payload) {
            assert(first.0[0] is None);
        } else {
            let tail = a.skip(n as int);
            assert(ab.skip(n as int) =~= tail + b);
            let inner = log_extract(tail);
            assert(first.0 == seq![Some(decode_utf8(payload))] + inner.0);
            assert forall|k: int| 0 <= k < inner.0.len() implies (#[trigger] inner.0[k]) is Some by {
                assert(inner.0[k] == first.0[k + 1]);
            }
            lemma_log_extract_fold(tail, b);
            lemma_log_extract_len(tail);
            lemma_log_extract_len(tail + b);
            assert(first.1 == n + inner.1);
            assert(a.skip(first.1 as int) =~= tail.skip(inner.1 as int));
            assert(log_extract(ab).0 == seq![Some(decode_utf8(payload))] + log_extract(tail + b).0);
            assert(first.0 + log_extract(a.skip(first.1 as int) + b).0 =~= log_extract(ab).0);
            let whole = log_extract(tail + b);
            assert(log_extract(ab).1 == n + whole.1);
            assert((tail + b).skip(whole.1 as int) =~= ab.skip(log_extract(ab).1 as int));
        }
    }
}

/// Four bytes that spell `n`, most significant first.
pub open spec fn be_bytes(n: nat) -> Seq<u8> {
    seq![(n / 16777216 % 256) as u8, (n / 65536 % 256) as u8, (n / 256 % 256) as u8, (n % 256) as u8]
}

/// A log frame of `stream` (0 stdin, 1 stdout, 2 stderr) carrying `payload`.
pub open spec fn log_frame(stream: u8, payload: Seq<u8>) -> Seq<u8> {
    seq![stream, 0u8, 0u8, 0u8] + be_bytes(payload.len()) + payload
}

/// The stdout log stream that carries each of `texts` in a frame of its own.
pub open spec fn log_stream(texts: Seq<Seq<char>>) -> Seq<u8>
    decreases texts.len(),
{
    if texts.len() == 0 {
        Seq::empty()
    } else {
        log_frame(1, encode_utf8(texts[0])) + log_stream(texts.drop_first())
    }
}

proof fn lemma_be_bytes(n: nat)
    requires
        n < 4294967296,
    ensures
        be_u32(be_bytes(n)[0], be_bytes(n)[1], be_bytes(n)[2], be_bytes(n)[3]) == n,
{
    let q1 = n / 256;
    let q2 = q1 / 256;
    let q3 = q2 / 256;
    vstd::arithmetic::div_mod::lemma_fundamental_div_mod(n as int, 256);
    vstd::arithmetic::div_mod::lemma_fundamental_div_mod(q1 as int, 256);
    vstd::arithmetic::div_mod::lemma_fundamental_div_mod(q2 as int, 256);
    vstd::arithmetic::div_mod::lemma_div_denominator(n as int, 256, 256);
    vstd::arithmetic::div_mod::lemma_div_denominator(n as int, 65536, 256);
    assert(q3 < 256);
    vstd::arithmetic::div_mod::lemma_small_mod(q3, 256);
}

/// A log stream built from texts decodes back to those texts, in order, and
/// is consumed whole.
pub proof fn lemma_log_round_trip(texts: Seq<Seq<char>>)
    requires
        forall|k: int| 0 <= k < texts.len() ==> (#[trigger] encode_utf8(texts[k])).len() < 4294967296,
    ensures
        log_extract(log_stream(texts)).0 == Seq::new(texts.len(), |k: int| Some(texts[k])),
        log_extract(log_stream(texts)).1 == log_stream(texts).len(),
    decreases texts.len(),
{
    let s = log_stream(texts);
    if texts.len() == 0 {
        assert(log_extract(s).0 =~= Seq::new(texts.len(), |k: int| Some(texts[k])));
    } else {
        let payload = encode_utf8(texts[0]);
        let rest = texts.drop_first();
        assert forall|k: int| 0 <= k < rest.len() implies (#[trigger] encode_utf8(rest[k])).len() < 4294967296 by {
            assert(rest[k] == texts[k + 1]);
        }
        lemma_log_round_trip(rest);
        let n = payload.len();
        assert(encode_utf8(texts[0]).len() < 4294967296);
        lemma_be_bytes(n);
        let frame = log_frame(1, payload);
        assert(s == frame + log_stream(rest));
        assert(s[4] == be_bytes(n)[0] && s[5] == be_bytes(n)[1] && s[6] == be_bytes(n)[2] && s[7] == be_bytes(n)[3]);
        assert(s.subrange(8, 8 + n as int) =~= payload);
        assert(s.skip(8 + n as int) =~= log_stream(rest));
        encode_utf8_valid_utf8(texts[0]);
        encode_utf8_decode_utf8(texts[0]);
        assert(log_extract(s).0 =~= Seq::new(texts.len(), |k: int| Some(texts[k])));
    }
}

/// The decoded items `items` are those that `expected` describes: text for text,
/// a UTF-8 error for `None`.
pub open spec fn log_items(items: Seq<DockerResult<String>>, expected: Seq<Option<Seq<char>>>) -> bool {
    &&& items.len() == expected.len()
    &&& forall|k: int|
        0 <= k < items.len() ==> match #[trigger] expected[k] {
            Some(t) => items[k] is Ok && items[k]->Ok_0@ == t,
            None => items[k] is Err && items[k]->Err_0 is Utf8ParsingFailed,
        }
}

/// Relies on `std::str::from_utf8`: it accepts exactly the valid UTF-8 byte
/// sequences, and the text it returns is the one those bytes encode.
#[verifier::external_body]
fn utf8_text(bytes: &[u8]) -> (r: Result<String, std::str::Utf8Error>)
    ensures
        r is Ok <==> valid_utf8(bytes@),
        r is Ok ==> r->Ok_0@ == decode_utf8(bytes@),
{
    match std::str::from_utf8(bytes) {
        Ok(text) => Ok(text.to_string()),
        Err(error) => Err(error),
    }
}

/// The decoder of the multiplexed stdout/stderr log stream.
#[derive(Debug)]
pub struct ContainerLogsStreamHandler {}

impl ContainerLogsStreamHandler {
    pub fn new() -> (r: ContainerLogsStreamHandler) {
        ContainerLogsStreamHandler {}
    }

    /// Takes every complete frame from the front of `buffer` and decodes its
    /// payload as UTF-8, stopping after the first that is not.
    pub fn extract(&self, buffer: &mut DockerStreamBuffer) -> (r: Vec<DockerResult<String>>)
        requires
            old(buffer).wf(),
        ensures
            final(buffer).wf(),
            log_items(r@, log_extract(old(buffer)@).0),
            final(buffer)@ == old(buffer)@.skip(log_extract(old(buffer)@).1 as int),
    {
        let ghost b = buffer@;
        let ghost full = log_extract(b);
        let ghost mut done: Seq<Option<Seq<char>>> = Seq::empty();
        let mut result: Vec<DockerResult<String>> = Vec::new();
        let mut current: usize = 0;
        let mut stop: bool = false;
        let length: usize = buffer.len();
        let data: &[u8] = buffer.as_bytes();
        assert(b.skip(0) =~= b);
        assert(done + full.0 =~= full.0);
        while !stop
            invariant
                data@ == b,
                length == b.len(),
                current <= length,
                full == log_extract(b),
                log_items(result@, done),
                !stop ==> done + log_extract(b.skip(current as int)).0 == full.0,
                !stop ==> current + log_extract(b.skip(current as int)).1 == full.1,
                stop ==> done == full.0 && current == full.1,
            decreases length - current + if stop { 0int } else { 1int },
        {
            let ghost rest = b.skip(current as int);
            if length - current < 8 {
                assert(done + Seq::<Option<Seq<char>>>::empty() == done);
                stop = true;
            } else {
                let size: usize = ((data[current + 4] as u32) * 16777216 + (data[current + 5] as u32) * 65536
                    + (data[current + 6] as u32) * 256 + (data[current + 7] as u32)) as usize;
                assert(rest[4] == b[current + 4] && rest[5] == b[current + 5] && rest[6] == b[current + 6]
                    && rest[7] == b[current + 7]);
                if length - current - 8 < size {
                    assert(done + Seq::<Option<Seq<char>>>::empty() == done);
                    stop = true;
                } else {
                    let start: usize = current + 8;
                    let end: usize = start + size;
                    let payload: &[u8] = vstd::slice::slice_subrange(data, start, end);
                    assert(rest.subrange(8, 8 + size as int) =~= b.subrange(start as int, end as int));
                    assert(rest.skip(8 + size as int) =~= b.skip(end as int));
                    match utf8_text(payload) {
                        Ok(text) => {
                            result.push(Ok(text));
                            proof {
                                let item = Some(decode_utf8(payload@));
                                assert(log_extract(rest).0 == seq![item] + log_extract(b.skip(end as int)).0);
                                assert(done.push(item) + log_extract(b.skip(end as int)).0 =~= done + log_extract(rest).0);
                                done = done.push(item);
                                assert(log_items(result@, done));
                            }
                            current = end;
                        },
                        Err(error) => {
                            result.push(Err(DockerError::Utf8ParsingFailed(error)));
                            proof {
                                assert(log_extract(rest).0 == seq![None::<Seq<char>>]);
                                done = done.push(None);
                                assert(log_items(result@, done));
                            }
                            current = end;
                            stop = true;
                        },
                    }
                }
            }
        }
        let consumed: usize = current;
        if consumed > 0 {
            buffer.consume(consumed);
        }
        result
    }
}

/// A record without the carriage return that may end it.
pub open spec fn trim_cr(r: Seq<u8>) -> Seq<u8> {
    if r.len() > 0 && r.last() == 13 {
        r.drop_last()
    } else {
        r
    }
}

/// The records that a pull extraction yields from `b`, scanning from `i` with
/// the current record begun at `start`, and the bytes consumed by then. A
/// record ends at a line feed (a carriage return before it is dropped); bytes
/// after the last line feed stay for later.
pub open spec fn pull_scan(b: Seq<u8>, start: int, i: int) -> (Seq<Seq<u8>>, nat)
    decreases b.len() - i,
{
    if i >= b.len() || i < start || start < 0 {
        (Seq::empty(), start as nat)
    } else if b[i] == 10 {
        let rest = pull_scan(b, i + 1, i + 1);
        (seq![trim_cr(b.subrange(start, i))] + rest.0, rest.1)
    } else {
        pull_scan(b, start, i + 1)
    }
}

/// The records that a pull extraction yields from `b`, and the bytes it consumes.
pub open spec fn pull_extract(b: Seq<u8>) -> (Seq<Seq<u8>>, nat) {
    pull_scan(b, 0, 0)
}

/// Whether `b` holds no line feed from `from` up to `to`.
pub open spec fn no_newline(b: Seq<u8>, from: int, to: int) -> bool {
    forall|k: int| from <= k < to ==> #[trigger] b[k] != 10
}

proof fn lemma_pull_scan_rest(a: Seq<u8>, start: int, i: int)
    requires
        0 <= start <= i <= a.len(),
        no_newline(a, start, i),
    ensures
        start <= pull_scan(a, start, i).1 <= a.len(),
        no_newline(a, pull_scan(a, start, i).1 as int, a.len() as int),
    decreases a.len() - i,
{
    if i < a.len() {
        if a[i] == 10 {
            lemma_pull_scan_rest(a, i + 1, i + 1);
        } else {
            lemma_pull_scan_rest(a, start, i + 1);
        }
    }
}

proof fn lemma_pull_scan_extend(a: Seq<u8>, b: Seq<u8>, start: int, i: int)
    requires
        0 <= start <= i <= a.len(),
    ensures
        pull_scan(a + b, start, i).0 == pull_scan(a, start, i).0 + pull_scan(
            a + b,
            pull_scan(a, start, i).1 as int,
            a.len() as int,
        ).0,
        pull_scan(a + b, start, i).1 == pull_scan(a + b, pull_scan(a, start, i).1 as int, a.len() as int).1,
    decreases a.len() - i,
{
    let ab = a + b;
    if i == a.len() {
        assert(pull_scan(a, start, i).0 + pull_scan(ab, start, i).0 =~= pull_scan(ab, start, i).0);
    } else {
        assert(ab[i] == a[i]);
        if a[i] == 10 {
            lemma_pull_scan_extend(a, b, i + 1, i + 1);
            assert(ab.subrange(start, i) =~= a.subrange(start, i));
            let rec = trim_cr(a.subrange(start, i));
            let c = pull_scan(a, i + 1, i + 1).1 as int;
            assert(pull_scan(ab, start, i).0 == seq![rec] + pull_scan(ab, i + 1, i + 1).0);
            assert(pull_scan(a, start, i).0 == seq![rec] + pull_scan(a, i + 1, i + 1).0);
            assert(pull_scan(ab, start, i).0 =~= pull_scan(a, start, i).0 + pull_scan(ab, c, a.len() as int).0);
        } else {
            lemma_pull_scan_extend(a, b, start, i + 1);
        }
    }
}

proof fn lemma_pull_scan_shift(x: Seq<u8>, c: int, s: int, i: int)
    requires
        0 <= c <= s <= i <= x.len(),
    ensures
        pull_scan(x, s, i).0 == pull_scan(x.skip(c), s - c, i - c).0,
        pull_scan(x, s, i).1 == pull_scan(x.skip(c), s - c, i - c).1 + c,
    decreases x.len() - i,
{
    let y = x.skip(c);
    if i < x.len() {
        assert(y[i - c] == x[i]);
        if x[i] == 10 {
            lemma_pull_scan_shift(x, c, i + 1, i + 1);
            assert(x.subrange(s, i) =~= y.subrange(s - c, i - c));
        } else {
            lemma_pull_scan_shift(x, c, s, i + 1);
        }
    }
}

proof fn lemma_pull_scan_skip(y: Seq<u8>, s: int, k: int, j: int)
    requires
        0 <= s <= k <= j <= y.len(),
        no_newline(y, k, j),
    ensures
        pull_scan(y, s, k) == pull_scan(y, s, j),
    decreases j - k,
{
    if k < j {
        lemma_pull_scan_skip(y, s, k + 1, j);
    }
}

/// Extraction is a left fold: extracting records from `a`, then from what it
/// left followed by `b`, yields the records and leaves the bytes that one
/// extraction from `a + b` does.
pub proof fn lemma_pull_extract_fold(a: Seq<u8>, b: Seq<u8>)
    ensures
        pull_extract(a).0 + pull_extract(a.skip(pull_extract(a).1 as int) + b).0 == pull_extract(a + b).0,
        (a.skip(pull_extract(a).1 as int) + b).skip(pull_extract(a.skip(pull_extract(a).1 as int) + b).1 as int)
            == (a + b).skip(pull_extract(a + b).1 as int),
{
    let ab = a + b;
    let c1 = pull_extract(a).1 as int;
    lemma_pull_scan_rest(a, 0, 0);
    lemma_pull_scan_extend(a, b, 0, 0);
    lemma_pull_scan_shift(ab, c1, c1, a.len() as int);
    let y = ab.skip(c1);
    assert(y =~= a.skip(c1) + b);
    assert(no_newline(y, 0, a.len() - c1)) by {
        assert forall|k: int| 0 <= k < a.len() - c1 implies #[trigger] y[k] != 10 by {
            assert(y[k] == a[k + c1]);
        }
    }
    lemma_pull_scan_skip(y, 0, 0, a.len() - c1);
    let c2 = pull_extract(y).1 as int;
    lemma_pull_scan_rest_len(y, 0, 0);
    assert(y.skip(c2) =~= ab.skip(c1 + c2));
}

proof fn lemma_pull_scan_rest_len(a: Seq<u8>, start: int, i: int)
    requires
        0 <= start <= i <= a.len(),
    ensures
        start <= pull_scan(a, start, i).1 <= a.len(),
    decreases a.len() - i,
{
    if i < a.len() {
        if a[i] == 10 {
            lemma_pull_scan_rest_len(a, i + 1, i + 1);
        } else {
            lemma_pull_scan_rest_len(a, start, i + 1);
        }
    }
}

/// Takes every complete record from the front of `buffer`.
pub fn extract_records(buffer: &mut DockerStreamBuffer) -> (r: Vec<Vec<u8>>)
    requires
        old(buffer).wf(),
    ensures
        final(buffer).wf(),
        r@.len() == pull_extract(old(buffer)@).0.len(),
        forall|k: int| 0 <= k < r@.len() ==> #[trigger] r@[k]@ == pull_extract(old(buffer)@).0[k],
        final(buffer)@ == old(buffer)@.skip(pull_extract(old(buffer)@).1 as int),
{
    let ghost b = buffer@;
    let ghost full = pull_extract(b);
    let ghost mut done: Seq<Seq<u8>> = Seq::empty();
    let mut result: Vec<Vec<u8>> = Vec::new();
    let mut start: usize = 0;
    let mut i: usize = 0;
    let length: usize = buffer.len();
    let data: &[u8] = buffer.as_bytes();
    assert(done + full.0 =~= full.0);
    while i < length
        invariant
            data@ == b,
            length == b.len(),
            start <= i <= length,
            full == pull_extract(b),
            result@.len() == done.len(),
            forall|k: int| 0 <= k < done.len() ==> #[trigger] result@[k]@ == done[k],
            done + pull_scan(b, start as int, i as int).0 == full.0,
            pull_scan(b, start as int, i as int).1 == full.1,
        decreases length - i,
    {
        if data[i] == 10u8 {
            let end: usize = if i > start && data[i - 1] == 13u8 {
                i - 1
            } else {
                i
            };
            let record: Vec<u8> = vstd::slice::slice_to_vec(vstd::slice::slice_subrange(data, start, end));
            proof {
                let rec = trim_cr(b.subrange(start as int, i as int));
                assert(record@ =~= rec);
                assert(done.push(rec) + pull_scan(b, i + 1, i + 1).0 =~= done + pull_scan(b, start as int, i as int).0);
                done = done.push(rec);
            }
            result.push(record);
            start = i + 1;
        }
        i = i + 1;
    }
    assert(done + Seq::<Seq<u8>>::empty() =~= done);
    if start > 0 {
        buffer.consume(start);
    }
    result
}

/// `progressDetail` of a pull record.
#[derive(Debug)]
pub struct ImageCreateStreamProgress {
    pub current: Option<u64>,
    pub total: Option<u64>,
}

/// `errorDetail` of a pull record, and the body of an engine error.
#[derive(Debug)]
pub struct ErrorResponse {
    pub message: String,
}

/// One record of the image-pull progress stream, as the engine sends it.
#[derive(Debug)]
pub struct ImageCreateStreamItem {
    pub status: Option<String>,
    pub id: Option<String>,
    pub error: Option<String>,
    pub error_detail: Option<ErrorResponse>,
    pub progress: Option<String>,
    pub progress_detail: Option<ImageCreateStreamProgress>,
}

#[derive(Debug)]
pub struct ImageCreateStreamLineStatus {
    pub id: String,
    pub status: String,
}

#[derive(Debug)]
pub struct ImageCreateStreamLineInfo {
    pub status: String,
}

#[derive(Debug)]
pub struct ImageCreateStreamLineProgress {
    pub id: String,
    pub status: String,
    pub info: String,
    pub total: u64,
    pub current: u64,
}

#[derive(Debug)]
pub struct ImageCreateStreamLineError {
    pub message: String,
    pub detail: String,
}

/// A pull record, classified.
#[derive(Debug)]
pub enum ImageCreateStreamLine {
    Status(ImageCreateStreamLineStatus),
    Info(ImageCreateStreamLineInfo),
    Progress(ImageCreateStreamLineProgress),
    Error(ImageCreateStreamLineError),
    Raw(ImageCreateStreamItem),
}

/// Whether a record carries complete progress: id, status, progress text,
/// and both counters.
pub open spec fn has_progress(i: ImageCreateStreamItem) -> bool {
    &&& i.id is Some
    &&& i.status is Some
    &&& i.progress is Some
    &&& i.progress_detail is Some
    &&& i.progress_detail->Some_0.current is Some
    &&& i.progress_detail->Some_0.total is Some
}

/// The class of a pull record: an error when both `error` and `errorDetail`
/// are there; else progress when it is complete; else a status when `id` and
/// `status` are there; else information when `status` is; else the raw record.
pub open spec fn classify(i: ImageCreateStreamItem) -> ImageCreateStreamLine {
    if i.error is Some && i.error_detail is Some {
        ImageCreateStreamLine::Error(
            ImageCreateStreamLineError {
                message: i.error->Some_0,
                detail: i.error_detail->Some_0.message,
            },
        )
    } else if has_progress(i) {
        ImageCreateStreamLine::Progress(
            ImageCreateStreamLineProgress {
                id: i.id->Some_0,
                status: i.status->Some_0,
                info: i.progress->Some_0,
                total: i.progress_detail->Some_0.total->Some_0,
                current: i.progress_detail->Some_0.current->Some_0,
            },
        )
    } else if i.id is Some && i.status is Some {
        ImageCreateStreamLine::Status(
            ImageCreateStreamLineStatus { id: i.id->Some_0, status: i.status->Some_0 },
        )
    } else if i.status is Some {
        ImageCreateStreamLine::Info(ImageCreateStreamLineInfo { status: i.status->Some_0 })
    } else {
        ImageCreateStreamLine::Raw(i)
    }
}

impl ImageCreateStreamLine {
    /// Classifies a decoded pull record; a decoding error passes through.
    pub fn from(item: DockerResult<ImageCreateStreamItem>) -> (r: DockerResult<ImageCreateStreamLine>)
        ensures
            item is Err ==> r is Err && r->Err_0 == item->Err_0,
            item is Ok ==> r == Ok::<ImageCreateStreamLine, DockerError>(classify(item->Ok_0)),
    {
        let item = match item {
            Ok(value) => value,
            Err(error) => return Err(error),
        };
        if let (Some(message), Some(detail)) = (&item.error, &item.error_detail) {
            return Ok(
                ImageCreateStreamLine::Error(
                    ImageCreateStreamLineError { message: message.clone(), detail: detail.message.clone() },
                ),
            );
        }
        if let (Some(id), Some(status), Some(progress), Some(detail)) = (
            &item.id,
            &item.status,
            &item.progress,
            &item.progress_detail,
        ) {
            if let (Some(total), Some(current)) = (detail.total, detail.current) {
                return Ok(
                    ImageCreateStreamLine::Progress(
                        ImageCreateStreamLineProgress {
                            id: id.clone(),
                            status: status.clone(),
                            info: progress.clone(),
                            total,
                            current,
                        },
                    ),
                );
            }
        }
        if let (Some(id), Some(status)) = (&item.id, &item.status) {
            return Ok(
                ImageCreateStreamLine::Status(
                    ImageCreateStreamLineStatus { id: id.clone(), status: status.clone() },
                ),
            );
        }
        if let Some(status) = &item.status {
            return Ok(ImageCreateStreamLine::Info(ImageCreateStreamLineInfo { status: status.clone() }));
        }
        Ok(ImageCreateStreamLine::Raw(item))
    }
}

} // verus!
