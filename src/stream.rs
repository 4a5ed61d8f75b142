//! The decoder scaffold shared by the engine's streamed bodies: it buffers
//! the body's data frames, lets a codec take items out, and queues them for
//! the consumer.
use vstd::prelude::*;

use crate::buffer::DockerStreamBuffer;
use crate::codec::{
    classify, extract_records, log_extract, log_items, pull_extract, ContainerLogsStreamHandler,
    ImageCreateStreamItem, ImageCreateStreamLine,
};
use crate::error::{DockerError, DockerResult};

verus! {

/// A framing codec: takes the items that are complete from the front of a buffer.
pub trait DockerStreamHandler {
    type Item;

    /// Whether the codec can run.
    spec fn ready(&self) -> bool;

    /// `items` are what the codec takes out of `before`, leaving `after`.
    spec fn extracted(&self, before: Seq<u8>, items: Seq<DockerResult<Self::Item>>, after: Seq<u8>) -> bool;

    fn extract(&self, buffer: &mut DockerStreamBuffer) -> (r: Vec<DockerResult<Self::Item>>)
        requires
            self.ready(),
            old(buffer).wf(),
        ensures
            final(buffer).wf(),
            self.extracted(old(buffer)@, r@, final(buffer)@),
    ;
}

impl DockerStreamHandler for ContainerLogsStreamHandler {
    type Item = String;

    open spec fn ready(&self) -> bool {
        true
    }

    open spec fn extracted(&self, before: Seq<u8>, items: Seq<DockerResult<String>>, after: Seq<u8>) -> bool {
        &&& log_items(items, log_extract(before).0)
        &&& after == before.skip(log_extract(before).1 as int)
    }

    fn extract(&self, buffer: &mut DockerStreamBuffer) -> (r: Vec<DockerResult<String>>) {
        ContainerLogsStreamHandler::extract(self, buffer)
    }
}

/// The decoder of the image-pull progress stream: it frames records, hands
/// each to `parse` to be decoded, and classifies what comes back.
pub struct ImageCreateStreamHandler<F> {
    pub parse: F,
}

impl<F: Fn(Vec<u8>) -> DockerResult<ImageCreateStreamItem>> ImageCreateStreamHandler<F> {
    pub fn new(parse: F) -> (r: ImageCreateStreamHandler<F>)
        ensures
            r.parse == parse,
    {
        ImageCreateStreamHandler { parse }
    }
}

impl<F: Fn(Vec<u8>) -> DockerResult<ImageCreateStreamItem>> DockerStreamHandler for ImageCreateStreamHandler<
    F,
> {
    type Item = ImageCreateStreamLine;

    open spec fn ready(&self) -> bool {
        forall|record: Vec<u8>| call_requires(self.parse, (record,))
    }

    open spec fn extracted(
        &self,
        before: Seq<u8>,
        items: Seq<DockerResult<ImageCreateStreamLine>>,
        after: Seq<u8>,
    ) -> bool {
        &&& items.len() == pull_extract(before).0.len()
        &&& forall|k: int|
            0 <= k < items.len() ==> #[trigger] parsed_from(self.parse, pull_extract(before).0[k], items[k])
        &&& after == before.skip(pull_extract(before).1 as int)
    }

    fn extract(&self, buffer: &mut DockerStreamBuffer) -> (r: Vec<DockerResult<ImageCreateStreamLine>>) {
        let ghost before = buffer@;
        let records: Vec<Vec<u8>> = extract_records(buffer);
        let ghost all = records@;
        let mut result: Vec<DockerResult<ImageCreateStreamLine>> = Vec::new();
        let mut records = records;
        while records.len() > 0
            invariant
                self.ready(),
                all.len() == pull_extract(before).0.len(),
                forall|k: int| 0 <= k < all.len() ==> #[trigger] all[k]@ == pull_extract(before).0[k],
                result@.len() + records@.len() == all.len(),
                records@ == all.skip(result@.len() as int),
                forall|k: int|
                    0 <= k < result@.len() ==> #[trigger] parsed_from(self.parse, pull_extract(before).0[k], result@[k]),
            decreases records@.len(),
        {
            let ghost k = result@.len() as int;
            let record: Vec<u8> = records.remove(0);
            assert(record == all[k]);
            let item = (self.parse)(record);
            let line = ImageCreateStreamLine::from(item);
            assert(parsed_from(self.parse, pull_extract(before).0[k], line));
            result.push(line);
            assert(records@ =~= all.skip(result@.len() as int));
        }
        result
    }
}

/// The classified outcome of a decoded pull record.
pub open spec fn classified(item: DockerResult<ImageCreateStreamItem>) -> DockerResult<ImageCreateStreamLine> {
    match item {
        Ok(i) => Ok(classify(i)),
        Err(e) => Err(e),
    }
}

/// `line` is the classification of what `parse` returns for `record`.
pub open spec fn parsed_from<F: Fn(Vec<u8>) -> DockerResult<ImageCreateStreamItem>>(
    parse: F,
    record: Seq<u8>,
    line: DockerResult<ImageCreateStreamLine>,
) -> bool {
    exists|v: Vec<u8>, item: DockerResult<ImageCreateStreamItem>|
        v@ == record && call_ensures(parse, (v,), item) && line == classified(item)
}

/// The items of `batch` up to and including its first error.
pub open spec fn upto_error<T>(batch: Seq<DockerResult<T>>) -> Seq<DockerResult<T>>
    decreases batch.len(),
{
    if batch.len() == 0 {
        batch
    } else if batch[0] is Err {
        seq![batch[0]]
    } else {
        seq![batch[0]] + upto_error(batch.drop_first())
    }
}

/// `r` is the front of `queue`, if any, and `rest` what stays queued.
pub open spec fn handed_out<T>(queue: Seq<T>, r: Option<T>, rest: Seq<T>) -> bool {
    if queue.len() == 0 {
        r is None && rest == queue
    } else {
        r == Some(queue[0]) && rest == queue.drop_first()
    }
}

/// Whether `batch` holds an error.
pub open spec fn has_error<T>(batch: Seq<DockerResult<T>>) -> bool {
    exists|k: int| 0 <= k < batch.len() && (#[trigger] batch[k]) is Err
}

/// A frame of a streamed response body, as the transport delivered it.
pub enum BodyFrame {
    /// A data frame and its payload.
    Data(Vec<u8>),
    /// A frame that carries no data, such as trailers.
    Unrecognized,
    /// The transport failed to deliver a frame.
    Failed(hyper::Error),
}

/// How the connection driver task of a response ended.
pub enum DriverOutcome {
    Finished,
    Failed(hyper::Error),
    Panicked(tokio::task::JoinError),
}

/// The decoding state of one streamed response body.
pub struct DockerStream<H: DockerStreamHandler> {
    pub handler: H,
    pub url: String,
    /// The bytes not decoded yet; `None` once the stream is broken.
    pub buffer: Option<DockerStreamBuffer>,
    /// Items decoded and not yet handed out, in order.
    pub prefetched: std::collections::VecDeque<DockerResult<H::Item>>,
}

/// Room that a stream buffer starts with.
pub const STREAM_BUFFER: usize = 65536;

impl<H: DockerStreamHandler> DockerStream<H> {
    pub open spec fn wf(&self) -> bool {
        &&& self.handler.ready()
        &&& self.buffer is Some ==> self.buffer->Some_0.wf()
    }

    pub fn from(handler: H, url: String) -> (r: DockerStream<H>)
        requires
            handler.ready(),
        ensures
            r.wf(),
            r.handler == handler,
            r.url == url,
            r.buffer is Some,
            r.buffer->Some_0@ == Seq::<u8>::empty(),
            r.prefetched@ == Seq::<DockerResult<H::Item>>::empty(),
    {
        DockerStream {
            handler,
            url,
            buffer: Some(DockerStreamBuffer::with_capacity(STREAM_BUFFER)),
            prefetched: std::collections::VecDeque::new(),
        }
    }

    pub fn is_broken(&self) -> (r: bool)
        ensures
            r == self.buffer is None,
    {
        self.buffer.is_none()
    }

    /// Queues an error and marks the stream broken.
    pub fn fail(&mut self, value: DockerError)
        requires
            old(self).wf(),
        ensures
            final(self).wf(),
            final(self).buffer is None,
            final(self).prefetched@ == old(self).prefetched@.push(Err(value)),
            final(self).handler == old(self).handler,
            final(self).url == old(self).url,
    {
        self.prefetched.push_back(Err(value));
        self.buffer = None;
    }

    /// Adds a data frame's payload and queues what the codec takes out, up to
    /// and including the first error, which marks the stream broken. A broken
    /// stream takes no more data.
    pub fn append(&mut self, data: &[u8])
        requires
            old(self).wf(),
            old(self).buffer is Some ==> old(self).buffer->Some_0@.len() + data@.len() <= usize::MAX,
        ensures
            final(self).wf(),
            final(self).handler == old(self).handler,
            final(self).url == old(self).url,
            old(self).buffer is None ==> final(self).buffer is None && final(self).prefetched@ == old(
                self,
            ).prefetched@,
            old(self).buffer is Some ==> exists|batch: Seq<DockerResult<H::Item>>, after: Seq<u8>|
                {
                    &&& old(self).handler.extracted(old(self).buffer->Some_0@ + data@, batch, after)
                    &&& final(self).prefetched@ == old(self).prefetched@ + upto_error(batch)
                    &&& has_error(batch) ==> final(self).buffer is None
                    &&& !has_error(batch) ==> final(self).buffer is Some && final(self).buffer->Some_0@
                        == after
                },
    {
        let mut taken: Option<DockerStreamBuffer> = None;
        core::mem::swap(&mut taken, &mut self.buffer);
        let mut buffer = match taken {
            None => return ,
            Some(buffer) => buffer,
        };
        buffer.append(data);
        let ghost before = buffer@;
        let items: Vec<DockerResult<H::Item>> = self.handler.extract(&mut buffer);
        let ghost batch = items@;
        let ghost start = self.prefetched@;
        let mut items = items;
        let mut broken: bool = false;
        let ghost mut index: int = 0;
        while !broken && items.len() > 0
            invariant
                self.wf(),
                self.buffer is None,
                self.handler == old(self).handler,
                self.url == old(self).url,
                0 <= index <= batch.len(),
                items@ == batch.skip(index),
                !broken ==> self.prefetched@ + upto_error(items@) == start + upto_error(batch),
                !broken ==> forall|k: int| 0 <= k < index ==> (#[trigger] batch[k]) is Ok,
                broken ==> self.prefetched@ == start + upto_error(batch) && has_error(batch),
            decreases items@.len() + if broken { 0int } else { 1int },
        {
            let item = items.remove(0);
            proof {
                assert(items@ == batch.skip(index + 1));
                assert(batch[index] == item);
            }
            if item.is_err() {
                broken = true;
            }
            self.prefetched.push_back(item);
            proof {
                let rest = batch.skip(index);
                assert(rest.drop_first() =~= items@);
                if broken {
                    assert(upto_error(rest) == seq![item]);
                    assert(batch[index] is Err);
                } else {
                    assert(upto_error(rest) == seq![item] + upto_error(items@));
                    assert(self.prefetched@ + upto_error(items@) =~= start + upto_error(batch));
                }
                index = index + 1;
            }
        }
        proof {
            if !broken {
                assert(items@.len() == 0);
                assert(upto_error(items@) =~= Seq::<DockerResult<H::Item>>::empty());
                assert(self.prefetched@ =~= start + upto_error(batch));
                assert(index == batch.len());
                assert(!has_error(batch));
            }
        }
        if !broken {
            self.buffer = Some(buffer);
        }
    }

    /// Handles one frame of the body, and hands out the next queued item if
    /// there is one.
    pub fn handle_frame(&mut self, frame: BodyFrame) -> (r: Option<DockerResult<H::Item>>)
        requires
            old(self).wf(),
            frame is Data && old(self).buffer is Some ==> old(self).buffer->Some_0@.len()
                + frame->Data_0@.len() <= usize::MAX,
        ensures
            final(self).wf(),
            final(self).handler == old(self).handler,
            final(self).url == old(self).url,
            frame is Unrecognized ==> final(self).buffer is None && handed_out(
                old(self).prefetched@.push(Err(DockerError::HttpFrameUnrecognized(old(self).url))),
                r,
                final(self).prefetched@,
            ),
            frame is Failed ==> final(self).buffer is None && handed_out(
                old(self).prefetched@.push(Err(DockerError::HttpFrameFailed(old(self).url, frame->Failed_0))),
                r,
                final(self).prefetched@,
            ),
            frame is Data && old(self).buffer is None ==> final(self).buffer is None && handed_out(
                old(self).prefetched@,
                r,
                final(self).prefetched@,
            ),
            frame is Data && old(self).buffer is Some ==> exists|
                batch: Seq<DockerResult<H::Item>>,
                after: Seq<u8>,
            |
                {
                    &&& old(self).handler.extracted(old(self).buffer->Some_0@ + frame->Data_0@, batch, after)
                    &&& handed_out(old(self).prefetched@ + upto_error(batch), r, final(self).prefetched@)
                    &&& has_error(batch) ==> final(self).buffer is None
                    &&& !has_error(batch) ==> final(self).buffer is Some && final(self).buffer->Some_0@
                        == after
                },
    {
        match frame {
            BodyFrame::Data(data) => self.append(data.as_slice()),
            BodyFrame::Unrecognized => {
                let url: String = self.url.clone();
                self.fail(DockerError::HttpFrameUnrecognized(url));
            },
            BodyFrame::Failed(error) => {
                let url: String = self.url.clone();
                self.fail(DockerError::HttpFrameFailed(url, error));
            },
        }
        self.prefetched.pop_front()
    }

    /// Once the body has ended: records how the connection driver ended, and
    /// hands out the next queued item; `None` ends the stream.
    pub fn handle_connection_cleanup(&mut self, driver: DriverOutcome) -> (r: Option<DockerResult<H::Item>>)
        requires
            old(self).wf(),
        ensures
            final(self).wf(),
            final(self).handler == old(self).handler,
            final(self).url == old(self).url,
            driver is Finished ==> final(self).buffer == old(self).buffer && handed_out(
                old(self).prefetched@,
                r,
                final(self).prefetched@,
            ),
            driver is Failed ==> final(self).buffer is None && handed_out(
                old(self).prefetched@.push(Err(DockerError::ConnectionFailed(old(self).url, driver->Failed_0))),
                r,
                final(self).prefetched@,
            ),
            driver is Panicked ==> final(self).buffer is None && handed_out(
                old(self).prefetched@.push(Err(DockerError::JoinFailed(old(self).url, driver->Panicked_0))),
                r,
                final(self).prefetched@,
            ),
    {
        match driver {
            DriverOutcome::Finished => {},
            DriverOutcome::Failed(error) => {
                let url: String = self.url.clone();
                self.fail(DockerError::ConnectionFailed(url, error));
            },
            DriverOutcome::Panicked(error) => {
                let url: String = self.url.clone();
                self.fail(DockerError::JoinFailed(url, error));
            },
        }
        self.prefetched.pop_front()
    }

    /// Hands out the next queued item, if any.
    pub fn next_prefetched(&mut self) -> (r: Option<DockerResult<H::Item>>)
        requires
            old(self).wf(),
        ensures
            final(self).wf(),
            final(self).handler == old(self).handler,
            final(self).url == old(self).url,
            final(self).buffer == old(self).buffer,
            old(self).prefetched@.len() == 0 ==> r is None && final(self).prefetched@ == old(self).prefetched@,
            old(self).prefetched@.len() > 0 ==> r == Some(old(self).prefetched@[0]) && final(self).prefetched@
                == old(self).prefetched@.drop_first(),
    {
        self.prefetched.pop_front()
    }
}

} // verus!
