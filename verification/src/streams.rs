//! Byte streams over an endpoint's stream or over tagged messages.  Each
//! stream holds at most one outstanding request.  Polling a stream is a
//! step of a state machine: the caller either polls the outstanding request
//! or, when there is none, makes the call that the stream names, and hands
//! what came back to the stream, which decides the outcome and its next
//! state.

use vstd::prelude::*;
use crate::endpoint::{Endpoint, StreamCall, TagSendCall};
use crate::status::{Error, Poll, Status, TagRecvInfo};
use crate::worker::{TagRecvCall, Worker};

verus! {

/// What came back to a writing stream: the poll of its outstanding
/// request, or the start of a new send.
pub enum WriteEvent {
    Polled(Poll<Result<(), Error>>),
    Started(Result<Status<()>, Error>),
}

/// What a writing stream decides: return this outcome, or poll the request
/// that was just scheduled.
#[derive(Debug, PartialEq, Eq)]
pub enum WriteStep {
    Done(Poll<Result<usize, Error>>),
    Again,
}

/// What came back to a reading stream: the poll of its outstanding
/// request, or the start of a new receive, with the length that an
/// immediately completed receive filled in.
pub enum ReadEvent {
    Polled(Poll<Result<usize, Error>>),
    Started(Result<Status<usize>, Error>),
}

/// What came back to a tag reading stream.
pub enum TagReadEvent {
    Polled(Poll<Result<TagRecvInfo, Error>>),
    Started(Result<Status<TagRecvInfo>, Error>),
}

/// What a reading stream decides: return this outcome (where `Ok(n)` means
/// that `n` more bytes of the buffer are filled), or, a request having just
/// been scheduled, ask to be woken and return pending.
#[derive(Debug, PartialEq, Eq)]
pub enum ReadStep {
    Done(Poll<Result<usize, Error>>),
    WakeAndWait,
}

/// What a read returns to its caller once the step is applied to the
/// buffer.
#[derive(Debug, PartialEq, Eq)]
pub enum ReadOutcome {
    Ready(Result<(), Error>),
    Pending,
    WakeAndWait,
}

/// Applies a read step to a buffer with `filled` bytes filled and
/// `remaining` bytes left unfilled: a successful read of `n` bytes fills `n`
/// more; any other step leaves the buffer as it was.  Gives the new filled
/// count and what the read returns.
pub fn fill_buffer(filled: usize, remaining: usize, step: ReadStep) -> (r: (usize, ReadOutcome))
    requires
        filled + remaining <= usize::MAX,
        step matches ReadStep::Done(Poll::Ready(Ok(n))) ==> n <= remaining,
    ensures
        r == (match step {
            ReadStep::Done(Poll::Ready(Ok(n))) => ((filled + n) as usize, ReadOutcome::Ready(Ok(()))),
            ReadStep::Done(Poll::Ready(Err(e))) => (filled, ReadOutcome::Ready(Err(e))),
            ReadStep::Done(Poll::Pending) => (filled, ReadOutcome::Pending),
            ReadStep::WakeAndWait => (filled, ReadOutcome::WakeAndWait),
        }),
        r.0 >= filled,
        r.0 <= filled + remaining,
{
    match step {
        ReadStep::Done(Poll::Ready(Ok(n))) => (filled + n, ReadOutcome::Ready(Ok(()))),
        ReadStep::Done(Poll::Ready(Err(e))) => (filled, ReadOutcome::Ready(Err(e))),
        ReadStep::Done(Poll::Pending) => (filled, ReadOutcome::Pending),
        ReadStep::WakeAndWait => (filled, ReadOutcome::WakeAndWait),
    }
}

impl WriteEvent {
    pub open spec fn is_polled(&self) -> bool {
        self is Polled
    }
}

impl ReadEvent {
    pub open spec fn is_polled(&self) -> bool {
        self is Polled
    }
}

impl TagReadEvent {
    pub open spec fn is_polled(&self) -> bool {
        self is Polled
    }
}

/// The next request slot and step of a writing stream with request slot
/// `request`, on `event`, writing a buffer of `buf_len` bytes.
pub open spec fn write_transition(request: Option<usize>, event: WriteEvent, buf_len: usize) -> (
    Option<usize>,
    WriteStep,
) {
    match event {
        WriteEvent::Polled(Poll::Pending) => (request, WriteStep::Done(Poll::Pending)),
        WriteEvent::Polled(Poll::Ready(Ok(()))) => (None, WriteStep::Done(Poll::Ready(Ok(buf_len)))),
        WriteEvent::Polled(Poll::Ready(Err(e))) => (None, WriteStep::Done(Poll::Ready(Err(e)))),
        WriteEvent::Started(Ok(Status::Completed(Ok(())))) => (
            None,
            WriteStep::Done(Poll::Ready(Ok(buf_len))),
        ),
        WriteEvent::Started(Ok(Status::Completed(Err(e)))) => (
            None,
            WriteStep::Done(Poll::Ready(Err(e))),
        ),
        WriteEvent::Started(Ok(Status::Scheduled(h))) => (Some(h), WriteStep::Again),
        WriteEvent::Started(Err(e)) => (None, WriteStep::Done(Poll::Ready(Err(e)))),
    }
}

/// The next request slot and step of a reading stream.
pub open spec fn read_transition(request: Option<usize>, event: ReadEvent) -> (
    Option<usize>,
    ReadStep,
) {
    match event {
        ReadEvent::Polled(Poll::Pending) => (request, ReadStep::Done(Poll::Pending)),
        ReadEvent::Polled(Poll::Ready(r)) => (None, ReadStep::Done(Poll::Ready(r))),
        ReadEvent::Started(Ok(Status::Completed(r))) => (None, ReadStep::Done(Poll::Ready(r))),
        ReadEvent::Started(Ok(Status::Scheduled(h))) => (Some(h), ReadStep::WakeAndWait),
        ReadEvent::Started(Err(e)) => (None, ReadStep::Done(Poll::Ready(Err(e)))),
    }
}

/// A tag read event seen as a read event: a received message fills as many
/// bytes as its length.
pub open spec fn tag_read_as_read(event: TagReadEvent) -> ReadEvent {
    match event {
        TagReadEvent::Polled(Poll::Pending) => ReadEvent::Polled(Poll::Pending),
        TagReadEvent::Polled(Poll::Ready(Ok(info))) => ReadEvent::Polled(Poll::Ready(Ok(info.length))),
        TagReadEvent::Polled(Poll::Ready(Err(e))) => ReadEvent::Polled(Poll::Ready(Err(e))),
        TagReadEvent::Started(Ok(Status::Completed(Ok(info)))) => ReadEvent::Started(
            Ok(Status::Completed(Ok(info.length))),
        ),
        TagReadEvent::Started(Ok(Status::Completed(Err(e)))) => ReadEvent::Started(
            Ok(Status::Completed(Err(e))),
        ),
        TagReadEvent::Started(Ok(Status::Scheduled(h))) => ReadEvent::Started(
            Ok(Status::Scheduled(h)),
        ),
        TagReadEvent::Started(Err(e)) => ReadEvent::Started(Err(e)),
    }
}

/// A scheduled send stays the stream's one outstanding request across any
/// number of pending polls, and is released exactly when it completes; the
/// write then reports the whole buffer, or the send's error.
pub proof fn lemma_scheduled_write_settles(h: usize, buf_len: usize, r: Result<(), Error>)
    ensures
        write_transition(None, WriteEvent::Started(Ok(Status::Scheduled(h))), buf_len) == (
            Some(h),
            WriteStep::Again,
        ),
        write_transition(Some(h), WriteEvent::Polled(Poll::Pending), buf_len) == (
            Some(h),
            WriteStep::Done(Poll::Pending),
        ),
        write_transition(Some(h), WriteEvent::Polled(Poll::Ready(r)), buf_len) == (
            None::<usize>,
            WriteStep::Done(Poll::Ready(match r {
                Ok(()) => Ok::<usize, Error>(buf_len),
                Err(e) => Err(e),
            })),
        ),
{
}

/// A scheduled receive stays the stream's one outstanding request across
/// any number of pending polls, and is released exactly when it completes,
/// with its result; a tagged receive reports the length of its message.
pub proof fn lemma_scheduled_read_settles(h: usize, r: Result<usize, Error>, info: TagRecvInfo)
    ensures
        read_transition(None, ReadEvent::Started(Ok(Status::Scheduled(h)))) == (
            Some(h),
            ReadStep::WakeAndWait,
        ),
        read_transition(Some(h), ReadEvent::Polled(Poll::Pending)) == (
            Some(h),
            ReadStep::Done(Poll::Pending),
        ),
        read_transition(Some(h), ReadEvent::Polled(Poll::Ready(r))) == (
            None::<usize>,
            ReadStep::Done(Poll::Ready(r)),
        ),
        read_transition(Some(h), tag_read_as_read(TagReadEvent::Polled(Poll::Ready(Ok(info)))))
            == (None::<usize>, ReadStep::Done(Poll::Ready(Ok::<usize, Error>(info.length)))),
{
}

/// A write reports exactly what became of its send: polling a request that
/// is still in progress keeps it and returns pending; a send that completed
/// (at once or when polled) reports the whole buffer if it succeeded and its
/// error if it failed, and leaves no request; a scheduled send becomes the
/// request, to be polled at once.  A write reports bytes written only for a
/// send that succeeded.
pub proof fn lemma_write_reports_send_outcome(request: Option<usize>, event: WriteEvent, buf_len: usize)
    ensures
        ({
            let (next, step) = write_transition(request, event, buf_len);
            &&& event matches WriteEvent::Polled(Poll::Pending) ==> next == request && step
                == WriteStep::Done(Poll::<Result<usize, Error>>::Pending)
            &&& event matches WriteEvent::Polled(Poll::Ready(Ok(()))) ==> next is None && step
                == WriteStep::Done(Poll::Ready(Ok::<usize, Error>(buf_len)))
            &&& event matches WriteEvent::Polled(Poll::Ready(Err(e))) ==> next is None && step
                == WriteStep::Done(Poll::Ready(Err::<usize, Error>(e)))
            &&& event matches WriteEvent::Started(Ok(Status::Completed(Ok(())))) ==> next is None
                && step == WriteStep::Done(Poll::Ready(Ok::<usize, Error>(buf_len)))
            &&& event matches WriteEvent::Started(Ok(Status::Completed(Err(e)))) ==> next is None
                && step == WriteStep::Done(Poll::Ready(Err::<usize, Error>(e)))
            &&& event matches WriteEvent::Started(Ok(Status::Scheduled(h))) ==> next == Some(h)
                && step == WriteStep::Again
            &&& event matches WriteEvent::Started(Err(e)) ==> next is None && step == WriteStep::Done(
                Poll::Ready(Err::<usize, Error>(e)),
            )
            &&& step matches WriteStep::Done(Poll::Ready(Ok(n))) ==> n == buf_len && (event matches WriteEvent::Polled(Poll::Ready(Ok(())))
                || event matches WriteEvent::Started(Ok(Status::Completed(Ok(())))))
        }),
{
}

/// A read reports exactly what became of its receive: polling a request
/// that is still in progress keeps it and returns pending without asking to
/// be woken; a receive that completed (at once or when polled) reports its
/// result, the count of bytes or the error, and leaves no request; a
/// receive that failed to start reports that error; a scheduled receive
/// becomes the request and asks to be woken.  A read reports bytes filled
/// only for a receive that succeeded with that many bytes.
pub proof fn lemma_read_reports_recv_outcome(request: Option<usize>, event: ReadEvent)
    ensures
        ({
            let (next, step) = read_transition(request, event);
            &&& event matches ReadEvent::Polled(Poll::Pending) ==> next == request && step
                == ReadStep::Done(Poll::<Result<usize, Error>>::Pending)
            &&& event matches ReadEvent::Polled(Poll::Ready(r)) ==> next is None && step
                == ReadStep::Done(Poll::Ready(r))
            &&& event matches ReadEvent::Started(Ok(Status::Completed(r))) ==> next is None && step
                == ReadStep::Done(Poll::Ready(r))
            &&& event matches ReadEvent::Started(Ok(Status::Scheduled(h))) ==> next == Some(h)
                && step == ReadStep::WakeAndWait
            &&& event matches ReadEvent::Started(Err(e)) ==> next is None && step == ReadStep::Done(
                Poll::Ready(Err::<usize, Error>(e)),
            )
            &&& step matches ReadStep::Done(Poll::Ready(Ok(n))) ==> (event matches ReadEvent::Polled(Poll::Ready(Ok(m))) && m == n)
                || (event matches ReadEvent::Started(Ok(Status::Completed(Ok(m)))) && m == n)
        }),
{
}

/// A tagged read is a read in which a received message fills exactly as
/// many bytes as its length: a poll that is still in progress stays
/// pending, a received message counts its length, and an error stays that
/// error.  A request still in progress is kept and nothing is filled.
pub proof fn lemma_tag_read_reports_message(request: Option<usize>, event: TagReadEvent)
    ensures
        ({
            let (next, step) = read_transition(request, tag_read_as_read(event));
            &&& event matches TagReadEvent::Polled(Poll::Pending) ==> tag_read_as_read(event)
                == ReadEvent::Polled(Poll::Pending) && next == request && step == ReadStep::Done(
                Poll::<Result<usize, Error>>::Pending,
            )
            &&& event matches TagReadEvent::Polled(Poll::Ready(Ok(info))) ==> next is None && step
                == ReadStep::Done(Poll::Ready(Ok::<usize, Error>(info.length)))
            &&& event matches TagReadEvent::Polled(Poll::Ready(Err(e))) ==> next is None && step
                == ReadStep::Done(Poll::Ready(Err::<usize, Error>(e)))
            &&& event matches TagReadEvent::Started(Ok(Status::Completed(Ok(info)))) ==> next is None
                && step == ReadStep::Done(Poll::Ready(Ok::<usize, Error>(info.length)))
            &&& event matches TagReadEvent::Started(Ok(Status::Completed(Err(e)))) ==> next is None
                && step == ReadStep::Done(Poll::Ready(Err::<usize, Error>(e)))
            &&& event matches TagReadEvent::Started(Ok(Status::Scheduled(h))) ==> next == Some(h)
                && step == ReadStep::WakeAndWait
            &&& event matches TagReadEvent::Started(Err(e)) ==> next is None && step
                == ReadStep::Done(Poll::Ready(Err::<usize, Error>(e)))
        }),
{
}

fn write_step(request: Option<usize>, event: WriteEvent, buf_len: usize) -> (r: (
    Option<usize>,
    WriteStep,
))
    ensures
        r == write_transition(request, event, buf_len),
{
    match event {
        WriteEvent::Polled(Poll::Pending) => (request, WriteStep::Done(Poll::Pending)),
        WriteEvent::Polled(Poll::Ready(r)) => (None, WriteStep::Done(Poll::Ready(crate::endpoint::send_result(r, buf_len)))),
        WriteEvent::Started(Ok(Status::Completed(r))) => (
            None,
            WriteStep::Done(Poll::Ready(crate::endpoint::send_result(r, buf_len))),
        ),
        WriteEvent::Started(Ok(Status::Scheduled(h))) => (Some(h), WriteStep::Again),
        WriteEvent::Started(Err(e)) => (None, WriteStep::Done(Poll::Ready(Err(e)))),
    }
}

fn read_step(request: Option<usize>, event: ReadEvent) -> (r: (Option<usize>, ReadStep))
    ensures
        r == read_transition(request, event),
{
    match event {
        ReadEvent::Polled(Poll::Pending) => (request, ReadStep::Done(Poll::Pending)),
        ReadEvent::Polled(Poll::Ready(r)) => (None, ReadStep::Done(Poll::Ready(r))),
        ReadEvent::Started(Ok(Status::Completed(r))) => (None, ReadStep::Done(Poll::Ready(r))),
        ReadEvent::Started(Ok(Status::Scheduled(h))) => (Some(h), ReadStep::WakeAndWait),
        ReadEvent::Started(Err(e)) => (None, ReadStep::Done(Poll::Ready(Err(e)))),
    }
}

fn tag_info_len(r: Result<TagRecvInfo, Error>) -> (out: Result<usize, Error>)
    ensures
        out == (match r {
            Ok(info) => Ok::<usize, Error>(info.length),
            Err(e) => Err(e),
        }),
{
    match r {
        Ok(info) => Ok(info.length),
        Err(e) => Err(e),
    }
}

fn tag_read_event(event: TagReadEvent) -> (r: ReadEvent)
    ensures
        r == tag_read_as_read(event),
{
    match event {
        TagReadEvent::Polled(Poll::Pending) => ReadEvent::Polled(Poll::Pending),
        TagReadEvent::Polled(Poll::Ready(r)) => ReadEvent::Polled(Poll::Ready(tag_info_len(r))),
        TagReadEvent::Started(Ok(Status::Completed(r))) => ReadEvent::Started(
            Ok(Status::Completed(tag_info_len(r))),
        ),
        TagReadEvent::Started(Ok(Status::Scheduled(h))) => ReadEvent::Started(
            Ok(Status::Scheduled(h)),
        ),
        TagReadEvent::Started(Err(e)) => ReadEvent::Started(Err(e)),
    }
}

/// A stream for writing data to an endpoint's stream.
pub struct WriteStream<'a> {
    endpoint: &'a Endpoint,
    request: Option<usize>,
}

/// A stream for reading data from an endpoint's stream.
pub struct ReadStream<'a> {
    endpoint: &'a Endpoint,
    request: Option<usize>,
}

/// A stream for writing data to an endpoint as messages with one tag.
pub struct TagWriteStream<'a> {
    endpoint: &'a Endpoint,
    tag: u64,
    request: Option<usize>,
}

/// A stream for reading data from a worker as messages with one tag.
pub struct TagReadStream<'a> {
    worker: &'a Worker,
    tag: u64,
    tag_mask: u64,
    request: Option<usize>,
}

impl Endpoint {
    /// Makes a stream that writes to this endpoint's stream, with no
    /// request outstanding.
    pub fn write_stream(&self) -> (s: WriteStream<'_>)
        ensures
            s.endpoint() == *self,
            s.request() is None,
    {
        WriteStream { endpoint: self, request: None }
    }

    /// Makes a stream that reads from this endpoint's stream, with no
    /// request outstanding.
    pub fn read_stream(&self) -> (s: ReadStream<'_>)
        ensures
            s.endpoint() == *self,
            s.request() is None,
    {
        ReadStream { endpoint: self, request: None }
    }

    /// Makes a stream that writes messages with `tag` to this endpoint,
    /// with no request outstanding.
    pub fn tag_write_stream(&self, tag: u64) -> (s: TagWriteStream<'_>)
        ensures
            s.endpoint() == *self,
            s.tag() == tag,
            s.request() is None,
    {
        TagWriteStream { endpoint: self, tag, request: None }
    }
}

impl Worker {
    /// Makes a stream that reads messages with exactly `tag` from this
    /// worker, with no request outstanding.
    pub fn tag_read_stream(&self, tag: u64) -> (s: TagReadStream<'_>)
        ensures
            s.worker() == *self,
            s.tag() == tag,
            s.tag_mask() == u64::MAX,
            s.request() is None,
    {
        TagReadStream { worker: self, tag, tag_mask: u64::MAX, request: None }
    }

    /// Makes a stream that reads messages whose tag agrees with `tag` on the
    /// bits of `tag_mask`, with no request outstanding.  The tag of each
    /// message read is not reported.
    pub fn tag_read_stream_mask(&self, tag: u64, tag_mask: u64) -> (s: TagReadStream<'_>)
        ensures
            s.worker() == *self,
            s.tag() == tag,
            s.tag_mask() == tag_mask,
            s.request() is None,
    {
        TagReadStream { worker: self, tag, tag_mask, request: None }
    }
}

impl<'a> WriteStream<'a> {
    pub closed spec fn endpoint(self) -> Endpoint {
        *self.endpoint
    }

    /// The address of the outstanding send request, if there is one.
    pub closed spec fn request(self) -> Option<usize> {
        self.request
    }

    /// The outstanding request, which the caller polls, if there is one.
    pub fn pending_request(&self) -> (r: Option<usize>)
        ensures
            r == self.request(),
    {
        self.request
    }

    /// The call that starts a new send, when no request is outstanding.
    pub fn send_call(&self) -> (r: Result<StreamCall, Error>)
        ensures
            r == self.endpoint().stream_call(crate::endpoint::send_param()),
    {
        self.endpoint.stream_send_call()
    }

    /// One step of writing a buffer of `buf_len` bytes.  A finished write
    /// reports the whole buffer as written and leaves no request
    /// outstanding; a pending poll changes nothing; a scheduled send
    /// becomes the outstanding request, to be polled at once.
    pub fn poll_write(&mut self, event: WriteEvent, buf_len: usize) -> (step: WriteStep)
        requires
            event.is_polled() <==> old(self).request() is Some,
        ensures
            final(self).endpoint() == old(self).endpoint(),
            (final(self).request(), step) == write_transition(old(self).request(), event, buf_len),
            step matches WriteStep::Done(Poll::Ready(_)) ==> final(self).request() is None,
            step matches WriteStep::Done(Poll::Ready(Ok(n))) ==> n == buf_len,
            step is Again ==> final(self).request() is Some,
    {
        let (request, step) = write_step(self.request, event, buf_len);
        self.request = request;
        step
    }

    /// Flushes the stream: waits for the outstanding request, if there is
    /// one, and reports its result.  `polled` is the poll of that request.
    pub fn poll_flush(&mut self, polled: Option<Poll<Result<(), Error>>>) -> (p: Poll<Result<(), Error>>)
        requires
            polled is Some <==> old(self).request() is Some,
        ensures
            final(self).endpoint() == old(self).endpoint(),
            match polled {
                None => p == Poll::Ready(Ok::<(), Error>(())) && final(self).request() is None,
                Some(Poll::Pending) => p == Poll::<Result<(), Error>>::Pending
                    && final(self).request() == old(self).request(),
                Some(Poll::Ready(r)) => p == Poll::Ready(r) && final(self).request() is None,
            },
    {
        match polled {
            None => Poll::Ready(Ok(())),
            Some(Poll::Pending) => Poll::Pending,
            Some(Poll::Ready(r)) => {
                self.request = None;
                Poll::Ready(r)
            },
        }
    }

    /// Shuts the stream down; there is nothing to release.
    pub fn poll_shutdown(&self) -> (p: Poll<Result<(), Error>>)
        ensures
            p == Poll::Ready(Ok::<(), Error>(())),
    {
        Poll::Ready(Ok(()))
    }
}

impl<'a> ReadStream<'a> {
    pub closed spec fn endpoint(self) -> Endpoint {
        *self.endpoint
    }

    /// The address of the outstanding receive request, if there is one.
    pub closed spec fn request(self) -> Option<usize> {
        self.request
    }

    /// The outstanding request, which the caller polls, if there is one.
    pub fn pending_request(&self) -> (r: Option<usize>)
        ensures
            r == self.request(),
    {
        self.request
    }

    /// The call that starts a new receive, when no request is outstanding.
    pub fn recv_call(&self) -> (r: Result<StreamCall, Error>)
        ensures
            r == self.endpoint().stream_call(crate::endpoint::stream_recv_param()),
    {
        self.endpoint.stream_recv_call()
    }

    /// One step of reading into the unfilled part of a buffer.  A finished
    /// read leaves no request outstanding; a pending poll changes nothing;
    /// a scheduled receive becomes the outstanding request.
    pub fn poll_read(&mut self, event: ReadEvent) -> (step: ReadStep)
        requires
            event.is_polled() <==> old(self).request() is Some,
        ensures
            final(self).endpoint() == old(self).endpoint(),
            (final(self).request(), step) == read_transition(old(self).request(), event),
            step matches ReadStep::Done(Poll::Ready(_)) ==> final(self).request() is None,
            step is WakeAndWait ==> final(self).request() is Some,
    {
        let (request, step) = read_step(self.request, event);
        self.request = request;
        step
    }
}

impl<'a> TagWriteStream<'a> {
    pub closed spec fn endpoint(self) -> Endpoint {
        *self.endpoint
    }

    pub closed spec fn tag(self) -> u64 {
        self.tag
    }

    /// The address of the outstanding send request, if there is one.
    pub closed spec fn request(self) -> Option<usize> {
        self.request
    }

    /// The outstanding request, which the caller polls, if there is one.
    pub fn pending_request(&self) -> (r: Option<usize>)
        ensures
            r == self.request(),
    {
        self.request
    }

    /// The call that sends the next buffer as a message with the stream's
    /// tag, when no request is outstanding.
    pub fn send_call(&self) -> (r: Result<TagSendCall, Error>)
        ensures
            r == self.endpoint().tag_call(self.tag(), crate::endpoint::send_param()),
    {
        self.endpoint.tag_send_call(self.tag)
    }

    /// One step of writing a buffer of `buf_len` bytes as a message, with
    /// the same decisions as a stream write.
    pub fn poll_write(&mut self, event: WriteEvent, buf_len: usize) -> (step: WriteStep)
        requires
            event.is_polled() <==> old(self).request() is Some,
        ensures
            final(self).endpoint() == old(self).endpoint(),
            final(self).tag() == old(self).tag(),
            (final(self).request(), step) == write_transition(old(self).request(), event, buf_len),
            step matches WriteStep::Done(Poll::Ready(_)) ==> final(self).request() is None,
            step matches WriteStep::Done(Poll::Ready(Ok(n))) ==> n == buf_len,
            step is Again ==> final(self).request() is Some,
    {
        let (request, step) = write_step(self.request, event, buf_len);
        self.request = request;
        step
    }

    /// Flushes the stream, which must have no request outstanding: every
    /// write returns only once its message is sent.
    pub fn poll_flush(&self) -> (p: Poll<Result<(), Error>>)
        requires
            self.request() is None,
        ensures
            p == Poll::Ready(Ok::<(), Error>(())),
    {
        Poll::Ready(Ok(()))
    }

    /// Shuts the stream down; there is nothing to release.
    pub fn poll_shutdown(&self) -> (p: Poll<Result<(), Error>>)
        ensures
            p == Poll::Ready(Ok::<(), Error>(())),
    {
        Poll::Ready(Ok(()))
    }
}

impl<'a> TagReadStream<'a> {
    pub closed spec fn worker(self) -> Worker {
        *self.worker
    }

    pub closed spec fn tag(self) -> u64 {
        self.tag
    }

    pub closed spec fn tag_mask(self) -> u64 {
        self.tag_mask
    }

    /// The address of the outstanding receive request, if there is one.
    pub closed spec fn request(self) -> Option<usize> {
        self.request
    }

    /// The outstanding request, which the caller polls, if there is one.
    pub fn pending_request(&self) -> (r: Option<usize>)
        ensures
            r == self.request(),
    {
        self.request
    }

    /// The call that receives the next message with the stream's tag and
    /// mask, when no request is outstanding.
    pub fn recv_call(&self) -> (c: TagRecvCall)
        ensures
            c == (TagRecvCall {
                handle: self.worker().handle,
                tag: self.tag(),
                tag_mask: self.tag_mask(),
                param: crate::worker::tag_recv_param(),
            }),
    {
        self.worker.tag_recv_mask_call(self.tag, self.tag_mask)
    }

    /// One step of reading a message into the unfilled part of a buffer: a
    /// received message fills as many bytes as its length; otherwise the
    /// decisions are those of a stream read.
    pub fn poll_read(&mut self, event: TagReadEvent) -> (step: ReadStep)
        requires
            event.is_polled() <==> old(self).request() is Some,
        ensures
            final(self).worker() == old(self).worker(),
            final(self).tag() == old(self).tag(),
            final(self).tag_mask() == old(self).tag_mask(),
            (final(self).request(), step) == read_transition(
                old(self).request(),
                tag_read_as_read(event),
            ),
            step matches ReadStep::Done(Poll::Ready(_)) ==> final(self).request() is None,
            step is WakeAndWait ==> final(self).request() is Some,
    {
        let (request, step) = read_step(self.request, tag_read_event(event));
        self.request = request;
        step
    }
}

} // verus!
