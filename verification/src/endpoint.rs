//! The endpoint side of stream and tag operations: which call a send or a
//! receive hands to UCX, and what the operation finally returns.

use vstd::prelude::*;
use crate::param::{RequestCallback, RequestParam};
use crate::status::Error;

verus! {

/// A connection to a remote worker: the address of its UCX handle, and the
/// error that the connection failed with, once it has failed.
#[derive(Debug, Clone, Copy, PartialEq, Eq, Structural)]
pub struct Endpoint {
    pub handle: usize,
    pub failure: Option<Error>,
}

/// The arguments of a stream send or receive on an endpoint, besides the
/// buffer: the endpoint's handle and the request parameters.
#[derive(Debug, Clone, Copy, PartialEq, Eq, Structural)]
pub struct StreamCall {
    pub handle: usize,
    pub param: RequestParam,
}

/// The arguments of a tagged send on an endpoint, besides the buffer.
#[derive(Debug, Clone, Copy, PartialEq, Eq, Structural)]
pub struct TagSendCall {
    pub handle: usize,
    pub tag: u64,
    pub param: RequestParam,
}

/// The parameters of a send: completion through the send callback.
pub open spec fn send_param() -> RequestParam {
    RequestParam::empty().with_callback(RequestCallback::Send)
}

/// The parameters of a stream receive: completion through the stream
/// receive callback.
pub open spec fn stream_recv_param() -> RequestParam {
    RequestParam::empty().with_callback(RequestCallback::StreamRecv)
}

/// The parameters of a vectored send: the send callback, and a buffer that
/// is a vector of slices.
pub open spec fn send_vectored_param() -> RequestParam {
    RequestParam::empty().with_callback(RequestCallback::Send).with_iov()
}

impl Endpoint {
    /// The handle to use, or the error that the endpoint failed with.
    pub open spec fn handle_result(self) -> Result<usize, Error> {
        match self.failure {
            Some(e) => Err(e),
            None => Ok(self.handle),
        }
    }

    /// The stream call to make on this endpoint with parameters `param`.
    pub open spec fn stream_call(self, param: RequestParam) -> Result<StreamCall, Error> {
        match self.handle_result() {
            Ok(h) => Ok(StreamCall { handle: h, param }),
            Err(e) => Err(e),
        }
    }

    /// The tagged send call to make on this endpoint.
    pub open spec fn tag_call(self, tag: u64, param: RequestParam) -> Result<TagSendCall, Error> {
        match self.handle_result() {
            Ok(h) => Ok(TagSendCall { handle: h, tag, param }),
            Err(e) => Err(e),
        }
    }

    /// An endpoint for a freshly connected UCX handle.
    pub fn new(handle: usize) -> (ep: Endpoint)
        ensures
            ep.handle == handle,
            ep.failure is None,
    {
        Endpoint { handle, failure: None }
    }

    /// Records that the connection failed with `e`; later operations on the
    /// endpoint fail with it.
    pub fn mark_failed(&mut self, e: Error)
        ensures
            final(self).handle == old(self).handle,
            final(self).failure == Some(e),
    {
        self.failure = Some(e);
    }

    /// The handle of the endpoint, or the error it failed with.
    pub fn get_handle(&self) -> (r: Result<usize, Error>)
        ensures
            r == self.handle_result(),
    {
        match self.failure {
            Some(e) => Err(e),
            None => Ok(self.handle),
        }
    }

    /// The call that sends a buffer through the stream of this endpoint.
    pub fn stream_send_call(&self) -> (r: Result<StreamCall, Error>)
        ensures
            r == self.stream_call(send_param()),
    {
        let handle = self.get_handle()?;
        Ok(StreamCall { handle, param: RequestParam::new().cb_send() })
    }

    /// The call that receives into a buffer from the stream of this endpoint.
    pub fn stream_recv_call(&self) -> (r: Result<StreamCall, Error>)
        ensures
            r == self.stream_call(stream_recv_param()),
    {
        let handle = self.get_handle()?;
        Ok(StreamCall { handle, param: RequestParam::new().cb_stream_recv() })
    }

    /// The call that sends a buffer as a message with `tag`.
    pub fn tag_send_call(&self, tag: u64) -> (r: Result<TagSendCall, Error>)
        ensures
            r == self.tag_call(tag, send_param()),
    {
        let handle = self.get_handle()?;
        Ok(TagSendCall { handle, tag, param: RequestParam::new().cb_send() })
    }

    /// The call that sends a vector of buffers as one message with `tag`.
    pub fn tag_send_vectored_call(&self, tag: u64) -> (r: Result<TagSendCall, Error>)
        ensures
            r == self.tag_call(tag, send_vectored_param()),
    {
        let handle = self.get_handle()?;
        Ok(TagSendCall { handle, tag, param: RequestParam::new().cb_send().iov() })
    }
}

/// What a send returns once it has completed with `r`: the number of bytes
/// sent, which is the whole length of what was handed to it.
pub fn send_result(r: Result<(), Error>, len: usize) -> (out: Result<usize, Error>)
    ensures
        out == (match r {
            Ok(()) => Ok::<usize, Error>(len),
            Err(e) => Err(e),
        }),
{
    match r {
        Ok(()) => Ok(len),
        Err(e) => Err(e),
    }
}

/// The sum of a sequence of lengths.
pub open spec fn total_len(lens: Seq<usize>) -> nat
    decreases lens.len(),
{
    if lens.len() == 0 {
        0
    } else {
        total_len(lens.drop_last()) + (lens.last() as nat)
    }
}

/// The total length is the plain sum of the lengths: nothing for no
/// buffers, and one more buffer adds exactly its length, whatever came
/// before it.
pub proof fn lemma_total_len_sum(lens: Seq<usize>, x: usize)
    ensures
        total_len(Seq::<usize>::empty()) == 0,
        total_len(lens.push(x)) == total_len(lens) + x,
        total_len(seq![x]) == x,
{
    assert(lens.push(x).drop_last() == lens);
    assert(seq![x].drop_last() == Seq::<usize>::empty());
}

/// A call on an endpoint is made exactly when the endpoint has not failed,
/// and then on its handle with the given parameters (and tag); otherwise
/// the call is refused with the error the endpoint failed with.
pub proof fn lemma_calls_follow_endpoint(ep: Endpoint, param: RequestParam, tag: u64)
    ensures
        ep.stream_call(param) is Ok <==> ep.failure is None,
        ep.tag_call(tag, param) is Ok <==> ep.failure is None,
        ep.failure is None ==> ep.stream_call(param) == Ok::<StreamCall, Error>(
            StreamCall { handle: ep.handle, param },
        ),
        ep.failure is None ==> ep.tag_call(tag, param) == Ok::<TagSendCall, Error>(
            TagSendCall { handle: ep.handle, tag, param },
        ),
        ep.failure matches Some(e) ==> ep.stream_call(param) == Err::<StreamCall, Error>(e)
            && ep.tag_call(tag, param) == Err::<TagSendCall, Error>(e),
{
}

/// A send and a vectored send complete through the send callback and fill
/// no other field, except that a vectored send gives its buffer as a vector
/// of slices; a stream receive completes through the stream receive
/// callback and fills no other field.
pub proof fn lemma_endpoint_params()
    ensures
        send_param().callback == Some(RequestCallback::Send),
        send_param().op_attr_mask == crate::param::UCP_OP_ATTR_FIELD_CALLBACK,
        send_param().datatype == 0 && send_param().flags == 0 && !send_param().recv_tag_info,
        stream_recv_param().callback == Some(RequestCallback::StreamRecv),
        stream_recv_param().op_attr_mask == crate::param::UCP_OP_ATTR_FIELD_CALLBACK,
        stream_recv_param().datatype == 0 && stream_recv_param().flags == 0
            && !stream_recv_param().recv_tag_info,
        send_vectored_param().callback == Some(RequestCallback::Send),
        send_vectored_param().op_attr_mask == crate::param::UCP_OP_ATTR_FIELD_CALLBACK
            | crate::param::UCP_OP_ATTR_FIELD_DATATYPE,
        send_vectored_param().datatype == crate::param::UCP_DATATYPE_IOV,
        send_vectored_param().flags == 0 && !send_vectored_param().recv_tag_info,
{
    assert(0u32 | 2u32 == 2u32) by (bit_vector);
}

proof fn lemma_total_len_prefix(lens: Seq<usize>, i: int)
    requires
        0 <= i <= lens.len(),
    ensures
        total_len(lens.take(i)) <= total_len(lens),
    decreases lens.len(),
{
    if i < lens.len() {
        assert(lens.drop_last().take(i) == lens.take(i));
        lemma_total_len_prefix(lens.drop_last(), i);
    } else {
        assert(lens.take(i) == lens);
    }
}

/// The total length of a vector of buffers, given the length of each.
pub fn iov_total_len(lens: &[usize]) -> (total: usize)
    requires
        total_len(lens@) <= usize::MAX,
    ensures
        total == total_len(lens@),
{
    let mut total: usize = 0;
    let mut i: usize = 0;
    while i < lens.len()
        invariant
            i <= lens.len(),
            total == total_len(lens@.take(i as int)),
            total_len(lens@) <= usize::MAX,
        decreases lens.len() - i,
    {
        proof {
            assert(lens@.take(i + 1).drop_last() == lens@.take(i as int));
            lemma_total_len_prefix(lens@, i + 1);
        }
        total = total + lens[i];
        i = i + 1;
    }
    assert(lens@.take(lens.len() as int) == lens@);
    total
}

} // verus!
