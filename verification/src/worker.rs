//! The worker side of tag operations, and the decisions that the worker's
//! UCX calls come back to.

use vstd::prelude::*;
use crate::param::{RequestCallback, RequestParam};
use crate::status::{Error, Status, TagRecvInfo, error_of, status_of, UCS_OK, UCS_ERR_BUSY};

verus! {

/// A UCX worker, by the address of its UCX handle.
#[derive(Debug, Clone, Copy, PartialEq, Eq, Structural)]
pub struct Worker {
    pub handle: usize,
}

/// The arguments of a tag receive on a worker, besides the buffer: a message
/// is taken when its tag agrees with `tag` on every bit set in `tag_mask`.
#[derive(Debug, Clone, Copy, PartialEq, Eq, Structural)]
pub struct TagRecvCall {
    pub handle: usize,
    pub tag: u64,
    pub tag_mask: u64,
    pub param: RequestParam,
}

/// The parameters of a tag receive: the tag receive callback, and the
/// caller's slot for the information about the received message.
pub open spec fn tag_recv_param() -> RequestParam {
    RequestParam::empty().with_callback(RequestCallback::TagRecv).with_recv_tag_info()
}

/// The parameters of a vectored tag receive: the tag receive callback, the
/// caller's slot for the information about the received message, and a
/// buffer that is a vector of slices.
pub open spec fn tag_recv_vectored_param() -> RequestParam {
    RequestParam::empty().with_callback(RequestCallback::TagRecv).with_recv_tag_info().with_iov()
}

/// A tag receive completes through the tag receive callback and has the
/// information about the message stored in the caller's slot; a vectored
/// tag receive does the same with its buffer given as a vector of slices.
/// Neither sets flags.
pub proof fn lemma_worker_params()
    ensures
        tag_recv_param().callback == Some(RequestCallback::TagRecv),
        tag_recv_param().recv_tag_info,
        tag_recv_param().op_attr_mask == crate::param::UCP_OP_ATTR_FIELD_CALLBACK
            | crate::param::UCP_OP_ATTR_FIELD_RECV_INFO,
        tag_recv_param().datatype == 0 && tag_recv_param().flags == 0,
        tag_recv_vectored_param().callback == Some(RequestCallback::TagRecv),
        tag_recv_vectored_param().recv_tag_info,
        tag_recv_vectored_param().op_attr_mask == (crate::param::UCP_OP_ATTR_FIELD_CALLBACK
            | crate::param::UCP_OP_ATTR_FIELD_RECV_INFO) | crate::param::UCP_OP_ATTR_FIELD_DATATYPE,
        tag_recv_vectored_param().datatype == crate::param::UCP_DATATYPE_IOV,
        tag_recv_vectored_param().flags == 0,
{
    assert(0u32 | 2u32 == 2u32) by (bit_vector);
}

impl Worker {
    /// The call that receives a message whose tag agrees with `tag` on the
    /// bits of `tag_mask`.
    pub fn tag_recv_mask_call(&self, tag: u64, tag_mask: u64) -> (c: TagRecvCall)
        ensures
            c == (TagRecvCall { handle: self.handle, tag, tag_mask, param: tag_recv_param() }),
    {
        TagRecvCall {
            handle: self.handle,
            tag,
            tag_mask,
            param: RequestParam::new().cb_tag_recv().recv_tag_info(),
        }
    }

    /// The call that receives a message with exactly `tag`: the mask call
    /// with every bit of the tag significant.
    pub fn tag_recv_call(&self, tag: u64) -> (c: TagRecvCall)
        ensures
            c == (TagRecvCall { handle: self.handle, tag, tag_mask: u64::MAX, param: tag_recv_param() }),
    {
        self.tag_recv_mask_call(tag, u64::MAX)
    }

    /// The call that receives a message with exactly `tag` into a vector of
    /// buffers.
    pub fn tag_recv_vectored_call(&self, tag: u64) -> (c: TagRecvCall)
        ensures
            c == (TagRecvCall {
                handle: self.handle,
                tag,
                tag_mask: u64::MAX,
                param: tag_recv_vectored_param(),
            }),
    {
        TagRecvCall {
            handle: self.handle,
            tag,
            tag_mask: u64::MAX,
            param: RequestParam::new().cb_tag_recv().recv_tag_info().iov(),
        }
    }

    /// What a vectored tag receive started with: `ptr` is the status
    /// pointer that the call returned and `info` what it filled in for a
    /// receive that completed at once.  A request is scheduled; otherwise
    /// the receive completed, with the length of the message or the error
    /// that the pointer holds.
    pub fn tag_recv_vectored_status(ptr: usize, info: TagRecvInfo) -> (s: Status<usize>)
        ensures
            s == status_of(ptr, info.length),
            ptr == 0 ==> s == Status::Completed(Ok::<usize, Error>(info.length)),
    {
        Status::from(ptr, info.length)
    }

    /// Whether the worker is still to be polled: as long as anyone besides
    /// the poller holds it, given how many hold it.
    pub fn keeps_polling(holders: usize) -> (r: bool)
        ensures
            r == (holders > 1),
    {
        holders > 1
    }

    /// What arming the worker for event notification returned, given the
    /// status of the call: `true` when the caller may sleep until an event,
    /// `false` when events are already pending, an error otherwise.
    pub fn arm_result(status: i8) -> (r: Result<bool, Error>)
        ensures
            r == (if status == UCS_OK {
                Ok::<bool, Error>(true)
            } else if status == UCS_ERR_BUSY {
                Ok(false)
            } else {
                Err(error_of(status))
            }),
    {
        if status == UCS_OK {
            Ok(true)
        } else if status == UCS_ERR_BUSY {
            Ok(false)
        } else {
            Err(Error::from_error(status))
        }
    }
}

/// What the polling loop of a worker has just learnt: it is at the top of
/// the loop, or the last progress call completed this many operations.
#[derive(Debug, Clone, Copy, PartialEq, Eq, Structural)]
pub enum PollingEvent {
    Start,
    Progressed(u32),
}

/// What the polling loop does next.
#[derive(Debug, Clone, Copy, PartialEq, Eq, Structural)]
pub enum PollingAction {
    Progress,
    Yield,
    Stop,
}

/// What the event-driven polling loop of a worker has just learnt: it is at
/// the top of the loop (or was woken by the event descriptor), the last
/// progress call completed this many operations, or arming returned this.
#[derive(Debug, Clone, Copy, PartialEq, Eq, Structural)]
pub enum EventPollEvent {
    Start,
    Progressed(u32),
    Armed(bool),
}

/// What the event-driven polling loop does next.
#[derive(Debug, Clone, Copy, PartialEq, Eq, Structural)]
pub enum EventPollAction {
    Progress,
    Arm,
    WaitReadable,
    Stop,
}

impl Worker {
    /// One step of polling a worker held by `holders` owners: at the top of
    /// the loop, progress while anyone besides the poller holds it, else
    /// stop; after a progress call that completed something, progress
    /// again; after one that completed nothing, yield to other tasks.
    pub fn polling_step(holders: usize, event: PollingEvent) -> (a: PollingAction)
        ensures
            a == (match event {
                PollingEvent::Start => if holders > 1 { PollingAction::Progress } else { PollingAction::Stop },
                PollingEvent::Progressed(n) => if n != 0 { PollingAction::Progress } else { PollingAction::Yield },
            }),
    {
        match event {
            PollingEvent::Start => if Worker::keeps_polling(holders) {
                PollingAction::Progress
            } else {
                PollingAction::Stop
            },
            PollingEvent::Progressed(n) => if n != 0 {
                PollingAction::Progress
            } else {
                PollingAction::Yield
            },
        }
    }

    /// One step of event-driven polling: as `polling_step`, except that
    /// when a progress call completed nothing the worker is armed, and when
    /// arming says the caller may sleep it waits for the event descriptor;
    /// when events are already pending it goes back to the top of the loop.
    pub fn event_poll_step(holders: usize, event: EventPollEvent) -> (a: EventPollAction)
        ensures
            a == (match event {
                EventPollEvent::Start | EventPollEvent::Armed(false) => if holders > 1 {
                    EventPollAction::Progress
                } else {
                    EventPollAction::Stop
                },
                EventPollEvent::Progressed(n) => if n != 0 {
                    EventPollAction::Progress
                } else {
                    EventPollAction::Arm
                },
                EventPollEvent::Armed(true) => EventPollAction::WaitReadable,
            }),
    {
        match event {
            EventPollEvent::Start | EventPollEvent::Armed(false) => if Worker::keeps_polling(holders) {
                EventPollAction::Progress
            } else {
                EventPollAction::Stop
            },
            EventPollEvent::Progressed(n) => if n != 0 {
                EventPollAction::Progress
            } else {
                EventPollAction::Arm
            },
            EventPollEvent::Armed(true) => EventPollAction::WaitReadable,
        }
    }
}

/// What a masked tag receive returns once it has completed with `r`: the
/// tag that the sender used and the length of the message.
pub fn tag_recv_mask_result(r: Result<TagRecvInfo, Error>) -> (out: Result<(u64, usize), Error>)
    ensures
        out == (match r {
            Ok(info) => Ok::<(u64, usize), Error>((info.sender_tag, info.length)),
            Err(e) => Err(e),
        }),
{
    match r {
        Ok(info) => Ok((info.sender_tag, info.length)),
        Err(e) => Err(e),
    }
}

/// What a tag receive returns once it has completed with `r`: the length of
/// the message.
pub fn tag_recv_result(r: Result<TagRecvInfo, Error>) -> (out: Result<usize, Error>)
    ensures
        out == (match r {
            Ok(info) => Ok::<usize, Error>(info.length),
            Err(e) => Err(e),
        }),
{
    match tag_recv_mask_result(r) {
        Ok(pair) => Ok(pair.1),
        Err(e) => Err(e),
    }
}

} // verus!
