//! The parameters of a non-blocking UCX operation (`ucp_request_param_t`),
//! built step by step.  Each step selects one field of the parameters by
//! setting its bit in `op_attr_mask` and fills that field.

use vstd::prelude::*;

verus! {

/// `UCP_OP_ATTR_FIELD_CALLBACK`: the callback field is set.
pub const UCP_OP_ATTR_FIELD_CALLBACK: u32 = 2;
/// `UCP_OP_ATTR_FIELD_DATATYPE`: the datatype field is set.
pub const UCP_OP_ATTR_FIELD_DATATYPE: u32 = 8;
/// `UCP_OP_ATTR_FIELD_FLAGS`: the flags field is set.
pub const UCP_OP_ATTR_FIELD_FLAGS: u32 = 16;
/// `UCP_OP_ATTR_FIELD_RECV_INFO`: the receive-information field is set.
pub const UCP_OP_ATTR_FIELD_RECV_INFO: u32 = 128;

/// `UCP_AM_SEND_FLAG_REPLY`: the active message asks for a reply endpoint.
pub const UCP_AM_SEND_FLAG_REPLY: u32 = 1;
/// `UCP_AM_SEND_FLAG_EAGER`: the active message is sent with the eager protocol.
pub const UCP_AM_SEND_FLAG_EAGER: u32 = 2;
/// `UCP_AM_SEND_FLAG_RNDV`: the active message is sent with the rendezvous protocol.
pub const UCP_AM_SEND_FLAG_RNDV: u32 = 4;

/// `UCP_DATATYPE_IOV`: the buffer is a vector of (address, length) pairs.
pub const UCP_DATATYPE_IOV: u64 = 2;

/// Which member of the callback union of the parameters is filled: the
/// completion callback of a send, of a tag receive, of a stream receive, or
/// of an active-message receive.
#[derive(Debug, Clone, Copy, PartialEq, Eq, Structural)]
pub enum RequestCallback {
    Send,
    TagRecv,
    StreamRecv,
    RecvAm,
}

/// The parameters of a non-blocking operation.  `recv_tag_info` says whether
/// the receive-information field points at the caller's slot for the
/// information of a received tagged message.
#[derive(Debug, Clone, Copy, PartialEq, Eq, Structural)]
pub struct RequestParam {
    pub op_attr_mask: u32,
    pub flags: u32,
    pub datatype: u64,
    pub callback: Option<RequestCallback>,
    pub recv_tag_info: bool,
}

impl RequestParam {
    /// Parameters with no field selected, all zero.
    pub open spec fn empty() -> RequestParam {
        RequestParam { op_attr_mask: 0, flags: 0, datatype: 0, callback: None, recv_tag_info: false }
    }

    /// These parameters with the callback field selected and set to `cb`.
    pub open spec fn with_callback(self, cb: RequestCallback) -> RequestParam {
        RequestParam {
            op_attr_mask: self.op_attr_mask | UCP_OP_ATTR_FIELD_CALLBACK,
            callback: Some(cb),
            ..self
        }
    }

    /// These parameters with the receive-information field selected.
    pub open spec fn with_recv_tag_info(self) -> RequestParam {
        RequestParam {
            op_attr_mask: self.op_attr_mask | UCP_OP_ATTR_FIELD_RECV_INFO,
            recv_tag_info: true,
            ..self
        }
    }

    /// These parameters with the datatype field selected and set to IOV.
    pub open spec fn with_iov(self) -> RequestParam {
        RequestParam {
            op_attr_mask: self.op_attr_mask | UCP_OP_ATTR_FIELD_DATATYPE,
            datatype: UCP_DATATYPE_IOV,
            ..self
        }
    }

    /// These parameters with the flags field selected and `flag` added to it.
    pub open spec fn with_flag(self, flag: u32) -> RequestParam {
        RequestParam {
            op_attr_mask: self.op_attr_mask | UCP_OP_ATTR_FIELD_FLAGS,
            flags: self.flags | flag,
            ..self
        }
    }

    /// Creates parameters with every field zero and none selected.
    pub fn new() -> (p: RequestParam)
        ensures
            p == RequestParam::empty(),
    {
        RequestParam { op_attr_mask: 0, flags: 0, datatype: 0, callback: None, recv_tag_info: false }
    }

    fn set_callback(self, cb: RequestCallback) -> (p: RequestParam)
        ensures
            p == self.with_callback(cb),
    {
        RequestParam {
            op_attr_mask: self.op_attr_mask | UCP_OP_ATTR_FIELD_CALLBACK,
            callback: Some(cb),
            ..self
        }
    }

    /// Selects the callback field and sets it to the send completion callback.
    pub fn cb_send(self) -> (p: RequestParam)
        ensures
            p == self.with_callback(RequestCallback::Send),
    {
        self.set_callback(RequestCallback::Send)
    }

    /// Selects the callback field and sets it to the tag receive completion callback.
    pub fn cb_tag_recv(self) -> (p: RequestParam)
        ensures
            p == self.with_callback(RequestCallback::TagRecv),
    {
        self.set_callback(RequestCallback::TagRecv)
    }

    /// Selects the callback field and sets it to the stream receive completion callback.
    pub fn cb_stream_recv(self) -> (p: RequestParam)
        ensures
            p == self.with_callback(RequestCallback::StreamRecv),
    {
        self.set_callback(RequestCallback::StreamRecv)
    }

    /// Selects the callback field and sets it to the active-message receive callback.
    pub fn cb_recv_am(self) -> (p: RequestParam)
        ensures
            p == self.with_callback(RequestCallback::RecvAm),
    {
        self.set_callback(RequestCallback::RecvAm)
    }

    /// Selects the receive-information field, to be pointed at the caller's
    /// slot for the information of a received tagged message.
    pub fn recv_tag_info(self) -> (p: RequestParam)
        ensures
            p == self.with_recv_tag_info(),
    {
        RequestParam {
            op_attr_mask: self.op_attr_mask | UCP_OP_ATTR_FIELD_RECV_INFO,
            recv_tag_info: true,
            ..self
        }
    }

    /// Selects the datatype field and sets it to IOV.
    pub fn iov(self) -> (p: RequestParam)
        ensures
            p == self.with_iov(),
    {
        RequestParam {
            op_attr_mask: self.op_attr_mask | UCP_OP_ATTR_FIELD_DATATYPE,
            datatype: UCP_DATATYPE_IOV,
            ..self
        }
    }

    fn set_flag(&mut self)
        ensures
            final(self).op_attr_mask == old(self).op_attr_mask | UCP_OP_ATTR_FIELD_FLAGS,
            final(self).flags == old(self).flags,
            final(self).datatype == old(self).datatype,
            final(self).callback == old(self).callback,
            final(self).recv_tag_info == old(self).recv_tag_info,
    {
        self.op_attr_mask = self.op_attr_mask | UCP_OP_ATTR_FIELD_FLAGS;
    }

    fn add_flag(self, flag: u32) -> (p: RequestParam)
        ensures
            p == self.with_flag(flag),
    {
        let mut p = self;
        p.set_flag();
        p.flags = p.flags | flag;
        p
    }

    /// Selects the flags field and adds the eager-protocol flag.
    pub fn set_flag_eager(self) -> (p: RequestParam)
        ensures
            p == self.with_flag(UCP_AM_SEND_FLAG_EAGER),
    {
        self.add_flag(UCP_AM_SEND_FLAG_EAGER)
    }

    /// Selects the flags field and adds the rendezvous-protocol flag.
    pub fn set_flag_rndv(self) -> (p: RequestParam)
        ensures
            p == self.with_flag(UCP_AM_SEND_FLAG_RNDV),
    {
        self.add_flag(UCP_AM_SEND_FLAG_RNDV)
    }

    /// Selects the flags field and adds the reply flag.
    pub fn set_flag_reply(self) -> (p: RequestParam)
        ensures
            p == self.with_flag(UCP_AM_SEND_FLAG_REPLY),
    {
        self.add_flag(UCP_AM_SEND_FLAG_REPLY)
    }
}

proof fn lemma_or_facts(m: u32, a: u32, b: u32)
    ensures
        (m | a) | a == m | a,
        (m | a) | b == (m | b) | a,
        (m | a) & m == m,
        (m | a) & a == a,
{
    assert((m | a) | a == m | a) by (bit_vector);
    assert((m | a) | b == (m | b) | a) by (bit_vector);
    assert((m | a) & m == m) by (bit_vector);
    assert((m | a) & a == a) by (bit_vector);
}

/// Each step fills its own field and leaves every other field as it was:
/// choosing a callback sets it, selecting receive information marks it,
/// selecting IOV sets the datatype, and adding a flag adds it to the flags.
/// Parameters made afresh have no field selected.
pub proof fn lemma_steps_fill_their_field(p: RequestParam, cb: RequestCallback, flag: u32)
    ensures
        RequestParam::empty().op_attr_mask == 0 && RequestParam::empty().flags == 0
            && RequestParam::empty().datatype == 0 && RequestParam::empty().callback is None
            && !RequestParam::empty().recv_tag_info,
        p.with_callback(cb).op_attr_mask == p.op_attr_mask | UCP_OP_ATTR_FIELD_CALLBACK,
        p.with_callback(cb).callback == Some(cb),
        p.with_callback(cb).flags == p.flags && p.with_callback(cb).datatype == p.datatype
            && p.with_callback(cb).recv_tag_info == p.recv_tag_info,
        p.with_recv_tag_info().op_attr_mask == p.op_attr_mask | UCP_OP_ATTR_FIELD_RECV_INFO,
        p.with_recv_tag_info().recv_tag_info,
        p.with_recv_tag_info().flags == p.flags && p.with_recv_tag_info().datatype == p.datatype
            && p.with_recv_tag_info().callback == p.callback,
        p.with_iov().op_attr_mask == p.op_attr_mask | UCP_OP_ATTR_FIELD_DATATYPE,
        p.with_iov().datatype == UCP_DATATYPE_IOV,
        p.with_iov().flags == p.flags && p.with_iov().callback == p.callback
            && p.with_iov().recv_tag_info == p.recv_tag_info,
        p.with_flag(flag).op_attr_mask == p.op_attr_mask | UCP_OP_ATTR_FIELD_FLAGS,
        p.with_flag(flag).flags == p.flags | flag,
        p.with_flag(flag).datatype == p.datatype && p.with_flag(flag).callback == p.callback
            && p.with_flag(flag).recv_tag_info == p.recv_tag_info,
{
}

/// Choosing a callback twice is the same as choosing only the second one:
/// the later choice replaces the earlier.
pub proof fn lemma_callback_last_wins(p: RequestParam, first: RequestCallback, second: RequestCallback)
    ensures
        p.with_callback(first).with_callback(second) == p.with_callback(second),
{
    lemma_or_facts(p.op_attr_mask, UCP_OP_ATTR_FIELD_CALLBACK, UCP_OP_ATTR_FIELD_CALLBACK);
}

/// Selecting the IOV datatype or the receive information a second time
/// changes nothing.
pub proof fn lemma_selection_idempotent(p: RequestParam)
    ensures
        p.with_iov().with_iov() == p.with_iov(),
        p.with_recv_tag_info().with_recv_tag_info() == p.with_recv_tag_info(),
{
    lemma_or_facts(p.op_attr_mask, UCP_OP_ATTR_FIELD_DATATYPE, UCP_OP_ATTR_FIELD_DATATYPE);
    lemma_or_facts(p.op_attr_mask, UCP_OP_ATTR_FIELD_RECV_INFO, UCP_OP_ATTR_FIELD_RECV_INFO);
}

/// Steps that fill different fields may be taken in either order.
pub proof fn lemma_selections_commute(p: RequestParam, cb: RequestCallback, flag: u32)
    ensures
        p.with_callback(cb).with_iov() == p.with_iov().with_callback(cb),
        p.with_callback(cb).with_recv_tag_info() == p.with_recv_tag_info().with_callback(cb),
        p.with_iov().with_recv_tag_info() == p.with_recv_tag_info().with_iov(),
        p.with_callback(cb).with_flag(flag) == p.with_flag(flag).with_callback(cb),
{
    lemma_or_facts(p.op_attr_mask, UCP_OP_ATTR_FIELD_CALLBACK, UCP_OP_ATTR_FIELD_DATATYPE);
    lemma_or_facts(p.op_attr_mask, UCP_OP_ATTR_FIELD_CALLBACK, UCP_OP_ATTR_FIELD_RECV_INFO);
    lemma_or_facts(p.op_attr_mask, UCP_OP_ATTR_FIELD_DATATYPE, UCP_OP_ATTR_FIELD_RECV_INFO);
    lemma_or_facts(p.op_attr_mask, UCP_OP_ATTR_FIELD_CALLBACK, UCP_OP_ATTR_FIELD_FLAGS);
}

/// No step unselects a field: every step keeps the fields selected before
/// it and selects its own.
pub proof fn lemma_steps_keep_selection(p: RequestParam, cb: RequestCallback, flag: u32)
    ensures
        p.with_callback(cb).op_attr_mask & p.op_attr_mask == p.op_attr_mask,
        p.with_callback(cb).op_attr_mask & UCP_OP_ATTR_FIELD_CALLBACK == UCP_OP_ATTR_FIELD_CALLBACK,
        p.with_iov().op_attr_mask & p.op_attr_mask == p.op_attr_mask,
        p.with_iov().op_attr_mask & UCP_OP_ATTR_FIELD_DATATYPE == UCP_OP_ATTR_FIELD_DATATYPE,
        p.with_recv_tag_info().op_attr_mask & p.op_attr_mask == p.op_attr_mask,
        p.with_recv_tag_info().op_attr_mask & UCP_OP_ATTR_FIELD_RECV_INFO
            == UCP_OP_ATTR_FIELD_RECV_INFO,
        p.with_flag(flag).op_attr_mask & p.op_attr_mask == p.op_attr_mask,
        p.with_flag(flag).op_attr_mask & UCP_OP_ATTR_FIELD_FLAGS == UCP_OP_ATTR_FIELD_FLAGS,
        p.with_flag(flag).flags & p.flags == p.flags,
        p.with_flag(flag).flags & flag == flag,
{
    lemma_or_facts(p.op_attr_mask, UCP_OP_ATTR_FIELD_CALLBACK, 0);
    lemma_or_facts(p.op_attr_mask, UCP_OP_ATTR_FIELD_DATATYPE, 0);
    lemma_or_facts(p.op_attr_mask, UCP_OP_ATTR_FIELD_RECV_INFO, 0);
    lemma_or_facts(p.op_attr_mask, UCP_OP_ATTR_FIELD_FLAGS, 0);
    lemma_or_facts(p.flags, flag, 0);
}

/// Flags accumulate: adding two flags, in either order, gives the union of
/// both with the flags already there.
pub proof fn lemma_flags_accumulate(p: RequestParam, a: u32, b: u32)
    ensures
        p.with_flag(a).with_flag(b) == p.with_flag(b).with_flag(a),
        p.with_flag(a).with_flag(b).flags == (p.flags | a) | b,
{
    lemma_or_facts(p.op_attr_mask, UCP_OP_ATTR_FIELD_FLAGS, UCP_OP_ATTR_FIELD_FLAGS);
    lemma_or_facts(p.flags, a, b);
}

} // verus!
