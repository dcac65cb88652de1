//! The address of a worker, as owned bytes that another worker connects to.

use vstd::prelude::*;
use bytes::Bytes;

verus! {

#[verifier::external_type_specification]
#[verifier::external_body]
pub struct ExBytes(Bytes);

/// The bytes that a `bytes::Bytes` buffer holds.
pub uninterp spec fn bytes_view(b: Bytes) -> Seq<u8>;

/// `Bytes::from(Vec<u8>)`: takes over the vector; the buffer holds
/// exactly the vector's bytes.
#[verifier::external_body]
fn bytes_from_vec(v: Vec<u8>) -> (b: Bytes)
    ensures
        bytes_view(b) == v@,
{
    Bytes::from(v)
}

/// `Bytes::copy_from_slice`: the buffer holds a copy of exactly the slice's
/// bytes.
#[verifier::external_body]
fn bytes_copy_from_slice(data: &[u8]) -> (b: Bytes)
    ensures
        bytes_view(b) == data@,
{
    Bytes::copy_from_slice(data)
}

/// `<Bytes as AsRef<[u8]>>::as_ref`: the slice of the bytes the buffer
/// holds.
#[verifier::external_body]
fn bytes_as_slice(b: &Bytes) -> (s: &[u8])
    ensures
        s@ == bytes_view(*b),
{
    b.as_ref()
}

/// `<Bytes as Clone>::clone`: a second handle on the same bytes.
pub assume_specification[ <Bytes as Clone>::clone ](b: &Bytes) -> (c: Bytes)
    ensures
        bytes_view(c) == bytes_view(*b),
;

/// The address of a worker.  It owns its bytes, so it outlives the worker
/// it was taken from and may be cloned and sent elsewhere.
#[derive(Debug)]
pub struct WorkerAddress {
    data: Bytes,
}

impl View for WorkerAddress {
    type V = Seq<u8>;

    closed spec fn view(&self) -> Seq<u8> {
        bytes_view(self.data)
    }
}

impl WorkerAddress {
    /// The buffer that the address holds.
    pub closed spec fn data(self) -> Bytes {
        self.data
    }

    /// The address that holds exactly the buffer `data`.
    pub closed spec fn holding(data: Bytes) -> WorkerAddress {
        WorkerAddress { data }
    }

    /// Makes an address that holds the buffer `data` itself, not a copy.
    pub fn from_bytes(data: Bytes) -> (a: WorkerAddress)
        ensures
            a == WorkerAddress::holding(data),
            a.data() == data,
            a@ == bytes_view(data),
    {
        WorkerAddress { data }
    }

    /// Makes an address that holds a copy of `data`, the address that UCX
    /// reported for a worker.
    pub fn from_slice(data: &[u8]) -> (a: WorkerAddress)
        ensures
            a@ == data@,
    {
        WorkerAddress { data: bytes_copy_from_slice(data) }
    }

    /// The buffer that the address holds.
    pub fn as_bytes(&self) -> (b: &Bytes)
        ensures
            *b == self.data(),
            bytes_view(*b) == self@,
    {
        &self.data
    }
}

/// Making an address from a buffer and taking its buffer back are inverse
/// to each other: the address holds the very buffer it was made from, and
/// an address is the one made from the buffer it holds.  Through a clone of
/// the buffer (any buffer `c` with the same bytes as `b`, which is what
/// cloning gives) the round trip keeps the bytes.
pub proof fn lemma_from_bytes_as_bytes_inverse(b: Bytes, c: Bytes, a: WorkerAddress)
    requires
        bytes_view(c) == bytes_view(b),
    ensures
        WorkerAddress::holding(b).data() == b,
        WorkerAddress::holding(a.data()) == a,
        WorkerAddress::holding(b)@ == bytes_view(b),
        bytes_view(WorkerAddress::holding(c).data()) == bytes_view(b),
        WorkerAddress::holding(c)@ == WorkerAddress::holding(b)@,
{
}

/// Converting a buffer into an address is making the address from that
/// buffer.
pub proof fn lemma_from_is_from_bytes(b: Bytes)
    ensures
        <WorkerAddress as vstd::std_specs::convert::FromSpec<Bytes>>::obeys_from_spec(),
        <WorkerAddress as vstd::std_specs::convert::FromSpec<Bytes>>::from_spec(b)
            == WorkerAddress::holding(b),
{
}

impl Clone for WorkerAddress {
    fn clone(&self) -> (c: WorkerAddress)
        ensures
            c@ == self@,
    {
        WorkerAddress { data: self.data.clone() }
    }
}

impl AsRef<[u8]> for WorkerAddress {
    fn as_ref(&self) -> (s: &[u8])
        ensures
            s@ == self@,
    {
        bytes_as_slice(&self.data)
    }
}

impl From<Bytes> for WorkerAddress {
    fn from(data: Bytes) -> (a: WorkerAddress)
        ensures
            a == WorkerAddress::holding(data),
            a.data() == data,
            a@ == bytes_view(data),
    {
        WorkerAddress { data }
    }
}

impl vstd::std_specs::convert::FromSpecImpl<Bytes> for WorkerAddress {
    open spec fn obeys_from_spec() -> bool {
        true
    }

    closed spec fn from_spec(v: Bytes) -> WorkerAddress {
        WorkerAddress { data: v }
    }
}

impl From<Vec<u8>> for WorkerAddress {
    fn from(data: Vec<u8>) -> (a: WorkerAddress)
        ensures
            a@ == data@,
    {
        WorkerAddress::from_bytes(bytes_from_vec(data))
    }
}

impl vstd::std_specs::convert::FromSpecImpl<Vec<u8>> for WorkerAddress {
    open spec fn obeys_from_spec() -> bool {
        false
    }

    closed spec fn from_spec(v: Vec<u8>) -> WorkerAddress {
        arbitrary()
    }
}

} // verus!
