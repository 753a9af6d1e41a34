//! The wrapper that carries a batch of messages through a chain.

use vstd::prelude::*;

verus! {

/// The address and port that a client connected to.
#[derive(Clone, Copy, PartialEq, Eq, Debug)]
pub enum LocalAddr {
    V4 { octets: [u8; 4], port: u16 },
    V6 { segments: [u16; 8], port: u16, flowinfo: u32, scope_id: u32 },
}

/// The address that a flush carries, which belongs to no connection: 127.0.0.1:10000.
pub open spec fn flush_addr(addr: LocalAddr) -> bool {
    addr matches LocalAddr::V4 { octets, port } && octets@ == seq![127u8, 0, 0, 1] && port == 10000
}

/// A batch of requests and what the transforms of a chain need to know about it.
#[derive(Debug)]
pub struct Wrapper<M> {
    pub requests: Vec<M>,
    pub client_details: String,
    pub local_addr: LocalAddr,
    pub flush: bool,
    /// The positions in the chain of the transforms that are still to be called, in order.
    pub transforms: Vec<usize>,
}

/// What a wrapper says.
pub struct WrapperView<M> {
    pub requests: Seq<M>,
    pub client_details: Seq<char>,
    pub local_addr: LocalAddr,
    pub flush: bool,
    pub transforms: Seq<usize>,
}

impl<M> View for Wrapper<M> {
    type V = WrapperView<M>;

    open spec fn view(&self) -> WrapperView<M> {
        WrapperView {
            requests: self.requests@,
            client_details: self.client_details@,
            local_addr: self.local_addr,
            flush: self.flush,
            transforms: self.transforms@,
        }
    }
}

/// The positions of a chain of `len` transforms, first to last.
pub open spec fn forward_order(len: nat) -> Seq<usize> {
    Seq::new(len, |i: int| i as usize)
}

/// The positions of a chain of `len` transforms, last to first.
pub open spec fn reverse_order(len: nat) -> Seq<usize> {
    Seq::new(len, |i: int| (len - 1 - i) as usize)
}

impl<M> Wrapper<M> {
    /// Agrees with `other` on everything but the transforms that are still to be called.
    pub open spec fn same_batch(&self, other: &Wrapper<M>) -> bool {
        &&& self.requests == other.requests
        &&& self.client_details == other.client_details
        &&& self.local_addr == other.local_addr
        &&& self.flush == other.flush
    }

    /// A batch of requests that came in on `local_addr`, from no client in particular.
    pub fn new_with_addr(requests: Vec<M>, local_addr: LocalAddr) -> (wrapper: Self)
        ensures
            wrapper.requests == requests,
            wrapper.client_details@ == Seq::<char>::empty(),
            wrapper.local_addr == local_addr,
            !wrapper.flush,
            wrapper.transforms@ == Seq::<usize>::empty(),
    {
        Wrapper {
            requests,
            client_details: String::new(),
            local_addr,
            flush: false,
            transforms: Vec::new(),
        }
    }

    /// An empty batch that asks the transforms to write out what they hold back.
    pub fn flush() -> (wrapper: Self)
        ensures
            wrapper.requests@ == Seq::<M>::empty(),
            wrapper.client_details@ == Seq::<char>::empty(),
            flush_addr(wrapper.local_addr),
            wrapper.local_addr matches LocalAddr::V4 { octets, port } && octets@.len() == 4
                && octets@[0] == 127 && octets@[1] == 0 && octets@[2] == 0 && octets@[3] == 1
                && port == 10000,
            wrapper.flush,
            wrapper.transforms@ == Seq::<usize>::empty(),
    {
        Wrapper {
            requests: Vec::new(),
            client_details: String::new(),
            local_addr: LocalAddr::V4 { octets: [127, 0, 0, 1], port: 10000 },
            flush: true,
            transforms: Vec::new(),
        }
    }

    /// Has all the transforms of a chain called, from the first to the last.
    pub fn reset(&mut self, chain_len: usize)
        ensures
            final(self).same_batch(old(self)),
            final(self).requests == old(self).requests,
            final(self).client_details == old(self).client_details,
            final(self).local_addr == old(self).local_addr,
            final(self).flush == old(self).flush,
            final(self).transforms@ == forward_order(chain_len as nat),
            final(self).transforms@.len() == chain_len,
            forall|i: int| 0 <= i < chain_len ==> #[trigger] final(self).transforms@[i] == i,
    {
        let mut transforms: Vec<usize> = Vec::new();
        let mut i: usize = 0;
        while i < chain_len
            invariant
                i <= chain_len,
                transforms@ == forward_order(i as nat),
            decreases chain_len - i,
        {
            transforms.push(i);
            i += 1;
        }
        self.transforms = transforms;
    }

    /// Has all the transforms of a chain called, from the last to the first.
    pub fn reset_rev(&mut self, chain_len: usize)
        ensures
            final(self).same_batch(old(self)),
            final(self).requests == old(self).requests,
            final(self).client_details == old(self).client_details,
            final(self).local_addr == old(self).local_addr,
            final(self).flush == old(self).flush,
            final(self).transforms@ == reverse_order(chain_len as nat),
            final(self).transforms@.len() == chain_len,
            forall|i: int|
                0 <= i < chain_len ==> #[trigger] final(self).transforms@[i] == chain_len - 1 - i,
    {
        let mut transforms: Vec<usize> = Vec::new();
        let mut left: usize = chain_len;
        while left > 0
            invariant
                left <= chain_len,
                transforms@ == reverse_order(chain_len as nat).take(chain_len - left),
            decreases left,
        {
            left -= 1;
            transforms.push(left);
        }
        self.transforms = transforms;
    }
}

/// Going forward, the transform called at place `i` is the one at position `i` of the chain; going
/// backward, it is the one at position `i` counted from the end.
pub proof fn law_orders_name_positions(len: usize, i: int)
    requires
        0 <= i < len,
    ensures
        forward_order(len as nat).len() == len,
        forward_order(len as nat)[i] == i,
        reverse_order(len as nat).len() == len,
        reverse_order(len as nat)[i] == len - 1 - i,
{
}

/// Going forward, a transform is called before all those behind it in the chain; going backward, it
/// is called after them.
pub proof fn law_orders_follow_the_chain(len: usize, i: int, j: int)
    requires
        0 <= i < j < len,
    ensures
        forward_order(len as nat)[i] < forward_order(len as nat)[j],
        reverse_order(len as nat)[i] > reverse_order(len as nat)[j],
{
}

/// Two wrappers of the same batch differ in nothing but the transforms that are still to be called.
pub proof fn law_same_batch_keeps_everything_else<M>(one: Wrapper<M>, other: Wrapper<M>)
    ensures
        one.same_batch(&other) <==> one == (Wrapper { transforms: one.transforms, ..other }),
{
}

/// A flush that no client asked for carries the address 127.0.0.1:10000 and no other.
pub proof fn law_flush_address(addr: LocalAddr)
    ensures
        flush_addr(addr) <==> (addr matches LocalAddr::V4 { octets, port } && octets@.len() == 4
            && octets@[0] == 127 && octets@[1] == 0 && octets@[2] == 0 && octets@[3] == 1 && port
            == 10000),
{
    if let LocalAddr::V4 { octets, port } = addr {
        if octets@[0] == 127 && octets@[1] == 0 && octets@[2] == 0 && octets@[3] == 1 {
            assert(octets@ =~= seq![127u8, 0, 0, 1]);
        }
    }
}

/// What a wrapper says is all that it holds.
pub proof fn law_view_is_what_the_wrapper_holds<M>(wrapper: Wrapper<M>)
    ensures
        wrapper@.requests == wrapper.requests@,
        wrapper@.client_details == wrapper.client_details@,
        wrapper@.local_addr == wrapper.local_addr,
        wrapper@.flush == wrapper.flush,
        wrapper@.transforms == wrapper.transforms@,
{
}

/// The two orders are each other's reverse.
pub proof fn law_orders_are_reversed(len: nat)
    ensures
        reverse_order(len) == forward_order(len).reverse(),
        forward_order(len) == reverse_order(len).reverse(),
{
    assert(reverse_order(len) =~= forward_order(len).reverse());
    assert(forward_order(len) =~= reverse_order(len).reverse());
}

/// Whichever way a chain is passed, each of its transforms is called exactly once.
pub proof fn law_each_transform_once(len: usize, position: usize)
    requires
        position < len,
    ensures
        forward_order(len as nat).contains(position),
        reverse_order(len as nat).contains(position),
        forward_order(len as nat).no_duplicates(),
        reverse_order(len as nat).no_duplicates(),
        forward_order(len as nat).len() == len,
        reverse_order(len as nat).len() == len,
{
    assert(forward_order(len as nat)[position as int] == position);
    assert(reverse_order(len as nat)[len - 1 - position] == position);
}

} // verus!
