//! Fixed-capacity FIFO storage for complete datagrams.
//!
//! A [`PacketBuffer`] holds zero or more whole datagrams, each tagged with
//! its remote endpoint. Capacity is fixed at construction in two dimensions:
//! a maximum datagram count (a metadata ring) and a maximum total payload
//! byte count (a payload ring). Overflow on enqueue
//! and underflow on dequeue are distinguishable conditions checked by the
//! caller through `can_enqueue` and `is_empty`.

use vstd::prelude::*;

use crate::endpoint::IpEndpoint;

verus! {

/// A complete datagram: payload bytes tagged with the remote endpoint that
/// sent it (inbound) or that it is addressed to (outbound).
pub struct Datagram {
    pub remote: IpEndpoint,
    pub payload: Vec<u8>,
}

/// The mathematical value of a datagram.
pub ghost struct DatagramModel {
    pub remote: IpEndpoint,
    pub payload: Seq<u8>,
}

impl View for Datagram {
    type V = DatagramModel;

    open spec fn view(&self) -> DatagramModel {
        DatagramModel { remote: self.remote, payload: self.payload@ }
    }
}

/// The mathematical value of a packet buffer: the queued datagrams, oldest
/// first, and the two capacity bounds.
pub ghost struct PacketBufferModel {
    pub datagrams: Seq<DatagramModel>,
    pub meta_capacity: nat,
    pub payload_capacity: nat,
}

/// Total payload bytes held by a queue of datagrams.
pub open spec fn total_bytes(s: Seq<DatagramModel>) -> nat
    decreases s.len(),
{
    if s.len() == 0 {
        0
    } else {
        total_bytes(s.drop_last()) + s.last().payload.len()
    }
}

pub proof fn lemma_total_bytes_push(s: Seq<DatagramModel>, d: DatagramModel)
    ensures
        total_bytes(s.push(d)) == total_bytes(s) + d.payload.len(),
{
    assert(s.push(d).drop_last() =~= s);
    assert(s.push(d).last() == d);
}

pub proof fn lemma_total_bytes_drop_first(s: Seq<DatagramModel>)
    requires
        s.len() > 0,
    ensures
        total_bytes(s) == s.first().payload.len() + total_bytes(s.drop_first()),
    decreases s.len(),
{
    if s.len() == 1 {
        assert(s.drop_last() =~= Seq::<DatagramModel>::empty());
        assert(s.drop_first() =~= Seq::<DatagramModel>::empty());
        assert(s.last() == s.first());
    } else {
        lemma_total_bytes_drop_first(s.drop_last());
        assert(s.drop_last().first() == s.first());
        assert(s.drop_last().drop_first() =~= s.drop_first().drop_last());
        assert(s.drop_first().last() == s.last());
    }
}

impl PacketBufferModel {
    /// Validity of the model: both capacity bounds are respected.
    pub open spec fn wf(self) -> bool {
        &&& self.datagrams.len() <= self.meta_capacity
        &&& total_bytes(self.datagrams) <= self.payload_capacity
    }

    pub open spec fn is_empty(self) -> bool {
        self.datagrams.len() == 0
    }

    /// Whether one more datagram of `len` payload bytes fits: a metadata
    /// slot is free and the payload ring has room for all of it.
    pub open spec fn fits(self, len: nat) -> bool {
        &&& self.datagrams.len() < self.meta_capacity
        &&& total_bytes(self.datagrams) + len <= self.payload_capacity
    }

    /// The same buffer with its contents discarded.
    pub open spec fn cleared(self) -> PacketBufferModel {
        PacketBufferModel {
            datagrams: Seq::empty(),
            meta_capacity: self.meta_capacity,
            payload_capacity: self.payload_capacity,
        }
    }
}

/// Fixed-capacity FIFO storage for complete datagrams.
pub struct PacketBuffer {
    datagrams: Vec<Datagram>,
    used_bytes: usize,
    meta_capacity: usize,
    payload_capacity: usize,
}

impl View for PacketBuffer {
    type V = PacketBufferModel;

    closed spec fn view(&self) -> PacketBufferModel {
        PacketBufferModel {
            datagrams: self.datagrams@.map_values(|d: Datagram| d@),
            meta_capacity: self.meta_capacity as nat,
            payload_capacity: self.payload_capacity as nat,
        }
    }
}

impl PacketBuffer {
    /// Validity of the buffer: the byte count mirrors the queue's total
    /// payload length and both capacity bounds are respected.
    pub closed spec fn wf(self) -> bool {
        &&& self.used_bytes == total_bytes(self@.datagrams)
        &&& self@.wf()
    }

    /// An empty buffer with room for `meta_capacity` datagrams totalling at
    /// most `payload_capacity` payload bytes.
    pub fn new(meta_capacity: usize, payload_capacity: usize) -> (r: PacketBuffer)
        ensures
            r@ == (PacketBufferModel {
                datagrams: Seq::<DatagramModel>::empty(),
                meta_capacity: meta_capacity as nat,
                payload_capacity: payload_capacity as nat,
            }),
            r.wf(),
    {
        let r = PacketBuffer { datagrams: Vec::new(), used_bytes: 0, meta_capacity, payload_capacity };
        proof {
            assert(r@.datagrams =~= Seq::<DatagramModel>::empty());
        }
        r
    }

    pub fn len(&self) -> (r: usize)
        ensures
            r == self@.datagrams.len(),
    {
        self.datagrams.len()
    }

    pub fn is_empty(&self) -> (r: bool)
        ensures
            r == self@.is_empty(),
    {
        self.datagrams.len() == 0
    }

    pub fn meta_capacity(&self) -> (r: usize)
        ensures
            r == self@.meta_capacity,
    {
        self.meta_capacity
    }

    pub fn payload_capacity(&self) -> (r: usize)
        ensures
            r == self@.payload_capacity,
    {
        self.payload_capacity
    }

    pub fn can_enqueue(&self, len: usize) -> (r: bool)
        requires
            self.wf(),
        ensures
            r == self@.fits(len as nat),
    {
        self.datagrams.len() < self.meta_capacity && len <= self.payload_capacity - self.used_bytes
    }

    /// Appends a whole datagram at the back of the queue.
    pub fn enqueue(&mut self, remote: IpEndpoint, payload: Vec<u8>)
        requires
            old(self).wf(),
            old(self)@.fits(payload@.len()),
        ensures
            final(self).wf(),
            final(self)@.datagrams == old(self)@.datagrams.push(
                DatagramModel { remote, payload: payload@ },
            ),
            final(self)@.meta_capacity == old(self)@.meta_capacity,
            final(self)@.payload_capacity == old(self)@.payload_capacity,
    {
        proof {
            lemma_total_bytes_push(
                self@.datagrams,
                DatagramModel { remote, payload: payload@ },
            );
        }
        let ghost pre = self.datagrams@;
        let len = payload.len();
        self.datagrams.push(Datagram { remote, payload });
        self.used_bytes = self.used_bytes + len;
        proof {
            assert(self.datagrams@.map_values(|d: Datagram| d@) =~= pre.map_values(
                |d: Datagram| d@,
            ).push(self.datagrams@.last()@));
        }
    }

    /// Removes and returns the oldest datagram.
    pub fn dequeue(&mut self) -> (r: Datagram)
        requires
            old(self).wf(),
            !old(self)@.is_empty(),
        ensures
            final(self).wf(),
            r@ == old(self)@.datagrams.first(),
            final(self)@.datagrams == old(self)@.datagrams.drop_first(),
            final(self)@.meta_capacity == old(self)@.meta_capacity,
            final(self)@.payload_capacity == old(self)@.payload_capacity,
    {
        proof {
            lemma_total_bytes_drop_first(self@.datagrams);
        }
        let ghost pre = self.datagrams@;
        let d = self.datagrams.remove(0);
        self.used_bytes = self.used_bytes - d.payload.len();
        proof {
            assert(self.datagrams@.map_values(|d: Datagram| d@) =~= pre.map_values(
                |d: Datagram| d@,
            ).drop_first());
        }
        d
    }

    /// Discards all queued datagrams; the capacities are kept.
    pub fn clear(&mut self)
        ensures
            final(self).wf(),
            final(self)@ == old(self)@.cleared(),
    {
        self.datagrams.clear();
        self.used_bytes = 0;
        proof {
            assert(self.datagrams@.map_values(|d: Datagram| d@) =~= Seq::<DatagramModel>::empty());
        }
    }
}

} // verus!
