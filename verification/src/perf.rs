//! The record-plus-trailing-payload encoding and its export channel.
//!
//! [`MapData`] is a fixed-size typed record followed, conceptually, by a
//! caller-chosen number of raw payload bytes; the trailing bytes are never
//! part of the record's own memory, they are appended by the channel that
//! carries the record out. [`PerfMap`] models that channel: a bounded event
//! queue keyed by the current execution unit or by an explicit index, which
//! appends the requested number of leading packet bytes to every event.

use crate::xdp::XdpContext;
use vstd::prelude::*;

verus! {

/// Why the export channel refused an insert.
#[derive(Clone, Copy, Debug, PartialEq, Eq, Structural)]
pub enum ExportError {
    /// The record asked for more trailing packet bytes than the packet holds.
    PayloadOutOfBounds,
    /// The channel already holds as many events as it was created for.
    ChannelFull,
}

/// A fixed-size typed record together with the sizing of its trailing
/// payload: `size` raw bytes follow the record, of which the leading
/// `offset` bytes are skipped on read.
pub struct MapData<T> {
    /// The custom data to be exchanged with the consumer.
    pub data: T,
    offset: u32,
    size: u32,
}

impl<T> MapData<T> {
    /// The typed record carried ahead of the trailing bytes.
    pub closed spec fn spec_data(self) -> T {
        self.data
    }

    /// Bytes to skip at the start of the trailing region.
    pub closed spec fn spec_offset(self) -> u32 {
        self.offset
    }

    /// Total number of trailing bytes the record asks for.
    pub closed spec fn spec_size(self) -> u32 {
        self.size
    }

    /// Creates a record that carries only `data` and no packet payload.
    pub fn new(data: T) -> (r: Self)
        ensures
            r.spec_data() == data,
            r.spec_offset() == 0,
            r.spec_size() == 0,
    {
        MapData::<T>::with_payload(data, 0, 0)
    }

    /// Creates a record that carries `data` and asks for `size` trailing
    /// payload bytes, of which the interesting part starts at `offset`.
    /// `size >= offset` is expected but not checked here; [`Self::payload`]
    /// demands it.
    pub fn with_payload(data: T, offset: u32, size: u32) -> (r: Self)
        ensures
            r.spec_data() == data,
            r.spec_offset() == offset,
            r.spec_size() == size,
    {
        MapData { data, offset, size }
    }

    /// Returns the number of trailing bytes this record asks for.
    pub fn size(&self) -> (r: u32)
        ensures
            r == self.spec_size(),
    {
        self.size
    }

    /// Returns the offset at which the interesting payload starts.
    pub fn offset(&self) -> (r: u32)
        ensures
            r == self.spec_offset(),
    {
        self.offset
    }

    /// Returns the payload, skipping the initial `offset` bytes of the
    /// trailing region. `trailing` must be the region that physically
    /// followed the record — at least `size` bytes, as the export channel
    /// guarantees for every delivered event.
    pub fn payload<'a>(&self, trailing: &'a [u8]) -> (r: &'a [u8])
        requires
            self.spec_offset() <= self.spec_size(),
            self.spec_size() <= trailing@.len(),
        ensures
            r@ == trailing@.subrange(self.spec_offset() as int, self.spec_size() as int),
    {
        vstd::slice::slice_subrange(trailing, self.offset as usize, self.size as usize)
    }
}

/// Flags steering one insert into the perf event channel: an explicit index
/// key, or none for "key by the current execution unit", and the number of
/// trailing packet bytes to append.
#[derive(Clone, Copy, Debug, PartialEq, Eq, Structural)]
pub struct PerfMapFlags {
    index: Option<u32>,
    xdp_size: u32,
}

impl PerfMapFlags {
    /// The explicit index key, or `None` for the current execution unit.
    pub closed spec fn spec_index(self) -> Option<u32> {
        self.index
    }

    /// The number of trailing packet bytes these flags ask for.
    pub closed spec fn spec_xdp_size(self) -> u32 {
        self.xdp_size
    }

    /// Flags that key by the current execution unit and append no bytes.
    pub fn new() -> (r: Self)
        ensures
            r.spec_index() is None,
            r.spec_xdp_size() == 0,
    {
        PerfMapFlags { index: None, xdp_size: 0 }
    }

    /// Flags that key by the explicit index `index`.
    pub fn with_index(index: u32) -> (r: Self)
        ensures
            r.spec_index() == Some(index),
            r.spec_xdp_size() == 0,
    {
        PerfMapFlags { index: Some(index), xdp_size: 0 }
    }

    /// Flags that key by the current execution unit and append `size`
    /// trailing packet bytes.
    pub fn with_xdp_size(size: u32) -> (r: Self)
        ensures
            r.spec_index() is None,
            r.spec_xdp_size() == size,
    {
        PerfMapFlags { index: None, xdp_size: size }
    }

    /// The numeric encoding the environment understands: the trailing byte
    /// count in the upper 32 bits, and in the lower 32 bits the index key,
    /// or all ones for "the current execution unit".
    pub open spec fn spec_bits(self) -> int {
        self.spec_xdp_size() * 0x1_0000_0000 + match self.spec_index() {
            Some(i) => i as int,
            None => 0xffff_ffff as int,
        }
    }

    /// Returns the numeric encoding of these flags.
    pub fn bits(&self) -> (r: u64)
        ensures
            r == self.spec_bits(),
    {
        let key: u64 = match self.index {
            Some(i) => i as u64,
            None => 0xffff_ffff,
        };
        (self.xdp_size as u64) * 0x1_0000_0000 + key
    }
}

/// One event as the channel delivers it: the key it was inserted under, the
/// record, and the trailing packet bytes the channel appended after it.
pub struct PerfEvent<T> {
    /// The explicit index key, or `None` for the current execution unit.
    pub index: Option<u32>,
    /// The exported record.
    pub data: MapData<T>,
    /// The `data.size()` leading packet bytes appended after the record.
    pub trailing: Vec<u8>,
}

/// Perf events channel: a bounded queue of records, each followed by the
/// leading bytes of the packet it was exported with.
pub struct PerfMap<T> {
    max_entries: u32,
    events: Vec<PerfEvent<T>>,
}

impl<T> PerfMap<T> {
    /// How many events the channel was created for.
    pub closed spec fn spec_max_entries(self) -> u32 {
        self.max_entries
    }

    /// The events delivered so far, oldest first.
    pub closed spec fn spec_events(self) -> Seq<PerfEvent<T>> {
        self.events@
    }

    /// The channel never holds more events than it was created for.
    pub open spec fn wf(self) -> bool {
        self.spec_events().len() <= self.spec_max_entries()
    }

    /// Creates a perf map that holds up to `max_entries` events.
    pub fn with_max_entries(max_entries: u32) -> (r: Self)
        ensures
            r.spec_max_entries() == max_entries,
            r.spec_events() == Seq::<PerfEvent<T>>::empty(),
            r.wf(),
    {
        PerfMap { max_entries, events: Vec::new() }
    }

    /// Returns the events delivered so far, oldest first.
    pub fn events(&self) -> (r: &Vec<PerfEvent<T>>)
        ensures
            r@ == self.spec_events(),
    {
        &self.events
    }

    /// Inserts a new event keyed by the current execution unit, asking the
    /// channel to append `data.size()` leading bytes of the current packet.
    pub fn insert(&mut self, ctx: &XdpContext, data: MapData<T>) -> (r: Result<(), ExportError>)
        requires
            old(self).wf(),
        ensures
            final(self).wf(),
            final(self).spec_max_entries() == old(self).spec_max_entries(),
            r is Ok <==> data.spec_size() <= ctx@.len() && old(self).spec_events().len() < old(
                self,
            ).spec_max_entries(),
            r is Ok ==> {
                &&& final(self).spec_events().len() == old(self).spec_events().len() + 1
                &&& final(self).spec_events().drop_last() == old(self).spec_events()
                &&& final(self).spec_events().last().index is None
                &&& final(self).spec_events().last().data == data
                &&& final(self).spec_events().last().trailing@ == ctx@.subrange(
                    0,
                    data.spec_size() as int,
                )
            },
            data.spec_size() > ctx@.len() ==> r == Err::<(), ExportError>(
                ExportError::PayloadOutOfBounds,
            ),
            data.spec_size() <= ctx@.len() && old(self).spec_events().len() >= old(
                self,
            ).spec_max_entries() ==> r == Err::<(), ExportError>(ExportError::ChannelFull),
            r is Err ==> final(self).spec_events() == old(self).spec_events(),
    {
        let size = data.size();
        self.insert_with_flags(ctx, data, PerfMapFlags::with_xdp_size(size))
    }

    /// Inserts a new event keyed as `flags` say. Whatever trailing byte
    /// count the flags carry, it is overwritten with `data.size()`, so the
    /// two can never disagree.
    pub fn insert_with_flags(
        &mut self,
        ctx: &XdpContext,
        data: MapData<T>,
        flags: PerfMapFlags,
    ) -> (r: Result<(), ExportError>)
        requires
            old(self).wf(),
        ensures
            final(self).wf(),
            final(self).spec_max_entries() == old(self).spec_max_entries(),
            r is Ok <==> data.spec_size() <= ctx@.len() && old(self).spec_events().len() < old(
                self,
            ).spec_max_entries(),
            r is Ok ==> {
                &&& final(self).spec_events().len() == old(self).spec_events().len() + 1
                &&& final(self).spec_events().drop_last() == old(self).spec_events()
                &&& final(self).spec_events().last().index == flags.spec_index()
                &&& final(self).spec_events().last().data == data
                &&& final(self).spec_events().last().trailing@ == ctx@.subrange(
                    0,
                    data.spec_size() as int,
                )
            },
            data.spec_size() > ctx@.len() ==> r == Err::<(), ExportError>(
                ExportError::PayloadOutOfBounds,
            ),
            data.spec_size() <= ctx@.len() && old(self).spec_events().len() >= old(
                self,
            ).spec_max_entries() ==> r == Err::<(), ExportError>(ExportError::ChannelFull),
            r is Err ==> final(self).spec_events() == old(self).spec_events(),
    {
        let size = data.size();
        let packet = ctx.inner();
        if (size as usize) > packet.len() {
            return Err(ExportError::PayloadOutOfBounds);
        }
        if self.events.len() >= self.max_entries as usize {
            return Err(ExportError::ChannelFull);
        }
        let trailing = vstd::slice::slice_to_vec(
            vstd::slice::slice_subrange(packet.as_slice(), 0, size as usize),
        );
        let event = PerfEvent { index: flags.index, data, trailing };
        self.events.push(event);
        proof {
            assert(self.spec_events().drop_last() =~= old(self).spec_events());
        }
        Ok(())
    }
}

/// Appending the first `size` packet bytes to a record built with
/// `with_payload(data, offset, size)` and then reading its payload yields
/// exactly bytes `offset` to `size` of the packet: the export round trip
/// loses nothing but the skipped prefix.
pub proof fn lemma_export_round_trip(offset: u32, size: u32, pkt: Seq<u8>)
    requires
        offset <= size,
        size <= pkt.len(),
    ensures
        pkt.subrange(0, size as int).subrange(offset as int, size as int) == pkt.subrange(
            offset as int,
            size as int,
        ),
{
    assert(pkt.subrange(0, size as int).subrange(offset as int, size as int) =~= pkt.subrange(
        offset as int,
        size as int,
    ));
}

} // verus!
