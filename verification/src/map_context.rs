//! Which parts of a buffer the host currently holds views of.
//!
//! A buffer has at most one mapping at a time, and the host looks at it through
//! views of sub-ranges. [`MapContext`] turns each request for a view into a
//! range of addresses, refuses one that leaves the mapping or meets a view
//! that is still open, and refuses to unmap while any view is open. It holds
//! no buffer data.

use vstd::prelude::*;
use crate::address::{AddressRange, BufferAddress, BufferSize};

verus! {

/// Why a request to a [`MapContext`] is refused.
#[derive(Clone, Copy, Debug, PartialEq, Eq, Structural)]
pub enum MapError {
    /// The requested range begins before the mapping or ends after it.
    OutOfBounds,
    /// The requested range meets this open view.
    Intersects(AddressRange),
    /// No open view covers exactly the range to release.
    NotOpen,
    /// Views of the mapping are still open.
    ViewsOpen,
    /// The buffer already has a mapping.
    AlreadyMapped,
    /// The view is for writing, and the buffer cannot be mapped for reading.
    WriteOnly,
}

/// What a [`MapContext`] stands for: the size of the buffer, what is mapped
/// of it, and the views that are open, oldest first except where a release
/// has moved the youngest into the gap it left.
pub struct MapState {
    pub total_size: BufferAddress,
    pub mapping: AddressRange,
    pub open: Seq<AddressRange>,
}

/// What can be asked of a [`MapContext`].
pub enum MapOp {
    /// Record that a range is mapped.
    Begin { range: AddressRange },
    /// Open a view.
    Add { offset: BufferAddress, size: Option<BufferSize> },
    /// Release a view.
    Remove { offset: BufferAddress, size: Option<BufferSize> },
    /// Forget the mapping.
    Reset,
}

impl MapState {
    /// The state of a buffer of `total_size` bytes of which nothing is mapped.
    pub open spec fn unmapped(total_size: BufferAddress) -> MapState {
        MapState { total_size, mapping: AddressRange::nothing(), open: Seq::empty() }
    }

    /// Every open view lies inside the mapping, and any two open views are
    /// apart.
    pub open spec fn wf(self) -> bool {
        &&& forall|i: int|
            #![trigger self.open[i]]
            0 <= i < self.open.len() ==> self.open[i].inside(self.mapping)
        &&& forall|i: int, j: int|
            #![trigger self.open[i], self.open[j]]
            0 <= i < self.open.len() && 0 <= j < self.open.len() && i != j
                ==> self.open[i].apart_from(self.open[j])
    }

    /// Where a view of `size` bytes at `offset` ends; without a size, where
    /// the mapping ends.
    pub open spec fn end_of(self, offset: BufferAddress, size: Option<BufferSize>) -> int {
        match size {
            Some(s) => offset + s@,
            None => self.mapping.end as int,
        }
    }

    /// Whether a view at `offset` begins within the mapping, ends within it,
    /// and does not end before it begins.
    pub open spec fn in_bounds(self, offset: BufferAddress, size: Option<BufferSize>) -> bool {
        &&& self.mapping.start <= offset
        &&& offset <= self.end_of(offset, size)
        &&& self.end_of(offset, size) <= self.mapping.end
    }

    /// The range of a view at `offset`, where its end is an address.
    pub open spec fn requested(
        self,
        offset: BufferAddress,
        size: Option<BufferSize>,
    ) -> AddressRange
        recommends
            self.end_of(offset, size) <= BufferAddress::MAX,
    {
        AddressRange { start: offset, end: self.end_of(offset, size) as BufferAddress }
    }

    /// Whether the open view at `index` is the first to meet `range`.
    pub open spec fn first_meeting(self, range: AddressRange, index: int) -> bool {
        &&& 0 <= index < self.open.len()
        &&& !self.open[index].apart_from(range)
        &&& forall|k: int| 0 <= k < index ==> (#[trigger] self.open[k]).apart_from(range)
    }

    /// Whether a view at `offset` may be opened: it is in bounds and apart
    /// from every open view.
    pub open spec fn add_allowed(self, offset: BufferAddress, size: Option<BufferSize>) -> bool {
        &&& self.in_bounds(offset, size)
        &&& forall|i: int|
            0 <= i < self.open.len() ==> (#[trigger] self.open[i]).apart_from(
                self.requested(offset, size),
            )
    }

    /// The state once the view at `offset` is open.
    pub open spec fn after_add(self, offset: BufferAddress, size: Option<BufferSize>) -> MapState {
        MapState {
            total_size: self.total_size,
            mapping: self.mapping,
            open: self.open.push(self.requested(offset, size)),
        }
    }

    /// Whether a view at `offset` may be released: an open view covers exactly
    /// its range.
    pub open spec fn remove_allowed(
        self,
        offset: BufferAddress,
        size: Option<BufferSize>,
    ) -> bool {
        &&& self.end_of(offset, size) <= BufferAddress::MAX
        &&& self.open.contains(self.requested(offset, size))
    }

    /// The views left when the first open view equal to `range` is released:
    /// the youngest view takes its place.
    pub open spec fn without(self, range: AddressRange) -> Seq<AddressRange>
        recommends
            self.open.contains(range),
    {
        self.open.update(self.open.index_of_first(range).unwrap(), self.open.last()).drop_last()
    }

    /// The state once the view at `offset` is released.
    pub open spec fn after_remove(
        self,
        offset: BufferAddress,
        size: Option<BufferSize>,
    ) -> MapState {
        MapState {
            total_size: self.total_size,
            mapping: self.mapping,
            open: self.without(self.requested(offset, size)),
        }
    }

    /// Whether the buffer may be unmapped: no view is open.
    pub open spec fn reset_allowed(self) -> bool {
        self.open.len() == 0
    }

    /// The state once the buffer is unmapped.
    pub open spec fn after_reset(self) -> MapState {
        MapState { total_size: self.total_size, mapping: AddressRange::nothing(), open: self.open }
    }

    /// Whether the mapping of `range` may begin: nothing is mapped, and what
    /// is open lies inside `range`. With nothing mapped, only views of no
    /// address at zero can be open.
    pub open spec fn map_allowed(self, range: AddressRange) -> bool {
        &&& self.mapping == AddressRange::nothing()
        &&& forall|i: int| 0 <= i < self.open.len() ==> (#[trigger] self.open[i]).inside(range)
    }

    /// The state once `range` is mapped.
    pub open spec fn after_map(self, range: AddressRange) -> MapState {
        MapState { total_size: self.total_size, mapping: range, open: self.open }
    }

    /// Whether `op` is accepted in this state.
    pub open spec fn accepts(self, op: MapOp) -> bool {
        match op {
            MapOp::Begin { range } => self.map_allowed(range),
            MapOp::Add { offset, size } => self.add_allowed(offset, size),
            MapOp::Remove { offset, size } => self.remove_allowed(offset, size),
            MapOp::Reset => self.reset_allowed(),
        }
    }

    /// The state after `op`, where it is accepted.
    pub open spec fn apply(self, op: MapOp) -> MapState {
        match op {
            MapOp::Begin { range } => self.after_map(range),
            MapOp::Add { offset, size } => self.after_add(offset, size),
            MapOp::Remove { offset, size } => self.after_remove(offset, size),
            MapOp::Reset => self.after_reset(),
        }
    }

    /// The state after the requests `ops`, made in order; `None` once one of
    /// them is refused.
    pub open spec fn run(self, ops: Seq<MapOp>) -> Option<MapState>
        decreases ops.len(),
    {
        if ops.len() == 0 {
            Some(self)
        } else if self.accepts(ops.first()) {
            self.apply(ops.first()).run(ops.drop_first())
        } else {
            None
        }
    }

    /// Opening a view that is allowed keeps the state well formed.
    pub proof fn lemma_add_keeps_wf(self, offset: BufferAddress, size: Option<BufferSize>)
        requires
            self.wf(),
            self.add_allowed(offset, size),
        ensures
            self.after_add(offset, size).wf(),
    {
        let after = self.after_add(offset, size);
        let range = self.requested(offset, size);
        assert forall|i: int| 0 <= i < after.open.len() implies (#[trigger] after.open[i]).inside(
            after.mapping,
        ) by {
            if i < self.open.len() {
                assert(after.open[i] == self.open[i]);
            }
        }
        assert forall|i: int, j: int|
            0 <= i < after.open.len() && 0 <= j < after.open.len() && i != j implies (
        #[trigger] after.open[i]).apart_from(#[trigger] after.open[j]) by {
            if i < self.open.len() {
                assert(after.open[i] == self.open[i]);
            }
            if j < self.open.len() {
                assert(after.open[j] == self.open[j]);
            }
        }
    }

    /// Releasing a view leaves the other views as they were, in some order.
    pub proof fn lemma_without_is_removal(self, range: AddressRange)
        requires
            self.open.contains(range),
        ensures
            self.without(range).len() == self.open.len() - 1,
            self.without(range).to_multiset() == self.open.to_multiset().remove(range),
    {
        broadcast use vstd::multiset::group_multiset_axioms;

        self.open.index_of_first_ensures(range);
        let index = self.open.index_of_first(range).unwrap();
        let moved = self.open.update(index, self.open.last());
        let last = self.open.len() - 1;
        vstd::seq_lib::to_multiset_update(self.open, index, self.open.last());
        vstd::seq_lib::to_multiset_remove(moved, last);
        assert(moved.drop_last() =~= moved.remove(last));
        assert(moved[last] == self.open.last());
        self.open.to_multiset_ensures();
        assert(self.open.to_multiset().count(self.open.last()) > 0) by {
            assert(self.open.contains(self.open.last()));
        }
        assert(self.open.to_multiset().insert(self.open.last()).remove(range).remove(
            self.open.last(),
        ) =~= self.open.to_multiset().remove(range));
    }

    /// Releasing a view that is open keeps the state well formed.
    pub proof fn lemma_remove_keeps_wf(self, offset: BufferAddress, size: Option<BufferSize>)
        requires
            self.wf(),
            self.remove_allowed(offset, size),
        ensures
            self.after_remove(offset, size).wf(),
    {
        let range = self.requested(offset, size);
        let after = self.after_remove(offset, size);
        self.open.index_of_first_ensures(range);
        let index = self.open.index_of_first(range).unwrap();
        let last = self.open.len() - 1;
        assert forall|i: int| 0 <= i < after.open.len() implies (#[trigger] after.open[i]).inside(
            after.mapping,
        ) by {
            if i == index {
                assert(after.open[i] == self.open[last]);
            } else {
                assert(after.open[i] == self.open[i]);
            }
        }
        assert forall|i: int, j: int|
            0 <= i < after.open.len() && 0 <= j < after.open.len() && i != j implies (
        #[trigger] after.open[i]).apart_from(#[trigger] after.open[j]) by {
            let from_i = if i == index { last } else { i };
            let from_j = if j == index { last } else { j };
            assert(after.open[i] == self.open[from_i]);
            assert(after.open[j] == self.open[from_j]);
            assert(from_i != from_j);
        }
    }

    /// Beginning a mapping that is allowed keeps the state well formed.
    pub proof fn lemma_map_keeps_wf(self, range: AddressRange)
        requires
            self.wf(),
            self.map_allowed(range),
        ensures
            self.after_map(range).wf(),
    {
        let after = self.after_map(range);
        assert forall|i: int| 0 <= i < after.open.len() implies (#[trigger] after.open[i]).inside(
            after.mapping,
        ) by {
            assert(self.open[i].inside(range));
        }
        assert forall|i: int, j: int|
            0 <= i < after.open.len() && 0 <= j < after.open.len() && i != j implies (
        #[trigger] after.open[i]).apart_from(#[trigger] after.open[j]) by {
            assert(self.open[i].apart_from(self.open[j]));
        }
    }

    /// Whatever is mapped and unmapped and however views are opened and
    /// released, as long as each request is accepted the state stays well
    /// formed.
    pub proof fn lemma_run_keeps_wf(self, ops: Seq<MapOp>)
        requires
            self.wf(),
        ensures
            self.run(ops) matches Some(after) ==> after.wf(),
        decreases ops.len(),
    {
        if ops.len() > 0 && self.accepts(ops.first()) {
            match ops.first() {
                MapOp::Begin { range } => self.lemma_map_keeps_wf(range),
                MapOp::Add { offset, size } => self.lemma_add_keeps_wf(offset, size),
                MapOp::Remove { offset, size } => self.lemma_remove_keeps_wf(offset, size),
                MapOp::Reset => {},
            }
            self.apply(ops.first()).lemma_run_keeps_wf(ops.drop_first());
        }
    }

    /// In a well-formed state no address lies in two open views.
    pub proof fn lemma_open_views_share_no_address(self, i: int, j: int, address: int)
        requires
            self.wf(),
            0 <= i < self.open.len(),
            0 <= j < self.open.len(),
            i != j,
        ensures
            !(self.open[i].contains(address) && self.open[j].contains(address)),
    {
        self.open[i].lemma_apart_shares_no_address(self.open[j], address);
    }

    /// In a well-formed state every address of an open view is mapped.
    pub proof fn lemma_open_views_are_mapped(self, i: int, address: int)
        requires
            self.wf(),
            0 <= i < self.open.len(),
            self.open[i].contains(address),
        ensures
            self.mapping.contains(address),
    {
    }

    /// Whatever requests the record of a buffer has accepted since it was
    /// made, no address lies in two of the views that are open afterwards.
    pub proof fn lemma_views_never_overlap(
        total_size: BufferAddress,
        ops: Seq<MapOp>,
        i: int,
        j: int,
        address: int,
    )
        requires
            MapState::unmapped(total_size).run(ops) is Some,
            0 <= i < MapState::unmapped(total_size).run(ops).unwrap().open.len(),
            0 <= j < MapState::unmapped(total_size).run(ops).unwrap().open.len(),
            i != j,
        ensures
            ({
                let after = MapState::unmapped(total_size).run(ops).unwrap();
                !(after.open[i].contains(address) && after.open[j].contains(address))
            }),
    {
        let start = MapState::unmapped(total_size);
        start.lemma_run_keeps_wf(ops);
        start.run(ops).unwrap().lemma_open_views_share_no_address(i, j, address);
    }

    /// Whatever requests the record of a buffer has accepted since it was
    /// made, every address of a view that is open afterwards is mapped.
    pub proof fn lemma_views_stay_in_the_mapping(
        total_size: BufferAddress,
        ops: Seq<MapOp>,
        i: int,
        address: int,
    )
        requires
            MapState::unmapped(total_size).run(ops) is Some,
            0 <= i < MapState::unmapped(total_size).run(ops).unwrap().open.len(),
            MapState::unmapped(total_size).run(ops).unwrap().open[i].contains(address),
        ensures
            MapState::unmapped(total_size).run(ops).unwrap().mapping.contains(address),
    {
        let start = MapState::unmapped(total_size);
        start.lemma_run_keeps_wf(ops);
        start.run(ops).unwrap().lemma_open_views_are_mapped(i, address);
    }

    /// The buffer is unmapped exactly when no view is open: a run that ends
    /// with unmapping is accepted if and only if the run before it is and
    /// leaves no view open.
    pub proof fn lemma_unmap_needs_no_open_view(self, ops: Seq<MapOp>)
        ensures
            self.run(ops.push(MapOp::Reset)) is Some <==> (self.run(ops) matches Some(before)
                && before.open.len() == 0),
        decreases ops.len(),
    {
        let all = ops.push(MapOp::Reset);
        if ops.len() == 0 {
            assert(all.first() == MapOp::Reset);
            assert(all.drop_first() =~= Seq::<MapOp>::empty());
            assert(self.after_reset().run(all.drop_first()) == Some(self.after_reset()));
        } else {
            assert(all.first() == ops.first());
            assert(all.drop_first() =~= ops.drop_first().push(MapOp::Reset));
            if self.accepts(ops.first()) {
                self.apply(ops.first()).lemma_unmap_needs_no_open_view(ops.drop_first());
            }
        }
    }

    /// A view that meets an open view is refused for as long as that view is
    /// open, and is allowed again once it is released: if two views could
    /// each be opened and they meet, then with the first open the second is
    /// refused, the first can be released, and after that the second is
    /// allowed.
    pub proof fn lemma_refused_until_released(
        self,
        held_offset: BufferAddress,
        held_size: Option<BufferSize>,
        offset: BufferAddress,
        size: Option<BufferSize>,
    )
        requires
            self.add_allowed(held_offset, held_size),
            self.add_allowed(offset, size),
            !self.requested(held_offset, held_size).apart_from(self.requested(offset, size)),
        ensures
            !self.after_add(held_offset, held_size).add_allowed(offset, size),
            self.after_add(held_offset, held_size).remove_allowed(held_offset, held_size),
            self.after_add(held_offset, held_size).after_remove(held_offset, held_size)
                == self,
            self.after_add(held_offset, held_size).after_remove(
                held_offset,
                held_size,
            ).add_allowed(offset, size),
    {
        let held = self.requested(held_offset, held_size);
        let opened = self.after_add(held_offset, held_size);
        let last = opened.open.len() - 1;
        assert(opened.open[last] == held);
        assert(opened.requested(held_offset, held_size) == held);
        assert(opened.requested(offset, size) == self.requested(offset, size));
        opened.open.index_of_first_ensures(held);
        let index = opened.open.index_of_first(held).unwrap();
        if index < last {
            assert(opened.open[index] == self.open[index]);
        }
        assert(opened.without(held) =~= self.open);
    }

    /// A release that no open view matches is refused, and ends the run.
    pub proof fn lemma_unmatched_release_is_refused(
        self,
        offset: BufferAddress,
        size: Option<BufferSize>,
        rest: Seq<MapOp>,
    )
        requires
            forall|i: int|
                0 <= i < self.open.len() ==> !(self.open[i].start == offset && self.open[i].end
                    == self.end_of(offset, size)),
        ensures
            !self.remove_allowed(offset, size),
            self.run(seq![MapOp::Remove { offset, size }] + rest) is None,
    {
        let ops = seq![MapOp::Remove { offset, size }] + rest;
        assert(ops.first() == (MapOp::Remove { offset, size }));
        if self.end_of(offset, size) <= BufferAddress::MAX {
            let range = self.requested(offset, size);
            if self.open.contains(range) {
                let i = choose|i: int| 0 <= i < self.open.len() && self.open[i] == range;
                assert(self.open[i].start == offset);
            }
        }
    }

    /// Where every open view holds an address, a view that is in bounds, holds
    /// an address and is refused shares an address with one that is open.
    pub proof fn lemma_refusal_means_overlap(self, offset: BufferAddress, size: Option<BufferSize>)
        requires
            forall|i: int| 0 <= i < self.open.len() ==> !(#[trigger] self.open[i]).is_empty(),
            self.in_bounds(offset, size),
            !self.requested(offset, size).is_empty(),
            !self.add_allowed(offset, size),
        ensures
            exists|i: int, address: int|
                0 <= i < self.open.len() && #[trigger] self.open[i].contains(address)
                    && self.requested(offset, size).contains(address),
    {
        let range = self.requested(offset, size);
        let i = choose|i: int| 0 <= i < self.open.len() && !(#[trigger] self.open[i]).apart_from(range);
        self.open[i].lemma_not_apart_shares_address(range);
        let address = choose|address: int| self.open[i].contains(address) && range.contains(address);
        assert(self.open[i].contains(address) && range.contains(address));
    }
}

/// The record of what is mapped of one buffer and of the views that are open.
#[derive(Debug)]
pub struct MapContext {
    total_size: BufferAddress,
    initial_range: AddressRange,
    sub_ranges: Vec<AddressRange>,
}

impl View for MapContext {
    type V = MapState;

    closed spec fn view(&self) -> MapState {
        MapState {
            total_size: self.total_size,
            mapping: self.initial_range,
            open: self.sub_ranges@,
        }
    }
}

impl MapContext {
    /// Every record is well formed, whatever has been asked of it.
    #[verifier::type_invariant]
    spec fn well_formed(&self) -> bool {
        self@.wf()
    }

    /// The record of a buffer of `total_size` bytes: nothing mapped, no view.
    pub fn new(total_size: BufferAddress) -> (context: MapContext)
        ensures
            context@ == MapState::unmapped(total_size),
            context@.wf(),
    {
        MapContext {
            total_size,
            initial_range: AddressRange { start: 0, end: 0 },
            sub_ranges: Vec::new(),
        }
    }

    /// The size of the buffer.
    pub fn total_size(&self) -> (size: BufferAddress)
        ensures
            size == self@.total_size,
            self@.wf(),
    {
        proof {
            use_type_invariant(self);
        }
        self.total_size
    }

    /// What is mapped.
    pub fn initial_range(&self) -> (range: AddressRange)
        ensures
            range == self@.mapping,
            self@.wf(),
    {
        proof {
            use_type_invariant(self);
        }
        self.initial_range
    }

    /// How many views are open.
    pub fn open_count(&self) -> (count: usize)
        ensures
            count == self@.open.len(),
            self@.wf(),
    {
        proof {
            use_type_invariant(self);
        }
        self.sub_ranges.len()
    }

    /// Where a view at `offset` ends, unless that is beyond every address.
    fn resolve_end(&self, offset: BufferAddress, size: Option<BufferSize>) -> (end: Option<
        BufferAddress,
    >)
        ensures
            end matches Some(e) ==> e == self@.end_of(offset, size),
            end is None ==> self@.end_of(offset, size) > BufferAddress::MAX,
    {
        match size {
            Some(s) => offset.checked_add(s.get()),
            None => Some(self.initial_range.end),
        }
    }

    /// Tells whether the buffer may be unmapped, and if not, why.
    pub fn check_reset(&self) -> (verdict: Result<(), MapError>)
        ensures
            verdict is Ok <==> self@.reset_allowed(),
            verdict matches Err(e) ==> e == MapError::ViewsOpen,
            self@.wf(),
    {
        proof {
            use_type_invariant(self);
        }
        if self.sub_ranges.len() == 0 {
            Ok(())
        } else {
            Err(MapError::ViewsOpen)
        }
    }

    /// Forgets the mapping. No view may be open.
    pub fn reset(&mut self)
        requires
            old(self)@.reset_allowed(),
        ensures
            final(self)@ == old(self)@.after_reset(),
            final(self)@ == MapState::unmapped(old(self)@.total_size),
            final(self)@.wf(),
    {
        self.initial_range = AddressRange { start: 0, end: 0 };
        assert(self.sub_ranges@ =~= Seq::empty());
    }

    /// Tells whether the mapping of `range` may begin, and if not, why: the
    /// buffer has a mapping already, or a view is open that does not lie
    /// inside `range`.
    pub fn check_map(&self, range: AddressRange) -> (verdict: Result<(), MapError>)
        ensures
            verdict is Ok <==> self@.map_allowed(range),
            self@.mapping != AddressRange::nothing() ==> verdict == Err::<(), MapError>(
                MapError::AlreadyMapped,
            ),
            self@.mapping == AddressRange::nothing() ==> (verdict matches Err(e) ==> e
                == MapError::ViewsOpen),
            self@.wf(),
    {
        proof {
            use_type_invariant(self);
        }
        if !(self.initial_range.start == 0 && self.initial_range.end == 0) {
            return Err(MapError::AlreadyMapped);
        }
        let mut i: usize = 0;
        while i < self.sub_ranges.len()
            invariant
                i <= self.sub_ranges.len(),
                self@.wf(),
                self@.mapping == AddressRange::nothing(),
                forall|k: int| 0 <= k < i ==> (#[trigger] self@.open[k]).inside(range),
            decreases self.sub_ranges.len() - i,
        {
            let sub = self.sub_ranges[i];
            if !sub.is_inside(&range) {
                assert(!self@.open[i as int].inside(range));
                return Err(MapError::ViewsOpen);
            }
            i += 1;
        }
        Ok(())
    }

    /// Records that `range` is mapped. Nothing may be mapped yet, and what is
    /// open must lie inside `range`.
    pub fn map(&mut self, range: AddressRange)
        requires
            old(self)@.map_allowed(range),
        ensures
            final(self)@ == old(self)@.after_map(range),
            final(self)@.wf(),
    {
        proof {
            use_type_invariant(&*self);
            self@.lemma_map_keeps_wf(range);
        }
        self.initial_range = range;
    }

    /// Tells whether a view of `size` bytes at `offset` may be opened: where it
    /// would end, or why it is refused. Without a size the view runs to the
    /// end of the mapping.
    pub fn check_add(&self, offset: BufferAddress, size: Option<BufferSize>) -> (verdict: Result<
        BufferAddress,
        MapError,
    >)
        ensures
            verdict is Ok <==> self@.add_allowed(offset, size),
            verdict matches Ok(end) ==> end == self@.end_of(offset, size),
            !self@.in_bounds(offset, size) ==> verdict == Err::<BufferAddress, MapError>(
                MapError::OutOfBounds,
            ),
            self@.in_bounds(offset, size) ==> (verdict matches Err(e) ==> exists|i: int|
                self@.first_meeting(self@.requested(offset, size), i) && e == MapError::Intersects(
                    self@.open[i],
                )),
            self@.wf(),
    {
        proof {
            use_type_invariant(self);
        }
        let end = match self.resolve_end(offset, size) {
            Some(end) => end,
            None => {
                return Err(MapError::OutOfBounds);
            },
        };
        if !(self.initial_range.start <= offset && offset <= end && end <= self.initial_range.end) {
            return Err(MapError::OutOfBounds);
        }
        let range = AddressRange { start: offset, end };
        let mut i: usize = 0;
        while i < self.sub_ranges.len()
            invariant
                i <= self.sub_ranges.len(),
                self@.wf(),
                end == self@.end_of(offset, size),
                self@.in_bounds(offset, size),
                range == self@.requested(offset, size),
                forall|k: int| 0 <= k < i ==> (#[trigger] self@.open[k]).apart_from(range),
            decreases self.sub_ranges.len() - i,
        {
            let sub = self.sub_ranges[i];
            if !sub.is_apart_from(&range) {
                assert(self@.first_meeting(range, i as int));
                return Err(MapError::Intersects(sub));
            }
            i += 1;
        }
        Ok(end)
    }

    /// Opens a view of `size` bytes at `offset` and returns where it ends.
    /// Without a size the view runs to the end of the mapping.
    pub fn add(&mut self, offset: BufferAddress, size: Option<BufferSize>) -> (end: BufferAddress)
        requires
            old(self)@.add_allowed(offset, size),
        ensures
            final(self)@ == old(self)@.after_add(offset, size),
            end == old(self)@.end_of(offset, size),
            final(self)@.wf(),
            final(self)@.remove_allowed(offset, size),
    {
        let end = match size {
            Some(s) => offset + s.get(),
            None => self.initial_range.end,
        };
        proof {
            use_type_invariant(&*self);
            self@.lemma_add_keeps_wf(offset, size);
            let after = self@.after_add(offset, size);
            assert(after.open[after.open.len() - 1] == after.requested(offset, size));
        }
        let mut ranges: Vec<AddressRange> = Vec::new();
        core::mem::swap(&mut self.sub_ranges, &mut ranges);
        ranges.push(AddressRange { start: offset, end });
        core::mem::swap(&mut self.sub_ranges, &mut ranges);
        end
    }

    /// The place of the first open view that covers exactly the range of a
    /// view at `offset`.
    fn position(&self, offset: BufferAddress, size: Option<BufferSize>) -> (found: Option<usize>)
        ensures
            found is Some <==> self@.remove_allowed(offset, size),
            found matches Some(i) ==> i < self@.open.len() && Some(i as int)
                == self@.open.index_of_first(self@.requested(offset, size)),
    {
        let end = match self.resolve_end(offset, size) {
            Some(end) => end,
            None => {
                return None;
            },
        };
        let range = AddressRange { start: offset, end };
        let mut i: usize = 0;
        while i < self.sub_ranges.len()
            invariant
                i <= self.sub_ranges.len(),
                end == self@.end_of(offset, size),
                range == self@.requested(offset, size),
                forall|k: int| 0 <= k < i ==> self@.open[k] != range,
            decreases self.sub_ranges.len() - i,
        {
            let sub = self.sub_ranges[i];
            if sub.start == range.start && sub.end == range.end {
                proof {
                    assert(self@.open[i as int] == range);
                    self@.open.index_of_first_ensures(range);
                }
                return Some(i);
            }
            i += 1;
        }
        None
    }

    /// Tells whether a view of `size` bytes at `offset` may be released, and if
    /// not, why.
    pub fn check_remove(&self, offset: BufferAddress, size: Option<BufferSize>) -> (verdict:
        Result<(), MapError>)
        ensures
            verdict is Ok <==> self@.remove_allowed(offset, size),
            verdict matches Err(e) ==> e == MapError::NotOpen,
            self@.wf(),
    {
        proof {
            use_type_invariant(self);
        }
        match self.position(offset, size) {
            Some(_) => Ok(()),
            None => Err(MapError::NotOpen),
        }
    }

    /// Releases the view of `size` bytes at `offset`. The other views stay
    /// open.
    pub fn remove(&mut self, offset: BufferAddress, size: Option<BufferSize>)
        requires
            old(self)@.remove_allowed(offset, size),
        ensures
            final(self)@ == old(self)@.after_remove(offset, size),
            final(self)@.open.len() == old(self)@.open.len() - 1,
            final(self)@.open.to_multiset() == old(self)@.open.to_multiset().remove(
                old(self)@.requested(offset, size),
            ),
            final(self)@.wf(),
    {
        proof {
            use_type_invariant(&*self);
            self@.lemma_remove_keeps_wf(offset, size);
            self@.lemma_without_is_removal(self@.requested(offset, size));
        }
        match self.position(offset, size) {
            Some(index) => {
                let mut ranges: Vec<AddressRange> = Vec::new();
                core::mem::swap(&mut self.sub_ranges, &mut ranges);
                ranges.swap_remove(index);
                core::mem::swap(&mut self.sub_ranges, &mut ranges);
            },
            None => {},
        }
    }

    /// Opens a view of `size` bytes at `offset` and returns where it ends, or
    /// tells why the view is refused and leaves the record as it was.
    pub fn try_add(&mut self, offset: BufferAddress, size: Option<BufferSize>) -> (result: Result<
        BufferAddress,
        MapError,
    >)
        ensures
            result is Ok <==> old(self)@.add_allowed(offset, size),
            result matches Ok(end) ==> end == old(self)@.end_of(offset, size) && final(self)@
                == old(self)@.after_add(offset, size),
            result is Err ==> final(self)@ == old(self)@,
            !old(self)@.in_bounds(offset, size) ==> result == Err::<BufferAddress, MapError>(
                MapError::OutOfBounds,
            ),
            old(self)@.in_bounds(offset, size) ==> (result matches Err(e) ==> exists|i: int|
                old(self)@.first_meeting(old(self)@.requested(offset, size), i) && e
                    == MapError::Intersects(old(self)@.open[i])),
            final(self)@.wf(),
    {
        match self.check_add(offset, size) {
            Ok(_) => Ok(self.add(offset, size)),
            Err(e) => Err(e),
        }
    }

    /// Releases the view of `size` bytes at `offset`, or tells that no such
    /// view is open and leaves the record as it was.
    pub fn try_remove(&mut self, offset: BufferAddress, size: Option<BufferSize>) -> (result:
        Result<(), MapError>)
        ensures
            result is Ok <==> old(self)@.remove_allowed(offset, size),
            result is Ok ==> final(self)@ == old(self)@.after_remove(offset, size),
            result matches Err(e) ==> e == MapError::NotOpen && final(self)@ == old(self)@,
            final(self)@.wf(),
    {
        match self.check_remove(offset, size) {
            Ok(()) => {
                self.remove(offset, size);
                Ok(())
            },
            Err(e) => Err(e),
        }
    }

    /// Forgets the mapping, or tells that views are still open and leaves the
    /// record as it was.
    pub fn try_reset(&mut self) -> (result: Result<(), MapError>)
        ensures
            result is Ok <==> old(self)@.reset_allowed(),
            result is Ok ==> final(self)@ == MapState::unmapped(old(self)@.total_size),
            result matches Err(e) ==> e == MapError::ViewsOpen && final(self)@ == old(self)@,
            final(self)@.wf(),
    {
        match self.check_reset() {
            Ok(()) => {
                self.reset();
                Ok(())
            },
            Err(e) => Err(e),
        }
    }
}

} // verus!
