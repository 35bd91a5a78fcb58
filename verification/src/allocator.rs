//! The tracking allocator shim: what it asks of the wrapped allocator, what
//! it writes behind every block, and which events it reports.
//!
//! The shim never touches memory itself. An allocation or deallocation is a
//! sequence of steps. The first step, [`Allocator::allocate`] or
//! [`Allocator::dealloc`], takes the active group out of the thread's cell and
//! says what to ask of the wrapped allocator. The caller does the raw work:
//! it allocates or frees the augmented block and writes or reads the
//! metadata word. The pending operation then says which event to hand to the
//! tracker, and its last step puts the group back into the cell.

use crate::registry::AllocationRegistry;
use crate::token::AllocationGroupId;
use crate::token::CurrentGroup;
use vstd::prelude::*;

verus! {

broadcast use vstd::layout::layout_of_primitives;

/// The wrapped allocator of the operating system.
#[verifier::external_type_specification]
#[verifier::external_body]
pub struct ExSystem(std::alloc::System);

/// The value of `std::alloc::System`, a type with this one value.
#[verifier::external_body]
fn system_allocator() -> std::alloc::System {
    std::alloc::System
}

/// The size and alignment of a block of memory, in bytes.
#[derive(Clone, Copy, Debug, PartialEq, Eq)]
pub struct BlockLayout {
    /// The size of the block.
    pub size: usize,
    /// The alignment of the block's address.
    pub align: usize,
}

/// What the shim reports to the tracker.
#[derive(Clone, Copy, Debug, PartialEq, Eq)]
pub enum AllocationEvent {
    /// A block was requested while `group_id` was the active group.
    Allocated {
        /// The address of the block.
        addr: usize,
        /// The layout that the caller asked for.
        layout: BlockLayout,
        /// The group that was active when the block was requested.
        group_id: AllocationGroupId,
    },
    /// A block was released.
    Deallocated {
        /// The address of the block.
        addr: usize,
        /// The layout that the caller released the block with.
        layout: BlockLayout,
        /// The group that was active when the block was allocated.
        allocating_group_id: AllocationGroupId,
        /// The group that is active now that the block is released.
        deallocating_group_id: AllocationGroupId,
    },
}

/// The size of the metadata slot behind every block: one machine word.
pub open spec fn spec_metadata_size() -> nat {
    vstd::layout::size_of::<usize>()
}

/// The size of the metadata slot behind every block: one machine word.
pub fn metadata_size() -> (size: usize)
    ensures
        size == spec_metadata_size(),
        size * 8 == usize::BITS,
{
    core::mem::size_of::<usize>()
}

/// The metadata word that stands for `group`: the integer of the group's
/// identifier, and zero where there is no group.
pub open spec fn spec_metadata_word(group: Option<AllocationGroupId>) -> usize {
    match group {
        Some(id) => id@,
        None => 0,
    }
}

/// The group that the metadata word `word` stands for.
pub open spec fn spec_metadata_group(word: usize) -> Option<AllocationGroupId> {
    AllocationGroupId::spec_from_usize(word)
}

/// The layout of the block that is requested from the wrapped allocator for
/// a block of `layout`: one metadata slot larger, with the same alignment.
pub open spec fn spec_augmented_layout(layout: BlockLayout) -> BlockLayout
    recommends
        layout.size + spec_metadata_size() <= usize::MAX,
{
    BlockLayout { size: (layout.size + spec_metadata_size()) as usize, align: layout.align }
}

/// The metadata word that stands for `group`.
#[verifier::when_used_as_spec(spec_metadata_word)]
pub fn metadata_word(group: Option<AllocationGroupId>) -> (word: usize)
    ensures
        word == spec_metadata_word(group),
        spec_metadata_group(word) == group,
{
    match group {
        Some(id) => {
            proof {
                use_type_invariant(&id);
                AllocationGroupId::lemma_from_usize_of_view(id);
            }
            id.as_usize()
        },
        None => {
            proof {
                AllocationGroupId::lemma_from_usize(0);
            }
            0
        },
    }
}

/// The group that the metadata word `word` stands for.
#[verifier::when_used_as_spec(spec_metadata_group)]
pub fn metadata_group(word: usize) -> (group: Option<AllocationGroupId>)
    ensures
        group == spec_metadata_group(word),
        spec_metadata_word(group) == word,
{
    AllocationGroupId::from_usize(word)
}

/// An allocation that has begun: the thread's cell is empty, and the block
/// has yet to be requested from the wrapped allocator.
#[must_use]
pub struct PendingAllocation {
    /// The group that was taken out of the thread's cell.
    pub group_id: Option<AllocationGroupId>,
    /// The layout that the caller asked for.
    pub requested: BlockLayout,
    /// The layout to request from the wrapped allocator.
    pub augmented: BlockLayout,
}

/// A deallocation that has begun: the thread's cell is empty, and the block
/// has yet to be handed back to the wrapped allocator.
#[must_use]
pub struct PendingDeallocation {
    /// The group that was taken out of the thread's cell.
    pub group_id: Option<AllocationGroupId>,
    /// The layout that the caller releases the block with.
    pub requested: BlockLayout,
    /// The layout to hand back to the wrapped allocator.
    pub augmented: BlockLayout,
}

/// The allocation that begins when a block of `layout` is requested while
/// the thread's cell holds `group_id`. There is none where the block and its
/// metadata slot together are larger than any block can be.
pub open spec fn pending_allocation(
    group_id: Option<AllocationGroupId>,
    layout: BlockLayout,
) -> Option<PendingAllocation> {
    if layout.size + spec_metadata_size() > usize::MAX {
        None
    } else {
        Some(
            PendingAllocation {
                group_id,
                requested: layout,
                augmented: spec_augmented_layout(layout),
            },
        )
    }
}

/// The deallocation that begins when a block of `layout` is released while
/// the thread's cell holds `group_id`.
pub open spec fn pending_deallocation(
    group_id: Option<AllocationGroupId>,
    layout: BlockLayout,
) -> PendingDeallocation
    recommends
        layout.size + spec_metadata_size() <= usize::MAX,
{
    PendingDeallocation { group_id, requested: layout, augmented: spec_augmented_layout(layout) }
}

/// Tracking allocator implementation.
///
/// The shim wraps the allocator that does the real work. On top of it, every
/// block carries a trailing metadata word with the group that allocated it.
pub struct Allocator<A> {
    /// The wrapped allocator.
    pub inner: A,
}

impl<A> Allocator<A> {
    /// Creates a new `Allocator` that wraps another allocator.
    pub fn from_allocator(allocator: A) -> (shim: Self)
        ensures
            shim.inner == allocator,
    {
        Self { inner: allocator }
    }

    /// Begins the allocation of a block of `layout`.
    ///
    /// Takes the active group out of the thread's cell. Where the size of the
    /// block and the metadata slot together overflow, the group is put back
    /// and `None` is returned: the allocation fails without anything having
    /// been asked of the wrapped allocator. Otherwise the cell stays empty
    /// until [`PendingAllocation::finish`].
    pub fn allocate(&self, cell: &mut CurrentGroup, layout: BlockLayout) -> (pending: Option<
        PendingAllocation,
    >)
        ensures
            pending == pending_allocation(old(cell)@, layout),
            pending is None ==> final(cell)@ == old(cell)@,
            pending is Some ==> final(cell)@ is None,
    {
        let maybe_group_id = cell.take();

        match layout.size.checked_add(metadata_size()) {
            Some(augmented_size) => Some(
                PendingAllocation {
                    group_id: maybe_group_id,
                    requested: layout,
                    augmented: BlockLayout { size: augmented_size, align: layout.align },
                },
            ),
            None => {
                // if the requested allocation is so huge we can't add a few bytes to the
                // end, restore the allocation group id, and fail.
                cell.replace(maybe_group_id);
                None
            },
        }
    }

    /// Begins the deallocation of a block that was allocated with `layout`.
    ///
    /// Takes the active group out of the thread's cell, where it stays out
    /// until [`PendingDeallocation::finish`]. The block and its metadata
    /// slot together fit into the address space, as they did when the block
    /// was allocated.
    pub fn dealloc(&self, cell: &mut CurrentGroup, layout: BlockLayout) -> (pending:
        PendingDeallocation)
        requires
            layout.size + spec_metadata_size() <= usize::MAX,
        ensures
            pending == pending_deallocation(old(cell)@, layout),
            final(cell)@ is None,
    {
        let maybe_deallocating_group_id = cell.take();

        PendingDeallocation {
            group_id: maybe_deallocating_group_id,
            requested: layout,
            augmented: BlockLayout { size: layout.size + metadata_size(), align: layout.align },
        }
    }
}

impl Allocator<std::alloc::System> {
    /// Creates a new `Allocator` that wraps the system allocator.
    pub fn system() -> Allocator<std::alloc::System> {
        Self::from_allocator(system_allocator())
    }
}

impl Default for Allocator<std::alloc::System> {
    fn default() -> Self {
        Self::system()
    }
}

impl PendingAllocation {
    /// Where to write which metadata word, for the block that the wrapped
    /// allocator returned at `addr`: the offset from `addr`, which is the
    /// size that the caller asked for, and the word that stands for the group
    /// that was active. Nothing is written where the allocation failed,
    /// which is where `addr` is zero.
    pub open spec fn spec_metadata_write(&self, addr: usize) -> Option<(usize, usize)> {
        if addr == 0 {
            None
        } else {
            Some((self.requested.size, spec_metadata_word(self.group_id)))
        }
    }

    /// The event to report for the block at `addr`: an allocation by the
    /// group that was active, where there was one and `tracking` is on.
    pub open spec fn spec_event(&self, addr: usize, tracking: bool) -> Option<AllocationEvent> {
        match self.group_id {
            Some(group_id) if tracking => Some(
                AllocationEvent::Allocated { addr, layout: self.requested, group_id },
            ),
            _ => None,
        }
    }

    /// Where to write which metadata word, once the wrapped allocator has
    /// returned the block at `addr`, or zero for a failed allocation.
    ///
    /// The result is the offset from `addr` and the word to write there, or
    /// `None` if the allocation failed and there is nothing to write to.
    #[verifier::when_used_as_spec(spec_metadata_write)]
    pub fn metadata_write(&self, addr: usize) -> (write: Option<(usize, usize)>)
        ensures
            write == self.spec_metadata_write(addr),
    {
        if addr == 0 {
            None
        } else {
            Some((self.requested.size, metadata_word(self.group_id)))
        }
    }

    /// The event to hand to the tracker for the block at `addr`, if any.
    ///
    /// An event is due if the registry holds a tracker, tracking is enabled,
    /// and a group was active when the allocation began.
    pub fn event<T>(&self, addr: usize, registry: &AllocationRegistry<T>) -> (event: Option<
        AllocationEvent,
    >)
        ensures
            event == self.spec_event(addr, registry.tracking()),
    {
        if registry.is_tracking() {
            if let Some(group_id) = self.group_id {
                return Some(AllocationEvent::Allocated { addr, layout: self.requested, group_id });
            }
        }
        None
    }

    /// Ends the allocation: the group that was active is back in the cell.
    pub fn finish(self, cell: &mut CurrentGroup)
        ensures
            final(cell)@ == self.group_id,
    {
        cell.replace(self.group_id);
    }
}

impl PendingDeallocation {
    /// The event to report for the block at `addr` whose metadata word was
    /// `metadata`: a deallocation, with the group that the word stands for
    /// and the group that was active, where both are there and `tracking` is
    /// on.
    pub open spec fn spec_event(&self, addr: usize, metadata: usize, tracking: bool) -> Option<
        AllocationEvent,
    > {
        match (spec_metadata_group(metadata), self.group_id) {
            (Some(allocating_group_id), Some(deallocating_group_id)) if tracking => Some(
                AllocationEvent::Deallocated {
                    addr,
                    layout: self.requested,
                    allocating_group_id,
                    deallocating_group_id,
                },
            ),
            _ => None,
        }
    }

    /// The offset from the block's address at which its metadata word lies:
    /// the size that the block was allocated with.
    pub fn metadata_offset(&self) -> (offset: usize)
        ensures
            offset == self.requested.size,
    {
        self.requested.size
    }

    /// The event to hand to the tracker for the block at `addr`, if any.
    /// `metadata` is the word that was read from the block's metadata slot.
    ///
    /// An event is due if the registry holds a tracker, tracking is enabled,
    /// the block was allocated under a group, and a group is active now. A
    /// block without an allocating group was allocated while the active group
    /// was taken out of the cell, by whoever processes the events.
    pub fn event<T>(&self, addr: usize, metadata: usize, registry: &AllocationRegistry<T>) -> (event:
        Option<AllocationEvent>)
        ensures
            event == self.spec_event(addr, metadata, registry.tracking()),
    {
        if registry.is_tracking() {
            if let Some(allocating_group_id) = metadata_group(metadata) {
                if let Some(deallocating_group_id) = self.group_id {
                    return Some(
                        AllocationEvent::Deallocated {
                            addr,
                            layout: self.requested,
                            allocating_group_id,
                            deallocating_group_id,
                        },
                    );
                }
            }
        }
        None
    }

    /// Ends the deallocation: the group that was active is back in the cell.
    pub fn finish(self, cell: &mut CurrentGroup)
        ensures
            final(cell)@ == self.group_id,
    {
        cell.replace(self.group_id);
    }
}

/// A group is read back from the metadata word that stands for it.
pub proof fn lemma_metadata_round_trip(group_id: Option<AllocationGroupId>)
    requires
        group_id matches Some(id) ==> id.is_valid(),
    ensures
        spec_metadata_group(spec_metadata_word(group_id)) == group_id,
{
    match group_id {
        Some(id) => AllocationGroupId::lemma_from_usize_of_view(id),
        None => AllocationGroupId::lemma_from_usize(0),
    }
}

/// An allocation that is made while a group is active, a tracker is set and
/// tracking is enabled is reported once, as an allocation by that group.
pub proof fn lemma_allocation_reports_active_group(
    group_id: AllocationGroupId,
    layout: BlockLayout,
    addr: usize,
)
    requires
        layout.size + spec_metadata_size() <= usize::MAX,
    ensures
        ({
            &&& pending_allocation(Some(group_id), layout) matches Some(allocation)
            &&& allocation.spec_event(addr, true) == Some(
                AllocationEvent::Allocated { addr, layout, group_id },
            )
        }),
{
}

/// The deallocation of a block is reported with the group that was active
/// when the block was allocated, whichever group is active when it is
/// released, and with that group as the one that released it.
pub proof fn lemma_deallocation_reports_allocating_group(
    allocating_group_id: AllocationGroupId,
    deallocating_group_id: AllocationGroupId,
    layout: BlockLayout,
    addr: usize,
)
    requires
        allocating_group_id.is_valid(),
        layout.size + spec_metadata_size() <= usize::MAX,
        addr != 0,
    ensures
        ({
            &&& pending_allocation(Some(allocating_group_id), layout) matches Some(allocation)
            &&& allocation.spec_metadata_write(addr) matches Some((offset, metadata))
            &&& pending_deallocation(Some(deallocating_group_id), layout).spec_event(
                addr,
                metadata,
                true,
            ) == Some(
                AllocationEvent::Deallocated {
                    addr,
                    layout,
                    allocating_group_id,
                    deallocating_group_id,
                },
            )
        }),
{
    lemma_metadata_round_trip(Some(allocating_group_id));
}

/// An allocation that is made while no group is active is not reported, and
/// neither is its deallocation, whether or not a group is active by then.
pub proof fn lemma_allocation_without_group_is_silent(
    deallocating_group_id: Option<AllocationGroupId>,
    layout: BlockLayout,
    addr: usize,
    tracking: bool,
)
    requires
        layout.size + spec_metadata_size() <= usize::MAX,
        addr != 0,
    ensures
        ({
            &&& pending_allocation(None, layout) matches Some(allocation)
            &&& allocation.spec_event(addr, tracking) is None
            &&& allocation.spec_metadata_write(addr) matches Some((offset, metadata))
            &&& pending_deallocation(deallocating_group_id, layout).spec_event(
                addr,
                metadata,
                tracking,
            ) is None
        }),
{
    lemma_metadata_round_trip(None);
}

/// While tracking is off nothing is reported, and the metadata word that is
/// written behind a block is the same as with tracking on.
pub proof fn lemma_disabled_tracking_is_silent(
    allocation: PendingAllocation,
    deallocation: PendingDeallocation,
    addr: usize,
    metadata: usize,
)
    ensures
        allocation.spec_event(addr, false) is None,
        deallocation.spec_event(addr, metadata, false) is None,
{
}

} // verus!
