use std::cell::RefCell;
use std::collections::HashMap;

use tracking_allocator::allocator::metadata_group;
use tracking_allocator::allocator::metadata_size;
use tracking_allocator::allocator::metadata_word;
use tracking_allocator::allocator::AllocationEvent;
use tracking_allocator::allocator::Allocator;
use tracking_allocator::allocator::BlockLayout;
use tracking_allocator::registry::AllocationRegistry;
use tracking_allocator::token::AllocationGroupId;
use tracking_allocator::token::AllocationGroupToken;
use tracking_allocator::token::CurrentGroup;
use tracking_allocator::token::GroupIdCounter;

/// A tracker that keeps every event it is handed.
struct Recorder {
    events: RefCell<Vec<AllocationEvent>>,
}

impl Recorder {
    fn new() -> Recorder {
        Recorder { events: RefCell::new(Vec::new()) }
    }

    fn record(&self, event: AllocationEvent) {
        self.events.borrow_mut().push(event);
    }
}

/// Memory that hands out addresses and keeps the metadata words written to it.
struct Heap {
    next: usize,
    blocks: HashMap<usize, BlockLayout>,
    words: HashMap<usize, usize>,
}

impl Heap {
    fn new() -> Heap {
        Heap { next: 0x1000, blocks: HashMap::new(), words: HashMap::new() }
    }
}

/// A thread with the tracking allocator installed over `Heap`.
struct Process {
    shim: Allocator<()>,
    cell: CurrentGroup,
    registry: AllocationRegistry<Recorder>,
    heap: Heap,
}

impl Process {
    fn new() -> Process {
        let mut registry = AllocationRegistry::new();
        assert!(registry.set_global_tracker(Recorder::new()).is_ok());
        registry.enable_tracking();
        Process {
            shim: Allocator::from_allocator(()),
            cell: CurrentGroup::new(),
            registry,
            heap: Heap::new(),
        }
    }

    fn allocate(&mut self, layout: BlockLayout) -> usize {
        let pending = match self.shim.allocate(&mut self.cell, layout) {
            Some(pending) => pending,
            None => return 0,
        };
        assert_eq!(self.cell.get(), None);
        let addr = self.heap.next;
        self.heap.next += 0x1000;
        self.heap.blocks.insert(addr, pending.augmented);
        if let Some((offset, word)) = pending.metadata_write(addr) {
            self.heap.words.insert(addr + offset, word);
        }
        if let Some(event) = pending.event(addr, &self.registry) {
            self.registry.get_global_tracker().expect("an event needs a tracker").record(event);
        }
        pending.finish(&mut self.cell);
        addr
    }

    fn free(&mut self, addr: usize, layout: BlockLayout) {
        let pending = self.shim.dealloc(&mut self.cell, layout);
        assert_eq!(self.cell.get(), None);
        let word = self.heap.words.remove(&(addr + pending.metadata_offset()));
        let word = word.expect("the block carries a metadata word");
        assert_eq!(self.heap.blocks.remove(&addr), Some(pending.augmented));
        if let Some(event) = pending.event(addr, word, &self.registry) {
            self.registry.get_global_tracker().expect("an event needs a tracker").record(event);
        }
        pending.finish(&mut self.cell);
    }

    /// The events since the last call.
    fn events(&mut self) -> Vec<AllocationEvent> {
        // The tracker is handed out only while tracking is enabled.
        let enabled = self.registry.is_tracking();
        self.registry.enable_tracking();
        let events = {
            let tracker = self.registry.get_global_tracker().expect("a tracker is set");
            tracker.events.borrow_mut().drain(..).collect()
        };
        if !enabled {
            self.registry.disable_tracking();
        }
        events
    }
}

fn layout(size: usize, align: usize) -> BlockLayout {
    BlockLayout { size, align }
}

fn group(raw: usize) -> AllocationGroupId {
    AllocationGroupId::from_usize(raw).expect("a non-zero integer")
}

fn tracking_registry() -> AllocationRegistry<()> {
    let mut registry = AllocationRegistry::new();
    assert!(registry.set_global_tracker(()).is_ok());
    registry.enable_tracking();
    registry
}

#[test]
fn metadata_slot_is_one_machine_word() {
    assert_eq!(metadata_size(), std::mem::size_of::<usize>());
}

#[test]
fn metadata_word_of_no_group_is_zero() {
    assert_eq!(metadata_word(None), 0);
    assert_eq!(metadata_group(0), None);
}

#[test]
fn metadata_word_of_group_is_its_integer() {
    assert_eq!(metadata_word(Some(AllocationGroupId::root())), 1);
    assert_eq!(metadata_word(Some(group(77))), 77);
    assert_eq!(metadata_word(Some(group(usize::MAX))), usize::MAX);
}

#[test]
fn metadata_word_round_trips() {
    for tag in [None, Some(group(1)), Some(group(2)), Some(group(1 << 20)), Some(group(usize::MAX))]
    {
        assert_eq!(metadata_group(metadata_word(tag)), tag);
    }
}

#[test]
fn from_allocator_wraps_the_allocator() {
    let shim = Allocator::from_allocator(17u8);
    assert_eq!(shim.inner, 17u8);
}

#[test]
fn system_wraps_the_system_allocator() {
    let shim = Allocator::system();
    let _: std::alloc::System = shim.inner;
}

#[test]
fn allocate_takes_the_group_and_augments_the_layout() {
    let shim = Allocator::from_allocator(());
    let mut cell = CurrentGroup::new();
    cell.replace(Some(group(5)));

    let pending = shim.allocate(&mut cell, layout(24, 8)).expect("24 bytes fit");
    assert_eq!(cell.get(), None);
    assert_eq!(pending.group_id, Some(group(5)));
    assert_eq!(pending.requested, layout(24, 8));
    assert_eq!(pending.augmented, layout(24 + std::mem::size_of::<usize>(), 8));

    pending.finish(&mut cell);
    assert_eq!(cell.get(), Some(group(5)));
}

#[test]
fn allocate_of_zero_bytes_asks_for_the_metadata_slot() {
    let shim = Allocator::from_allocator(());
    let mut cell = CurrentGroup::new();
    let pending = shim.allocate(&mut cell, layout(0, 1)).unwrap();
    assert_eq!(pending.augmented, layout(std::mem::size_of::<usize>(), 1));
    assert_eq!(pending.metadata_write(0x40), Some((0, 1)));
}

#[test]
fn allocate_fails_when_augmented_size_overflows() {
    let shim = Allocator::from_allocator(());
    let mut cell = CurrentGroup::new();
    cell.replace(Some(group(5)));
    let slot = std::mem::size_of::<usize>();

    for size in [usize::MAX, usize::MAX - 1, usize::MAX - slot + 1] {
        assert!(shim.allocate(&mut cell, layout(size, 8)).is_none());
        assert_eq!(cell.get(), Some(group(5)));
    }
}

#[test]
fn allocate_succeeds_at_the_largest_augmented_size() {
    let shim = Allocator::from_allocator(());
    let mut cell = CurrentGroup::new();
    let slot = std::mem::size_of::<usize>();

    let pending = shim.allocate(&mut cell, layout(usize::MAX - slot, 16)).expect("just fits");
    assert_eq!(pending.augmented, layout(usize::MAX, 16));
    assert_eq!(cell.get(), None);
    pending.finish(&mut cell);
    assert_eq!(cell.get(), Some(AllocationGroupId::root()));
}

#[test]
fn allocate_on_empty_cell_carries_no_group() {
    let shim = Allocator::from_allocator(());
    let mut cell = CurrentGroup::new();
    cell.take();
    let pending = shim.allocate(&mut cell, layout(8, 8)).unwrap();
    assert_eq!(pending.group_id, None);
    assert_eq!(pending.metadata_write(0x100), Some((8, 0)));
    assert_eq!(pending.event(0x100, &tracking_registry()), None);
    pending.finish(&mut cell);
    assert_eq!(cell.get(), None);
}

#[test]
fn metadata_is_written_behind_the_requested_bytes() {
    let shim = Allocator::from_allocator(());
    let mut cell = CurrentGroup::new();
    cell.replace(Some(group(9)));
    let pending = shim.allocate(&mut cell, layout(100, 4)).unwrap();
    assert_eq!(pending.metadata_write(0x2000), Some((100, 9)));
}

#[test]
fn nothing_is_written_for_a_failed_allocation() {
    let shim = Allocator::from_allocator(());
    let mut cell = CurrentGroup::new();
    let pending = shim.allocate(&mut cell, layout(100, 4)).unwrap();
    assert_eq!(pending.metadata_write(0), None);
}

#[test]
fn allocation_under_a_group_is_reported_with_that_group() {
    let shim = Allocator::from_allocator(());
    let mut cell = CurrentGroup::new();
    cell.replace(Some(group(9)));
    let pending = shim.allocate(&mut cell, layout(100, 4)).unwrap();
    assert_eq!(
        pending.event(0x2000, &tracking_registry()),
        Some(AllocationEvent::Allocated { addr: 0x2000, layout: layout(100, 4), group_id: group(9) })
    );
}

#[test]
fn allocation_is_not_reported_without_tracker() {
    let shim = Allocator::from_allocator(());
    let mut cell = CurrentGroup::new();
    let pending = shim.allocate(&mut cell, layout(100, 4)).unwrap();

    let mut registry: AllocationRegistry<()> = AllocationRegistry::new();
    assert_eq!(pending.event(0x2000, &registry), None);
    registry.enable_tracking();
    assert_eq!(pending.event(0x2000, &registry), None);
}

#[test]
fn allocation_is_not_reported_while_tracking_is_disabled() {
    let shim = Allocator::from_allocator(());
    let mut cell = CurrentGroup::new();
    let pending = shim.allocate(&mut cell, layout(100, 4)).unwrap();

    let mut registry = tracking_registry();
    registry.disable_tracking();
    assert_eq!(pending.event(0x2000, &registry), None);
    registry.enable_tracking();
    assert!(pending.event(0x2000, &registry).is_some());
}

#[test]
fn failed_allocation_is_reported_with_address_zero() {
    let shim = Allocator::from_allocator(());
    let mut cell = CurrentGroup::new();
    let pending = shim.allocate(&mut cell, layout(100, 4)).unwrap();
    assert_eq!(
        pending.event(0, &tracking_registry()),
        Some(AllocationEvent::Allocated {
            addr: 0,
            layout: layout(100, 4),
            group_id: AllocationGroupId::root(),
        })
    );
}

#[test]
fn dealloc_takes_the_group_and_augments_the_layout() {
    let shim = Allocator::from_allocator(());
    let mut cell = CurrentGroup::new();
    cell.replace(Some(group(3)));

    let pending = shim.dealloc(&mut cell, layout(40, 16));
    assert_eq!(cell.get(), None);
    assert_eq!(pending.group_id, Some(group(3)));
    assert_eq!(pending.requested, layout(40, 16));
    assert_eq!(pending.augmented, layout(40 + std::mem::size_of::<usize>(), 16));
    assert_eq!(pending.metadata_offset(), 40);

    pending.finish(&mut cell);
    assert_eq!(cell.get(), Some(group(3)));
}

#[test]
fn deallocation_reports_allocating_and_deallocating_group() {
    let shim = Allocator::from_allocator(());
    let mut cell = CurrentGroup::new();
    cell.replace(Some(group(3)));
    let pending = shim.dealloc(&mut cell, layout(40, 16));
    assert_eq!(
        pending.event(0x3000, 12, &tracking_registry()),
        Some(AllocationEvent::Deallocated {
            addr: 0x3000,
            layout: layout(40, 16),
            allocating_group_id: group(12),
            deallocating_group_id: group(3),
        })
    );
}

#[test]
fn deallocation_without_allocating_group_is_not_reported() {
    let shim = Allocator::from_allocator(());
    let mut cell = CurrentGroup::new();
    cell.replace(Some(group(3)));
    let pending = shim.dealloc(&mut cell, layout(40, 16));
    assert_eq!(pending.event(0x3000, 0, &tracking_registry()), None);
}

#[test]
fn deallocation_without_deallocating_group_is_not_reported() {
    let shim = Allocator::from_allocator(());
    let mut cell = CurrentGroup::new();
    cell.take();
    let pending = shim.dealloc(&mut cell, layout(40, 16));
    assert_eq!(pending.event(0x3000, 12, &tracking_registry()), None);
    pending.finish(&mut cell);
    assert_eq!(cell.get(), None);
}

#[test]
fn deallocation_is_not_reported_without_tracking() {
    let shim = Allocator::from_allocator(());
    let mut cell = CurrentGroup::new();
    let pending = shim.dealloc(&mut cell, layout(40, 16));

    let mut registry: AllocationRegistry<()> = AllocationRegistry::new();
    assert_eq!(pending.event(0x3000, 12, &registry), None);
    assert!(registry.set_global_tracker(()).is_ok());
    assert_eq!(pending.event(0x3000, 12, &registry), None);
    registry.enable_tracking();
    assert!(pending.event(0x3000, 12, &registry).is_some());
    registry.disable_tracking();
    assert_eq!(pending.event(0x3000, 12, &registry), None);
}

#[test]
fn allocation_then_free_reports_both_groups() {
    let mut counter = GroupIdCounter::new();
    let mut process = Process::new();
    let a = AllocationGroupToken::register(&mut counter).unwrap();
    let a_id = a.id();

    let guard = a.enter(&mut process.cell);
    let x = process.allocate(layout(64, 8));
    assert_eq!(
        process.events(),
        vec![AllocationEvent::Allocated { addr: x, layout: layout(64, 8), group_id: a_id }]
    );
    let _ = guard.exit(&mut process.cell);

    // No group is active while the caller has taken it out of the cell.
    let suspended = process.cell.take();
    let y = process.allocate(layout(32, 8));
    process.cell.replace(suspended);
    assert_eq!(process.events(), vec![]);

    process.free(x, layout(64, 8));
    assert_eq!(
        process.events(),
        vec![AllocationEvent::Deallocated {
            addr: x,
            layout: layout(64, 8),
            allocating_group_id: a_id,
            deallocating_group_id: AllocationGroupId::root(),
        }]
    );

    process.free(y, layout(32, 8));
    assert_eq!(process.events(), vec![]);
    assert!(process.heap.blocks.is_empty());
    assert!(process.heap.words.is_empty());
}

#[test]
fn allocation_under_root_is_reported_with_root() {
    let mut process = Process::new();
    let x = process.allocate(layout(16, 8));
    process.free(x, layout(16, 8));
    assert_eq!(
        process.events(),
        vec![
            AllocationEvent::Allocated {
                addr: x,
                layout: layout(16, 8),
                group_id: AllocationGroupId::root(),
            },
            AllocationEvent::Deallocated {
                addr: x,
                layout: layout(16, 8),
                allocating_group_id: AllocationGroupId::root(),
                deallocating_group_id: AllocationGroupId::root(),
            },
        ]
    );
}

#[test]
fn free_under_another_group_keeps_the_allocating_group() {
    let mut counter = GroupIdCounter::new();
    let mut process = Process::new();
    let a = AllocationGroupToken::register(&mut counter).unwrap();
    let b = AllocationGroupToken::register(&mut counter).unwrap();
    let (a_id, b_id) = (a.id(), b.id());

    let guard = a.enter(&mut process.cell);
    let x = process.allocate(layout(48, 16));
    let _ = guard.exit(&mut process.cell);
    let _ = process.events();

    let guard = b.enter(&mut process.cell);
    process.free(x, layout(48, 16));
    let _ = guard.exit(&mut process.cell);
    assert_eq!(
        process.events(),
        vec![AllocationEvent::Deallocated {
            addr: x,
            layout: layout(48, 16),
            allocating_group_id: a_id,
            deallocating_group_id: b_id,
        }]
    );
}

#[test]
fn allocation_without_group_stays_silent_under_an_active_group() {
    let mut counter = GroupIdCounter::new();
    let mut process = Process::new();
    let a = AllocationGroupToken::register(&mut counter).unwrap();

    let suspended = process.cell.take();
    let y = process.allocate(layout(32, 8));
    process.cell.replace(suspended);

    let guard = a.enter(&mut process.cell);
    process.free(y, layout(32, 8));
    let _ = guard.exit(&mut process.cell);
    assert_eq!(process.events(), vec![]);
}

#[test]
fn disabling_tracking_stops_events_and_keeps_metadata() {
    let mut counter = GroupIdCounter::new();
    let mut process = Process::new();
    let a = AllocationGroupToken::register(&mut counter).unwrap();
    let a_id = a.id();
    let guard = a.enter(&mut process.cell);

    let x = process.allocate(layout(64, 8));
    assert_eq!(process.events().len(), 1);

    process.registry.disable_tracking();
    let y = process.allocate(layout(24, 8));
    assert_eq!(process.events(), vec![]);
    assert_eq!(process.heap.words.get(&(y + 24)), Some(&a_id.as_usize()));

    // A block from before tracking was disabled is released without event.
    process.free(x, layout(64, 8));
    assert_eq!(process.events(), vec![]);

    process.registry.enable_tracking();
    let _ = guard.exit(&mut process.cell);
    process.free(y, layout(24, 8));
    assert_eq!(
        process.events(),
        vec![AllocationEvent::Deallocated {
            addr: y,
            layout: layout(24, 8),
            allocating_group_id: a_id,
            deallocating_group_id: AllocationGroupId::root(),
        }]
    );
}

#[test]
fn oversized_request_fails_and_leaves_the_allocator_usable() {
    let mut process = Process::new();
    assert_eq!(process.allocate(layout(usize::MAX - 3, 8)), 0);
    assert_eq!(process.cell.get(), Some(AllocationGroupId::root()));
    assert_eq!(process.events(), vec![]);

    let x = process.allocate(layout(8, 8));
    assert_ne!(x, 0);
    assert_eq!(process.events().len(), 1);
}
