//! Allocation group identifiers, the counter that issues them, the per-thread
//! cell that holds the active group, and the idle/active state machine of
//! tokens and guards.

use vstd::prelude::*;

verus! {

/// The identifier that uniquely identifies an allocation group.
///
/// An identifier is a non-zero integer. Zero is kept free so that "no group"
/// fits into the same machine word as an identifier.
#[derive(Clone, Copy, Debug, PartialEq, Eq, Hash, Structural)]
pub struct AllocationGroupId {
    raw: usize,
}

impl View for AllocationGroupId {
    type V = usize;

    /// The integer that stands for this identifier.
    closed spec fn view(&self) -> usize {
        self.raw
    }
}

impl AllocationGroupId {
    /// An identifier is valid when its integer is not zero. Every identifier
    /// that executable code can hold is valid.
    #[verifier::type_invariant]
    pub open spec fn is_valid(&self) -> bool {
        self@ != 0
    }

    /// The root group: the identifier with the integer 1.
    pub closed spec fn spec_root() -> AllocationGroupId {
        AllocationGroupId { raw: 1 }
    }

    /// The identifier with the integer `raw`, or none for zero.
    pub closed spec fn spec_from_usize(raw: usize) -> Option<AllocationGroupId> {
        if raw == 0 {
            None
        } else {
            Some(AllocationGroupId { raw })
        }
    }

    /// The group ID used for allocations which are not made within a registered allocation group.
    #[verifier::when_used_as_spec(spec_root)]
    pub fn root() -> (id: AllocationGroupId)
        ensures
            id == Self::spec_root(),
            id@ == 1,
    {
        AllocationGroupId { raw: 1 }
    }

    /// The integer that stands for this identifier.
    pub fn as_usize(&self) -> (raw: usize)
        ensures
            raw == self@,
            raw != 0,
    {
        proof {
            use_type_invariant(self);
        }
        self.raw
    }

    /// The identifier that `raw` stands for. Zero stands for none.
    #[verifier::when_used_as_spec(spec_from_usize)]
    pub fn from_usize(raw: usize) -> (id: Option<AllocationGroupId>)
        ensures
            id == Self::spec_from_usize(raw),
            raw == 0 <==> id is None,
            id matches Some(group) ==> group@ == raw,
    {
        if raw == 0 {
            None
        } else {
            Some(AllocationGroupId { raw })
        }
    }

    /// Reading an identifier back from its integer gives the identifier:
    /// zero gives none, any other integer gives the one valid identifier
    /// that stands for it.
    pub proof fn lemma_from_usize(raw: usize)
        ensures
            raw == 0 <==> Self::spec_from_usize(raw) is None,
            Self::spec_from_usize(raw) matches Some(id) ==> id@ == raw && id.is_valid(),
    {
    }

    /// A valid identifier is read back from its own integer.
    pub proof fn lemma_from_usize_of_view(id: AllocationGroupId)
        requires
            id.is_valid(),
        ensures
            Self::spec_from_usize(id@) == Some(id),
    {
    }
}

/// The shared counter that issues allocation group identifiers.
///
/// The counter keeps the value it will reserve next and, apart from it, the
/// highest identifier issued so far: the watermark. A reserved value is issued
/// only if it lies above the watermark, so a counter that has wrapped around
/// can never issue an identifier a second time.
pub struct GroupIdCounter {
    next: usize,
    highest: usize,
}

impl GroupIdCounter {
    /// The watermark is at least the root identifier, and as long as it is
    /// below the largest integer the next value to reserve is the one above it.
    #[verifier::type_invariant]
    closed spec fn well_formed(&self) -> bool {
        &&& self.highest >= 1
        &&& self.highest < usize::MAX ==> self.next == self.highest + 1
    }

    /// The highest identifier issued so far, as an integer. Before the first
    /// registration it is the root identifier's.
    pub closed spec fn watermark(&self) -> usize {
        self.highest
    }

    /// Whether the identifier space is used up. From then on no registration
    /// succeeds.
    pub open spec fn exhausted(&self) -> bool {
        self.watermark() == usize::MAX
    }

    /// The integer of the identifier that a counter with the given watermark
    /// issues next, or none if the identifier space is used up.
    pub open spec fn issue(watermark: usize) -> Option<usize> {
        if watermark < usize::MAX {
            Some((watermark + 1) as usize)
        } else {
            None
        }
    }

    /// The watermark of a counter after one more registration.
    pub open spec fn advance(watermark: usize) -> usize {
        match Self::issue(watermark) {
            Some(raw) => raw,
            None => watermark,
        }
    }

    /// A fresh counter: nothing but the root identifier is taken.
    pub fn new() -> (counter: GroupIdCounter)
        ensures
            counter.watermark() == 1,
    {
        GroupIdCounter { next: 2, highest: 1 }
    }

    /// A counter on which every identifier up to `highest` counts as taken.
    pub fn continuing_after(highest: AllocationGroupId) -> (counter: GroupIdCounter)
        ensures
            counter.watermark() == highest@,
    {
        let watermark = highest.as_usize();
        GroupIdCounter { next: watermark.wrapping_add(1), highest: watermark }
    }
}

impl AllocationGroupId {
    /// Reserves the next identifier of `counter`.
    ///
    /// The reserved value is issued if it lies above the watermark, which
    /// then rises to it. Otherwise the identifier space is used up: this call
    /// and every later one returns `None`.
    pub fn next(counter: &mut GroupIdCounter) -> (id: Option<AllocationGroupId>)
        ensures
            final(counter).watermark() == GroupIdCounter::advance(old(counter).watermark()),
            old(counter).exhausted() <==> id is None,
            id matches Some(group) ==> Some(group@) == GroupIdCounter::issue(
                old(counter).watermark(),
            ) && group != AllocationGroupId::spec_root(),
    {
        proof {
            use_type_invariant(&*counter);
        }
        let group_id: usize = counter.next;
        let highest_group_id: usize = counter.highest;
        if group_id > highest_group_id {
            *counter = GroupIdCounter { next: group_id.wrapping_add(1), highest: group_id };
            Some(AllocationGroupId { raw: group_id })
        } else {
            *counter = GroupIdCounter {
                next: group_id.wrapping_add(1),
                highest: highest_group_id,
            };
            None
        }
    }
}

/// The cell that holds the allocation group active on one thread.
///
/// Every thread owns exactly one cell. It starts out with the root group. It
/// is empty only while the allocator shim, or a caller of
/// [`with_suspended_allocation_group_id`], has taken the group out for the
/// duration of its work.
pub struct CurrentGroup {
    current: Option<AllocationGroupId>,
}

impl View for CurrentGroup {
    type V = Option<AllocationGroupId>;

    /// The group in the cell, if there is one.
    closed spec fn view(&self) -> Option<AllocationGroupId> {
        self.current
    }
}

impl CurrentGroup {
    /// The cell of a new thread: the root group is active.
    pub fn new() -> (cell: CurrentGroup)
        ensures
            cell@ == Some(AllocationGroupId::spec_root()),
    {
        CurrentGroup { current: Some(AllocationGroupId::root()) }
    }

    /// The group in the cell, if there is one.
    pub fn get(&self) -> (current: Option<AllocationGroupId>)
        ensures
            current == self@,
    {
        self.current
    }

    /// Takes the group out of the cell and leaves the cell empty.
    pub fn take(&mut self) -> (taken: Option<AllocationGroupId>)
        ensures
            taken == old(self)@,
            final(self)@ is None,
    {
        self.current.take()
    }

    /// Puts `group` into the cell and returns what the cell held before.
    pub fn replace(&mut self, group: Option<AllocationGroupId>) -> (previous: Option<
        AllocationGroupId,
    >)
        ensures
            previous == old(self)@,
            final(self)@ == group,
    {
        let previous = self.current;
        self.current = group;
        previous
    }
}

/// Why a transition between idle and active was refused.
///
/// Both are programming errors that the caller is expected to treat as fatal.
/// The identifiers are what a diagnostic needs.
#[derive(Clone, Copy, Debug, PartialEq, Eq)]
pub enum TransitionError {
    /// The group was entered while it was already active. `current` is the
    /// group in the thread's cell, `previous` the group that was displaced
    /// when the group was entered first.
    ActiveToActive { current: Option<AllocationGroupId>, previous: Option<AllocationGroupId> },
    /// The group was exited while it was idle.
    IdleToIdle,
    /// The group was exited while the thread's cell was empty, so that there
    /// was no group to hand back.
    NoCurrentGroup,
}

/// The two states of an allocation group on a thread.
#[derive(Clone, Copy, Debug, PartialEq, Eq)]
pub enum GuardState {
    /// Guard is idle. We aren't the active allocation group.
    Idle(AllocationGroupId),
    /// Guard is active. We're the active allocation group, so we hold on to the previous
    /// allocation group ID, if there was one, so we can switch back to it when we transition to
    /// being idle.
    Active(Option<AllocationGroupId>),
}

impl GuardState {
    /// The state and the cell after the idle group `id` was entered on a
    /// thread whose cell held `cell`: the cell holds `id`, and the state
    /// remembers what was displaced.
    pub open spec fn entered(id: AllocationGroupId, cell: Option<AllocationGroupId>) -> (
        GuardState,
        Option<AllocationGroupId>,
    ) {
        (GuardState::Active(cell), Some(id))
    }

    /// The state and the cell after an active group that had displaced
    /// `previous` was exited on a thread whose cell held `cell`: the cell is
    /// back at `previous`, and the state is idle with the group that the cell
    /// held.
    pub open spec fn exited(previous: Option<AllocationGroupId>, cell: Option<AllocationGroupId>) -> (
        GuardState,
        Option<AllocationGroupId>,
    )
        recommends
            cell is Some,
    {
        (GuardState::Idle(cell.unwrap()), previous)
    }

    /// What comes of entering a group in the state `state` on a thread whose
    /// cell holds `cell`: whether it is accepted, then the state and the cell
    /// afterwards. An idle group is entered. For an active group the attempt
    /// is refused, and neither the state nor the cell changes.
    pub open spec fn try_entered(state: GuardState, cell: Option<AllocationGroupId>) -> (
        Result<(), TransitionError>,
        GuardState,
        Option<AllocationGroupId>,
    ) {
        match state {
            GuardState::Idle(id) => (Ok(()), Self::entered(id, cell).0, Self::entered(id, cell).1),
            GuardState::Active(previous) => (
                Err(TransitionError::ActiveToActive { current: cell, previous }),
                state,
                cell,
            ),
        }
    }

    /// What comes of exiting a group in the state `state` on a thread whose
    /// cell holds `cell`: whether it is accepted, then the state and the cell
    /// afterwards. An active group is exited if the cell holds a group. For
    /// an idle group, and for an empty cell, the attempt is refused, and
    /// neither the state nor the cell changes.
    pub open spec fn try_exited(state: GuardState, cell: Option<AllocationGroupId>) -> (
        Result<(), TransitionError>,
        GuardState,
        Option<AllocationGroupId>,
    ) {
        match state {
            GuardState::Idle(_) => (Err(TransitionError::IdleToIdle), state, cell),
            GuardState::Active(previous) => if cell is Some {
                (Ok(()), Self::exited(previous, cell).0, Self::exited(previous, cell).1)
            } else {
                (Err(TransitionError::NoCurrentGroup), state, cell)
            },
        }
    }

    /// Entering an active group and exiting an idle group are always refused,
    /// and a refused attempt changes neither the group nor the thread's cell.
    pub proof fn lemma_invalid_transition_is_refused(
        state: GuardState,
        cell: Option<AllocationGroupId>,
    )
        ensures
            state is Active ==> Self::try_entered(state, cell).0 is Err,
            state is Idle ==> Self::try_exited(state, cell).0 is Err,
            Self::try_entered(state, cell).0 is Err ==> Self::try_entered(state, cell).1 == state
                && Self::try_entered(state, cell).2 == cell,
            Self::try_exited(state, cell).0 is Err ==> Self::try_exited(state, cell).1 == state
                && Self::try_exited(state, cell).2 == cell,
    {
    }

    /// Whether this is the active state.
    pub fn is_active(&self) -> (active: bool)
        ensures
            active <==> self is Active,
    {
        match self {
            GuardState::Idle(_) => false,
            GuardState::Active(_) => true,
        }
    }

    /// Idle to active: sets the current allocation group of the thread to
    /// this group and keeps the previous one.
    ///
    /// The state must be idle: entering an active group is a fatal error.
    pub fn transition_to_active(&mut self, cell: &mut CurrentGroup)
        requires
            *old(self) is Idle,
        ensures
            (*final(self), final(cell)@) == Self::entered(old(self)->Idle_0, old(cell)@),
    {
        match *self {
            GuardState::Idle(id) => {
                // Set the current allocation token to the new token, keeping the previous.
                let previous = cell.replace(Some(id));
                *self = GuardState::Active(previous);
            },
            GuardState::Active(_) => unreached(),
        }
    }

    /// Active to idle: resets the current allocation group of the thread to
    /// the previous one and returns the group that was current.
    ///
    /// The state must be active: exiting an idle group is a fatal error. The
    /// cell must hold a group.
    pub fn transition_to_idle(&mut self, cell: &mut CurrentGroup) -> (id: AllocationGroupId)
        requires
            *old(self) is Active,
            old(cell)@ is Some,
        ensures
            (*final(self), final(cell)@) == Self::exited(old(self)->Active_0, old(cell)@),
            *final(self) == GuardState::Idle(id),
    {
        match *self {
            GuardState::Active(previous) => {
                // Reset the current allocation token to the previous one:
                let current = cell.replace(previous);
                let id = current.unwrap();
                *self = GuardState::Idle(id);
                id
            },
            GuardState::Idle(_) => unreached(),
        }
    }

    /// Active to idle where the state is active, nothing where it is idle.
    ///
    /// Returns the group that was current, or `None` if the state was idle
    /// already. In that case neither the state nor the cell changes. Where
    /// the state is active the cell must hold a group.
    pub fn try_transition_to_idle(&mut self, cell: &mut CurrentGroup) -> (id: Option<
        AllocationGroupId,
    >)
        requires
            *old(self) is Active ==> old(cell)@ is Some,
        ensures
            *old(self) is Idle ==> id is None && *final(self) == *old(self) && final(cell)@ == old(
                cell,
            )@,
            *old(self) is Active ==> id == old(cell)@ && (*final(self), final(cell)@)
                == Self::exited(old(self)->Active_0, old(cell)@),
    {
        match *self {
            GuardState::Idle(_) => None,
            GuardState::Active(_) => Some(self.transition_to_idle(cell)),
        }
    }
}

/// A token that uniquely identifies an allocation group.
///
/// Allocation groups are the grouping mechanism of the tracking allocator:
/// every allocation is attributed to the group that is active on the
/// allocating thread.
///
/// ## Usage
///
/// In order for an allocation group to be attached to an allocation, it must be "entered."
/// [`AllocationGroupToken`] functions similarly to something like a mutex, where "entering" the
/// token consumes the token and provides a guard: [`AllocationGuard`]. This guard is tied to the
/// allocation group being active: once the guard is exited, the allocation group is no longer
/// active.
///
/// [`AllocationGuard`] also tracks if another allocation group was active prior to entering, and
/// ensures it is set back as the active allocation group when the guard is exited. This allows
/// allocation groups to be nested within each other.
pub struct AllocationGroupToken(AllocationGroupId);

impl AllocationGroupToken {
    /// The group that this token stands for.
    pub closed spec fn spec_id(&self) -> AllocationGroupId {
        self.0
    }

    /// Registers an allocation group token.
    ///
    /// Allocation group IDs are assigned monotonically from `counter`, and cannot exceed the
    /// maximum value of the target's pointer size.
    ///
    /// If this call would cause a group ID to be generated that had already been issued by
    /// `counter`, `None` will be returned. Once `None` has been returned, all subsequent calls
    /// to `register` will return `None`.
    ///
    /// Otherwise, `Some(token)` is returned.
    pub fn register(counter: &mut GroupIdCounter) -> (token: Option<AllocationGroupToken>)
        ensures
            final(counter).watermark() == GroupIdCounter::advance(old(counter).watermark()),
            old(counter).exhausted() <==> token is None,
            token matches Some(t) ==> Some(t.spec_id()@) == GroupIdCounter::issue(
                old(counter).watermark(),
            ) && t.spec_id() != AllocationGroupId::spec_root(),
    {
        match AllocationGroupId::next(counter) {
            Some(id) => Some(AllocationGroupToken(id)),
            None => None,
        }
    }

    /// The ID associated with this allocation group.
    #[verifier::when_used_as_spec(spec_id)]
    pub fn id(&self) -> (id: AllocationGroupId)
        ensures
            id == self.spec_id(),
    {
        self.0
    }

    /// Turns this token into one that is entered and exited in place.
    pub fn into_unsafe(self) -> (token: UnsafeAllocationGroupToken)
        ensures
            token.state() == GuardState::Idle(self.spec_id()),
    {
        UnsafeAllocationGroupToken::new(self.0)
    }

    /// Marks the associated allocation group as the active allocation group on the thread
    /// that owns `cell`.
    ///
    /// If another allocation group is currently active, it is replaced, and restored when
    /// [`AllocationGuard::exit`] is called.
    pub fn enter(self, cell: &mut CurrentGroup) -> (guard: AllocationGuard)
        ensures
            final(cell)@ == Some(self.spec_id()),
            guard.previous() == old(cell)@,
    {
        AllocationGuard::enter(self, cell)
    }
}

/// Guard that marks the thread as tracking allocations for the associated allocation group.
///
/// A guard is always active. [`AllocationGuard::exit`] ends it and resets the
/// active allocation group back to the previous allocation group. A guard
/// that is let go without `exit` leaves its group in the thread's cell.
///
/// ## Moving across threads
///
/// [`AllocationGuard`] is specifically marked as `!Send` as the active allocation group is tracked
/// at a per-thread level. If you acquire an `AllocationGuard` and need to resume computation on
/// another thread, you must first [`exit`][exit] the guard and move the resulting
/// [`AllocationGroupToken`]. Once on the new thread, you can then reacquire the guard.
///
/// [exit]: AllocationGuard::exit
#[must_use]
pub struct AllocationGuard {
    state: GuardState,
    _ns: core::marker::PhantomData<std::rc::Rc<()>>,
}

impl AllocationGuard {
    /// A guard is active for as long as it exists.
    #[verifier::type_invariant]
    closed spec fn is_active(&self) -> bool {
        self.state is Active
    }

    /// The group that was active on the thread when this guard was entered,
    /// if there was one.
    pub closed spec fn previous(&self) -> Option<AllocationGroupId> {
        self.state->Active_0
    }

    /// Enters the group of `token` on the thread that owns `cell`.
    pub fn enter(token: AllocationGroupToken, cell: &mut CurrentGroup) -> (guard: AllocationGuard)
        ensures
            final(cell)@ == Some(token.spec_id()),
            guard.previous() == old(cell)@,
    {
        let mut state = GuardState::Idle(token.0);
        state.transition_to_active(cell);

        AllocationGuard { state, _ns: core::marker::PhantomData }
    }

    /// Unmarks this allocation group as the active allocation group on this thread, resetting the
    /// active allocation group to the previous value.
    ///
    /// The token that comes back stands for the group that the cell held.
    /// Where guards are exited in the reverse order of their entering, that
    /// is this guard's own group. The cell must hold a group.
    pub fn exit(self, cell: &mut CurrentGroup) -> (token: AllocationGroupToken)
        requires
            old(cell)@ is Some,
        ensures
            Some(token.spec_id()) == old(cell)@,
            final(cell)@ == self.previous(),
    {
        proof {
            use_type_invariant(&self);
        }
        let mut state = self.state;
        // Reset the current allocation token to the previous one.
        let current = state.transition_to_idle(cell);

        AllocationGroupToken(current)
    }
}

/// Unmanaged allocation group token, for a caller that keeps the group in
/// storage of its own and enters and exits it in place.
///
/// ## Safety
///
/// While normally users would work directly with [`AllocationGroupToken`] and [`AllocationGuard`],
/// an [`AllocationGuard`] cannot be stored where the storage may be sent across threads, as it
/// is `!Send`.
///
/// This stripped down token is for storage whose owner makes sure that every
/// `enter` is followed by exactly one `exit` on the same thread before the
/// next `enter`.
pub struct UnsafeAllocationGroupToken {
    state: GuardState,
}

impl UnsafeAllocationGroupToken {
    /// The state of the group: idle with its identifier, or active with the
    /// group that it displaced.
    pub closed spec fn state(&self) -> GuardState {
        self.state
    }

    /// Creates a new `UnsafeAllocationGroupToken`.
    pub fn new(id: AllocationGroupId) -> (token: UnsafeAllocationGroupToken)
        ensures
            token.state() == GuardState::Idle(id),
    {
        Self { state: GuardState::Idle(id) }
    }

    /// Whether the group is entered.
    pub fn is_active(&self) -> (active: bool)
        ensures
            active <==> self.state() is Active,
    {
        self.state.is_active()
    }

    /// Marks the associated allocation group as the active allocation group on this thread.
    ///
    /// If another allocation group is currently active, it is replaced, and restored when
    /// [`UnsafeAllocationGroupToken::exit`] is called.
    ///
    /// Functionally equivalent to [`AllocationGroupToken::enter`]. The group
    /// must be idle.
    pub fn enter(&mut self, cell: &mut CurrentGroup)
        requires
            old(self).state() is Idle,
        ensures
            (final(self).state(), final(cell)@) == GuardState::entered(
                old(self).state()->Idle_0,
                old(cell)@,
            ),
    {
        self.state.transition_to_active(cell);
    }

    /// Unmarks this allocation group as the active allocation group on this thread, resetting the
    /// active allocation group to the previous value.
    ///
    /// Functionally equivalent to [`AllocationGuard::exit`]. The group must
    /// be active, and the cell must hold a group.
    pub fn exit(&mut self, cell: &mut CurrentGroup)
        requires
            old(self).state() is Active,
            old(cell)@ is Some,
        ensures
            (final(self).state(), final(cell)@) == GuardState::exited(
                old(self).state()->Active_0,
                old(cell)@,
            ),
    {
        let _ = self.state.transition_to_idle(cell);
    }

    /// Enters the group if it is idle, as [`UnsafeAllocationGroupToken::enter`]
    /// does.
    ///
    /// Entering a group that is active already is refused: neither the group
    /// nor the cell changes, and the error carries the group in the cell and
    /// the group that was displaced before.
    pub fn try_enter(&mut self, cell: &mut CurrentGroup) -> (entered: Result<(), TransitionError>)
        ensures
            (entered, final(self).state(), final(cell)@) == GuardState::try_entered(
                old(self).state(),
                old(cell)@,
            ),
    {
        match self.state {
            GuardState::Idle(_) => {
                self.enter(cell);
                Ok(())
            },
            GuardState::Active(previous) => Err(
                TransitionError::ActiveToActive { current: cell.get(), previous },
            ),
        }
    }

    /// Exits the group if it is active, as [`UnsafeAllocationGroupToken::exit`]
    /// does.
    ///
    /// Exiting a group that is idle is refused, and so is exiting a group
    /// while the cell is empty: neither the group nor the cell changes.
    pub fn try_exit(&mut self, cell: &mut CurrentGroup) -> (exited: Result<(), TransitionError>)
        ensures
            (exited, final(self).state(), final(cell)@) == GuardState::try_exited(
                old(self).state(),
                old(cell)@,
            ),
    {
        match self.state {
            GuardState::Idle(_) => Err(TransitionError::IdleToIdle),
            GuardState::Active(_) => {
                if cell.get().is_some() {
                    self.exit(cell);
                    Ok(())
                } else {
                    Err(TransitionError::NoCurrentGroup)
                }
            },
        }
    }
}

/// Calls `f` with the current allocation group of the thread, with the
/// thread's cell empty for the duration of the call.
///
/// Allocations that `f` makes through the tracking allocator find no active
/// group and are not reported. Afterwards the group is back in the cell.
/// Where the cell is empty already, `f` is not called.
pub fn with_suspended_allocation_group_id<F>(cell: &mut CurrentGroup, f: F) where
    F: FnOnce(AllocationGroupId),

    requires
        old(cell)@ matches Some(group_id) ==> f.requires((group_id,)),
    ensures
        final(cell)@ == old(cell)@,
        old(cell)@ matches Some(group_id) ==> f.ensures((group_id,), ()),
{
    if let Some(group_id) = cell.take() {
        f(group_id);
        cell.replace(Some(group_id));
    }
}

impl GroupIdCounter {
    /// The watermark after `n` registrations on a counter whose watermark
    /// was `watermark`.
    pub open spec fn watermark_after(watermark: usize, n: nat) -> usize
        decreases n,
    {
        if n == 0 {
            watermark
        } else {
            Self::advance(Self::watermark_after(watermark, (n - 1) as nat))
        }
    }

    /// What a counter whose watermark was `watermark` issues in the
    /// registration that follows `n` earlier ones.
    pub open spec fn issued_after(watermark: usize, n: nat) -> Option<usize> {
        Self::issue(Self::watermark_after(watermark, n))
    }

    /// After `n` registrations the watermark has risen by `n`, or has reached
    /// the largest integer.
    pub proof fn lemma_watermark_after(watermark: usize, n: nat)
        ensures
            Self::watermark_after(watermark, n) == if watermark + n <= usize::MAX {
                watermark + n
            } else {
                usize::MAX as int
            },
        decreases n,
    {
        if n > 0 {
            Self::lemma_watermark_after(watermark, (n - 1) as nat);
        }
    }

    /// Registrations issue strictly increasing identifiers, all of them above
    /// the watermark that the counter started from, so none is issued twice;
    /// and once a registration has failed, every later one fails.
    pub proof fn lemma_identifiers_strictly_increase(watermark: usize, i: nat, j: nat)
        requires
            i < j,
        ensures
            Self::issued_after(watermark, i) matches Some(first) ==> watermark < first,
            Self::issued_after(watermark, i) matches Some(first) ==> (Self::issued_after(
                watermark,
                j,
            ) matches Some(second) ==> first < second),
            Self::issued_after(watermark, i) is None ==> Self::issued_after(watermark, j) is None,
    {
        Self::lemma_watermark_after(watermark, i);
        Self::lemma_watermark_after(watermark, j);
    }
}

/// One step in a thread's use of allocation groups.
pub enum GroupOp {
    /// A token of the given group is entered.
    Enter(AllocationGroupId),
    /// The group that was entered last, and not exited since, is exited.
    Exit,
}

/// A thread's cell together with the groups that are entered on the thread.
pub struct ThreadGroups {
    /// What the thread's cell holds.
    pub cell: Option<AllocationGroupId>,
    /// The states of the active guards, the one entered last at the end.
    pub guards: Seq<GuardState>,
    /// The groups of the active guards, in the same order.
    pub stack: Seq<AllocationGroupId>,
}

impl ThreadGroups {
    /// A thread on which no group was entered yet.
    pub open spec fn start() -> ThreadGroups {
        ThreadGroups {
            cell: Some(AllocationGroupId::spec_root()),
            guards: Seq::empty(),
            stack: Seq::empty(),
        }
    }

    /// The group entered last and not exited since; the root group where
    /// there is none.
    pub open spec fn top(self) -> AllocationGroupId {
        if self.stack.len() == 0 {
            AllocationGroupId::spec_root()
        } else {
            self.stack.last()
        }
    }

    /// Whether `op` can follow: only an entered group can be exited.
    pub open spec fn accepts(self, op: GroupOp) -> bool {
        op is Exit ==> self.stack.len() > 0
    }

    /// The thread after `op`, by the transitions of [`GuardState`].
    pub open spec fn step(self, op: GroupOp) -> ThreadGroups {
        match op {
            GroupOp::Enter(id) => {
                let (state, cell) = GuardState::entered(id, self.cell);
                ThreadGroups { cell, guards: self.guards.push(state), stack: self.stack.push(id) }
            },
            GroupOp::Exit => {
                let (_, cell) = GuardState::exited(self.guards.last()->Active_0, self.cell);
                ThreadGroups {
                    cell,
                    guards: self.guards.drop_last(),
                    stack: self.stack.drop_last(),
                }
            },
        }
    }

    /// The thread after the steps `ops`, from the start.
    pub open spec fn run(ops: Seq<GroupOp>) -> ThreadGroups
        decreases ops.len(),
    {
        if ops.len() == 0 {
            Self::start()
        } else {
            Self::run(ops.drop_last()).step(ops.last())
        }
    }

    /// Whether every exit in `ops` has an enter before it that no earlier
    /// exit has consumed.
    pub open spec fn well_nested(ops: Seq<GroupOp>) -> bool
        decreases ops.len(),
    {
        ops.len() == 0 || (Self::well_nested(ops.drop_last()) && Self::run(
            ops.drop_last(),
        ).accepts(ops.last()))
    }

    /// Every active guard remembers the group below it on the stack, the
    /// oldest one the root group, and the cell holds the top of the stack.
    pub open spec fn consistent(self) -> bool {
        &&& self.guards.len() == self.stack.len()
        &&& self.cell == Some(self.top())
        &&& forall|i: int|
            0 <= i < self.guards.len() ==> #[trigger] self.guards[i] == GuardState::Active(
                Some(
                    if i == 0 {
                        AllocationGroupId::spec_root()
                    } else {
                        self.stack[i - 1]
                    },
                ),
            )
    }

    /// A well nested sequence of steps leaves the thread consistent.
    pub proof fn lemma_run_is_consistent(ops: Seq<GroupOp>)
        requires
            Self::well_nested(ops),
        ensures
            Self::run(ops).consistent(),
        decreases ops.len(),
    {
        if ops.len() > 0 {
            Self::lemma_run_is_consistent(ops.drop_last());
        }
    }

    /// A prefix of a well nested sequence of steps is well nested.
    pub proof fn lemma_prefix_is_well_nested(ops: Seq<GroupOp>, n: int)
        requires
            Self::well_nested(ops),
            0 <= n <= ops.len(),
        ensures
            Self::well_nested(ops.take(n)),
        decreases ops.len(),
    {
        if n == ops.len() {
            assert(ops.take(n) == ops);
        } else {
            Self::lemma_prefix_is_well_nested(ops.drop_last(), n);
            assert(ops.drop_last().take(n) == ops.take(n));
        }
    }

    /// At every point of a well nested sequence of enters and exits, the
    /// thread's cell holds the group on top of the stack of entered groups:
    /// the group entered last and not exited since, or the root group where
    /// every entered group was exited.
    pub proof fn lemma_current_group_is_top_of_stack(ops: Seq<GroupOp>, n: int)
        requires
            Self::well_nested(ops),
            0 <= n <= ops.len(),
        ensures
            Self::run(ops.take(n)).cell == Some(Self::run(ops.take(n)).top()),
    {
        Self::lemma_prefix_is_well_nested(ops, n);
        Self::lemma_run_is_consistent(ops.take(n));
    }

    /// In a well nested sequence, the guard that an exit ends hands back the
    /// group that it was entered with, and the cell returns to the group that
    /// was on top of the stack before that guard was entered.
    pub proof fn lemma_exit_returns_entered_group(ops: Seq<GroupOp>)
        requires
            Self::well_nested(ops),
            Self::run(ops).stack.len() > 0,
        ensures
            GuardState::exited(Self::run(ops).guards.last()->Active_0, Self::run(ops).cell)
                == (
                GuardState::Idle(Self::run(ops).stack.last()),
                Some(
                    if Self::run(ops).stack.len() == 1 {
                        AllocationGroupId::spec_root()
                    } else {
                        Self::run(ops).stack[Self::run(ops).stack.len() - 2]
                    },
                ),
            ),
    {
        Self::lemma_run_is_consistent(ops);
        let thread = Self::run(ops);
        assert(thread.guards.last() == thread.guards[thread.guards.len() - 1]);
    }
}

} // verus!
