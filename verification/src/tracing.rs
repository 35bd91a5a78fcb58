//! Entering and exiting an allocation group along with a `tracing` span.
//!
//! A group is attached to a span by storing its token among the span's
//! extensions. From then on the group is entered whenever the span is
//! entered, and exited whenever the span is exited.

use crate::token::AllocationGroupToken;
use crate::token::CurrentGroup;
use crate::token::GuardState;
use crate::token::TransitionError;
use crate::token::UnsafeAllocationGroupToken;
use tracing_subscriber::registry::ExtensionsMut;
use vstd::prelude::*;

verus! {

/// The extensions of a span, borrowed for writing.
#[verifier::external_type_specification]
#[verifier::external_body]
pub struct ExExtensionsMut<'a>(ExtensionsMut<'a>);

/// The states of the allocation groups that are stored among the extensions
/// of a span. The extensions hold at most one value of a type, so there is
/// at most one.
pub uninterp spec fn span_groups(extensions: ExtensionsMut<'_>) -> Seq<GuardState>;

/// `ExtensionsMut::get_mut`, for the type of the group token: a reference to
/// the token that is stored among the extensions, or `None` if there is
/// none. Nothing is added or removed. What is stored afterwards is what the
/// caller has made of the token.
#[verifier::external_body]
fn span_group_mut<'a, 'b>(extensions: &'a mut ExtensionsMut<'b>) -> (token: Option<
    &'a mut UnsafeAllocationGroupToken,
>)
    ensures
        token is None ==> span_groups(*old(extensions)).len() == 0 && span_groups(
            *final(extensions),
        ) == span_groups(*old(extensions)),
        token is Some ==> span_groups(*old(extensions)) == seq![token.unwrap().state()]
            && span_groups(*final(extensions)) == seq![final(token.unwrap()).state()],
{
    extensions.get_mut::<UnsafeAllocationGroupToken>()
}

/// `ExtensionsMut::insert`, for the type of the group token: stores the token
/// among the extensions. The outside function panics where a token is stored
/// already, so there must be none.
#[verifier::external_body]
fn insert_span_group(extensions: &mut ExtensionsMut<'_>, token: UnsafeAllocationGroupToken)
    requires
        span_groups(*old(extensions)).len() == 0,
    ensures
        span_groups(*final(extensions)) == seq![token.state()],
{
    extensions.insert(token)
}

/// [`AllocationLayer`] is the part of a `tracing_subscriber` layer that handles entering and
/// exiting an allocation group as the span it is attached to is itself entered and exited.
///
/// The layer that is installed in a subscriber looks up the span and hands
/// its extensions to the methods of this type.
pub struct AllocationLayer {}

impl AllocationLayer {
    /// Create a new `AllocationLayer`.
    pub fn new() -> Self {
        Self {  }
    }

    /// Attaches the group of `unsafe_token` to the span with the given
    /// extensions.
    ///
    /// A span carries at most one group. Where one is attached already,
    /// nothing changes and the token comes back.
    pub fn with_allocation_group(
        extensions: &mut ExtensionsMut<'_>,
        unsafe_token: UnsafeAllocationGroupToken,
    ) -> (attached: Result<(), UnsafeAllocationGroupToken>)
        ensures
            span_groups(*old(extensions)).len() == 0 ==> attached is Ok && span_groups(
                *final(extensions),
            ) == seq![unsafe_token.state()],
            span_groups(*old(extensions)).len() != 0 ==> attached == Err::<
                (),
                UnsafeAllocationGroupToken,
            >(unsafe_token) && span_groups(*final(extensions)) == span_groups(*old(extensions)),
    {
        let occupied = span_group_mut(extensions).is_some();
        if occupied {
            Err(unsafe_token)
        } else {
            insert_span_group(extensions, unsafe_token);
            Ok(())
        }
    }

    /// The span with the given extensions is entered: the group attached to
    /// it, if there is one, is entered on the thread that owns `cell`, as
    /// [`UnsafeAllocationGroupToken::try_enter`] does.
    ///
    /// Where the group is active already this is refused, and nothing
    /// changes.
    pub fn on_enter(&self, extensions: &mut ExtensionsMut<'_>, cell: &mut CurrentGroup) -> (entered:
        Result<(), TransitionError>)
        ensures
            span_groups(*old(extensions)).len() == 0 ==> entered is Ok && span_groups(
                *final(extensions),
            ) == span_groups(*old(extensions)) && final(cell)@ == old(cell)@,
            span_groups(*old(extensions)).len() != 0 ==> span_groups(*final(extensions)).len() == 1
                && (entered, span_groups(*final(extensions))[0], final(cell)@)
                == GuardState::try_entered(span_groups(*old(extensions))[0], old(cell)@),
    {
        match span_group_mut(extensions) {
            Some(token) => token.try_enter(cell),
            None => Ok(()),
        }
    }

    /// The span with the given extensions is exited: the group attached to
    /// it, if there is one, is exited on the thread that owns `cell`, as
    /// [`UnsafeAllocationGroupToken::try_exit`] does.
    ///
    /// Where the group is idle, or the cell is empty, this is refused, and
    /// nothing changes.
    pub fn on_exit(&self, extensions: &mut ExtensionsMut<'_>, cell: &mut CurrentGroup) -> (exited:
        Result<(), TransitionError>)
        ensures
            span_groups(*old(extensions)).len() == 0 ==> exited is Ok && span_groups(
                *final(extensions),
            ) == span_groups(*old(extensions)) && final(cell)@ == old(cell)@,
            span_groups(*old(extensions)).len() != 0 ==> span_groups(*final(extensions)).len() == 1
                && (exited, span_groups(*final(extensions))[0], final(cell)@)
                == GuardState::try_exited(span_groups(*old(extensions))[0], old(cell)@),
    {
        match span_group_mut(extensions) {
            Some(token) => token.try_exit(cell),
            None => Ok(()),
        }
    }
}

impl Default for AllocationLayer {
    fn default() -> Self {
        AllocationLayer::new()
    }
}

impl AllocationGroupToken {
    /// Attaches this allocation group to the `tracing` span with the given
    /// extensions.
    ///
    /// When the span is entered or exited, the allocation group will also transition from idle to
    /// active, or active to idle. In effect, all allocations that occur while the span is entered
    /// will be associated with the allocation group.
    ///
    /// A span carries at most one group. Where one is attached already,
    /// nothing changes and the token comes back, in its unmanaged form.
    pub fn attach_to_span(self, extensions: &mut ExtensionsMut<'_>) -> (attached: Result<
        (),
        UnsafeAllocationGroupToken,
    >)
        ensures
            span_groups(*old(extensions)).len() == 0 ==> attached is Ok && span_groups(
                *final(extensions),
            ) == seq![GuardState::Idle(self.spec_id())],
            span_groups(*old(extensions)).len() != 0 ==> attached is Err
                && attached.unwrap_err().state() == GuardState::Idle(self.spec_id())
                && span_groups(*final(extensions)) == span_groups(*old(extensions)),
    {
        let unsafe_token = self.into_unsafe();
        AllocationLayer::with_allocation_group(extensions, unsafe_token)
    }
}

} // verus!
