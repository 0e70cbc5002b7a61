//! The interrupt-handler registration contract.
//!
//! The native driver keeps the installed (handler, context) pairs and
//! dispatches the interrupt; this core forwards both references to it
//! unmodified and relays the returned status. What the core holds the driver
//! to is stated and proved here over an explicit registry of identity
//! tokens: registration appends a pair, and deregistration removes exactly
//! the earliest previously registered pair matched by identity — of handler
//! and of context, never of the values behind them — and fails with
//! `InvalidState` when no pair matches. The registry owns neither the
//! handler nor the context: a token carries their identities only, and the
//! caller must keep both alive until a matching deregistration completes.

use crate::touch_pad_error::EspErr;
use vstd::prelude::*;

verus! {

/// Identity token of one registration: the identity of the handler and the
/// identity of its opaque context. Two tokens name the same registration
/// exactly when both identities are equal.
#[derive(Clone, Copy, Debug, PartialEq, Eq, Structural)]
pub struct HandlerToken {
    /// Identity of the interrupt handler.
    pub handler: u64,
    /// Identity of the opaque context handed to the handler.
    pub context: u64,
}

/// The registration table: the pairs currently installed, oldest first.
pub struct IsrRegistry {
    entries: Vec<HandlerToken>,
}

impl View for IsrRegistry {
    type V = Seq<HandlerToken>;

    closed spec fn view(&self) -> Seq<HandlerToken> {
        self.entries@
    }
}

/// What registering a pair does to the table: the new pair is appended.
pub open spec fn register_spec(table: Seq<HandlerToken>, t: HandlerToken) -> Seq<HandlerToken> {
    table.push(t)
}

/// What deregistering a pair answers: success exactly when the identical
/// pair is currently installed, `InvalidState` otherwise.
pub open spec fn deregister_result(table: Seq<HandlerToken>, t: HandlerToken) -> Result<
    (),
    EspErr,
> {
    if table.contains(t) {
        Ok(())
    } else {
        Err(EspErr::EspErrInvalidState)
    }
}

/// `post` is `pre` with the earliest instance of `t` removed.
pub open spec fn removed_first(
    pre: Seq<HandlerToken>,
    post: Seq<HandlerToken>,
    t: HandlerToken,
) -> bool {
    exists|i: int|
        0 <= i < pre.len() && pre[i] == t && (forall|j: int| 0 <= j < i ==> pre[j] != t)
            && post == pre.remove(i)
}

impl IsrRegistry {
    /// An empty table: nothing is installed.
    pub fn new() -> (r: Self)
        ensures
            r@ == Seq::<HandlerToken>::empty(),
    {
        IsrRegistry { entries: Vec::new() }
    }

    /// Whether the identical pair is currently installed.
    pub fn is_registered(&self, t: HandlerToken) -> (r: bool)
        ensures
            r == self@.contains(t),
    {
        let mut i: usize = 0;
        while i < self.entries.len()
            invariant
                0 <= i <= self.entries.len(),
                forall|j: int| 0 <= j < i ==> self.entries@[j] != t,
            decreases self.entries.len() - i,
        {
            if self.entries[i] == t {
                assert(self@.contains(t)) by {
                    assert(self@[i as int] == t);
                }
                return true;
            }
            i += 1;
        }
        assert(!self@.contains(t)) by {
            assert(forall|j: int| 0 <= j < self@.len() ==> self@[j] != t);
        }
        false
    }

    /// Install a pair. The table grows by exactly that pair; nothing else
    /// changes, and a pair already installed may be installed again.
    pub fn register(&mut self, t: HandlerToken) -> (r: Result<(), EspErr>)
        ensures
            r == Ok::<(), EspErr>(()),
            final(self)@ == register_spec(old(self)@, t),
    {
        self.entries.push(t);
        Ok(())
    }

    /// Remove a previously installed pair, matched by identity. Succeeds
    /// exactly when the identical pair is installed, removing its earliest
    /// instance; otherwise answers `InvalidState` and leaves the table
    /// unchanged.
    pub fn deregister(&mut self, t: HandlerToken) -> (r: Result<(), EspErr>)
        ensures
            r == deregister_result(old(self)@, t),
            old(self)@.contains(t) ==> removed_first(old(self)@, final(self)@, t),
            !old(self)@.contains(t) ==> final(self)@ == old(self)@,
    {
        let mut i: usize = 0;
        while i < self.entries.len()
            invariant
                self.entries@ == old(self)@,
                0 <= i <= self.entries.len(),
                forall|j: int| 0 <= j < i ==> self.entries@[j] != t,
            decreases self.entries.len() - i,
        {
            if self.entries[i] == t {
                let ghost pre = self.entries@;
                self.entries.remove(i);
                proof {
                    assert(pre.contains(t)) by {
                        assert(pre[i as int] == t);
                    }
                    assert(removed_first(pre, self.entries@, t)) by {
                        assert(pre[i as int] == t && (forall|j: int|
                            0 <= j < i ==> pre[j] != t) && self.entries@ == pre.remove(i as int));
                    }
                }
                return Ok(());
            }
            i += 1;
        }
        proof {
            assert(!self.entries@.contains(t)) by {
                assert(forall|j: int| 0 <= j < self.entries@.len() ==> self.entries@[j] != t);
            }
        }
        Err(EspErr::EspErrInvalidState)
    }
}

/// Law: a pair just registered is installed, so deregistering the identical
/// pair right after registering it succeeds.
pub proof fn lemma_register_enables_deregister(table: Seq<HandlerToken>, t: HandlerToken)
    ensures
        deregister_result(register_spec(table, t), t) == Ok::<(), EspErr>(()),
{
    assert(register_spec(table, t).contains(t)) by {
        assert(register_spec(table, t)[table.len() as int] == t);
    }
}

/// Law: deregistering a pair that was never registered answers
/// `InvalidState`.
pub proof fn lemma_deregister_unregistered_rejected(table: Seq<HandlerToken>, t: HandlerToken)
    requires
        !table.contains(t),
    ensures
        deregister_result(table, t) == Err::<(), EspErr>(EspErr::EspErrInvalidState),
{
}

} // verus!
