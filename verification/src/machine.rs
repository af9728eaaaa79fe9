//! A finite-state resource-dispensing controller.
//!
//! The machine accepts a token, holds inventory, and dispenses one unit per
//! accepted token, rejecting any operation that is illegal for the current
//! state.  The state set is a closed enumeration consumed by one total
//! transition function, and [`MachineContext`] owns the current state and
//! the inventory count, committing both together on every operation.

use vstd::prelude::*;

verus! {

/// Operating mode of the machine.  `Depleted` is terminal: once entered,
/// no operation changes the state or the inventory again.  Dispensing is a
/// momentary computation, not a persisted state: every operation resolves
/// to one of these three modes by the time the call returns.
#[derive(Clone, Copy, PartialEq, Eq, Structural, Debug)]
pub enum State {
    NoToken,
    TokenHeld,
    Depleted,
}

/// The three operations a caller can request.
#[derive(Clone, Copy, PartialEq, Eq, Structural, Debug)]
pub enum Operation {
    InsertToken,
    EjectToken,
    Dispense,
}

/// Why an operation was rejected.  Every rejection is a normal return
/// value, never a fault.
#[derive(Clone, Copy, PartialEq, Eq, Structural, Debug)]
pub enum RejectReason {
    AlreadyHasToken,
    NoTokenPresent,
    MachineDepleted,
}

/// The outcome of one operation call.
#[derive(Clone, Copy, PartialEq, Eq, Debug)]
pub struct OperationResult {
    pub accepted: bool,
    pub reason: Option<RejectReason>,
    pub resulting_state: State,
}

/// The transition table, total over all `(state, operation)` pairs: the
/// next state, the next inventory count, and the rejection reason
/// (`None` when the operation is accepted).
///
/// | state     | InsertToken        | EjectToken        | Dispense                              |
/// |-----------|--------------------|-------------------|---------------------------------------|
/// | NoToken   | TokenHeld          | NoTokenPresent    | NoTokenPresent                        |
/// | TokenHeld | AlreadyHasToken    | NoToken           | inventory - 1; NoToken or Depleted    |
/// | Depleted  | MachineDepleted    | MachineDepleted   | MachineDepleted                       |
pub open spec fn spec_step(s: State, inv: int, op: Operation) -> (State, int, Option<
    RejectReason,
>) {
    match s {
        State::NoToken => match op {
            Operation::InsertToken => (State::TokenHeld, inv, None),
            Operation::EjectToken => (State::NoToken, inv, Some(RejectReason::NoTokenPresent)),
            Operation::Dispense => (State::NoToken, inv, Some(RejectReason::NoTokenPresent)),
        },
        State::TokenHeld => match op {
            Operation::InsertToken => (
                State::TokenHeld,
                inv,
                Some(RejectReason::AlreadyHasToken),
            ),
            Operation::EjectToken => (State::NoToken, inv, None),
            Operation::Dispense => (
                if inv - 1 > 0 {
                    State::NoToken
                } else {
                    State::Depleted
                },
                inv - 1,
                None,
            ),
        },
        State::Depleted => (s, inv, Some(RejectReason::MachineDepleted)),
    }
}

/// An operation is safe when it cannot drive the inventory negative: the
/// only unsafe pair is a dispense while a token is held over an empty
/// inventory, which would be an internal invariant violation.
pub open spec fn safe_step(s: State, inv: int, op: Operation) -> bool {
    !(s is TokenHeld && op is Dispense && inv == 0)
}

/// The state and inventory after running `ops` in order from `(s, inv)`.
pub open spec fn run_from(s: State, inv: int, ops: Seq<Operation>) -> (State, int)
    decreases ops.len(),
{
    if ops.len() == 0 {
        (s, inv)
    } else {
        let (s1, i1, _) = spec_step(s, inv, ops[0]);
        run_from(s1, i1, ops.skip(1))
    }
}

/// Every step of `ops`, run from `(s, inv)`, is safe.
pub open spec fn safe_run(s: State, inv: int, ops: Seq<Operation>) -> bool
    decreases ops.len(),
{
    ops.len() > 0 ==> {
        let (s1, i1, _) = spec_step(s, inv, ops[0]);
        safe_step(s, inv, ops[0]) && safe_run(s1, i1, ops.skip(1))
    }
}

/// The inventory stays non-negative across any single safe transition.
pub proof fn lemma_step_inventory_nonnegative(s: State, inv: int, op: Operation)
    requires
        inv >= 0,
        safe_step(s, inv, op),
    ensures
        spec_step(s, inv, op).1 >= 0,
{
}

/// `Depleted` arises in exactly one way: either the machine already was
/// depleted, or the step is an accepted dispense that takes the inventory
/// from one unit to none.
pub proof fn lemma_depleted_only_after_emptying_dispense(s: State, inv: int, op: Operation)
    ensures
        spec_step(s, inv, op).0 is Depleted <==> (s is Depleted || (s is TokenHeld
            && op is Dispense && inv <= 1)),
        (!(s is Depleted) && spec_step(s, inv, op).0 is Depleted) ==> (spec_step(s, inv, op).2
            is None && spec_step(s, inv, op).1 == inv - 1 && spec_step(s, inv, op).1 <= 0),
{
}

/// From any non-depleted machine, a second consecutive `InsertToken` is
/// always rejected with `AlreadyHasToken` and changes nothing.
pub proof fn lemma_insert_twice_rejected(s: State, inv: int)
    requires
        !(s is Depleted),
    ensures
        ({
            let (s1, i1, _) = spec_step(s, inv, Operation::InsertToken);
            let (s2, i2, r2) = spec_step(s1, i1, Operation::InsertToken);
            r2 == Some(RejectReason::AlreadyHasToken) && s2 == s1 && i2 == i1
        }),
{
}

/// From any non-depleted machine, an `InsertToken` followed by an
/// `EjectToken` returns to `NoToken` with the inventory unchanged.
pub proof fn lemma_insert_eject_round_trip(s: State, inv: int)
    requires
        !(s is Depleted),
    ensures
        ({
            let (s1, i1, _) = spec_step(s, inv, Operation::InsertToken);
            let (s2, i2, _) = spec_step(s1, i1, Operation::EjectToken);
            s2 is NoToken && i2 == inv
        }),
{
}

/// Along any safe trace, the inventory stays non-negative.
pub proof fn lemma_run_inventory_nonnegative(s: State, inv: int, ops: Seq<Operation>)
    requires
        inv >= 0,
        safe_run(s, inv, ops),
    ensures
        run_from(s, inv, ops).1 >= 0,
    decreases ops.len(),
{
    if ops.len() > 0 {
        let (s1, i1, _) = spec_step(s, inv, ops[0]);
        lemma_run_inventory_nonnegative(s1, i1, ops.skip(1));
    }
}

/// Along any safe trace that starts out of `Depleted`-free territory, a
/// depleted end state implies an emptied inventory.
pub proof fn lemma_run_depleted_empties_inventory(s: State, inv: int, ops: Seq<Operation>)
    requires
        s is Depleted ==> inv <= 0,
    ensures
        run_from(s, inv, ops).0 is Depleted ==> run_from(s, inv, ops).1 <= 0,
    decreases ops.len(),
{
    if ops.len() > 0 {
        let (s1, i1, _) = spec_step(s, inv, ops[0]);
        lemma_run_depleted_empties_inventory(s1, i1, ops.skip(1));
    }
}

/// A machine that was not depleted ends a trace depleted only if the
/// trace holds a dispense: depletion is never a consequence of the
/// initial configuration alone.
pub proof fn lemma_depletion_requires_a_dispense(s: State, inv: int, ops: Seq<Operation>)
    requires
        !(s is Depleted),
        run_from(s, inv, ops).0 is Depleted,
    ensures
        exists|i: int| 0 <= i < ops.len() && ops[i] is Dispense,
    decreases ops.len(),
{
    let (s1, i1, _) = spec_step(s, inv, ops[0]);
    if s1 is Depleted {
        lemma_depleted_only_after_emptying_dispense(s, inv, ops[0]);
        assert(ops[0] is Dispense);
    } else {
        lemma_depletion_requires_a_dispense(s1, i1, ops.skip(1));
        let j = choose|j: int| 0 <= j < ops.skip(1).len() && ops.skip(1)[j] is Dispense;
        assert(ops[j + 1] is Dispense);
    }
}

/// Owns the current state and the inventory count; applies transitions
/// atomically and exposes the public operation API.
pub struct MachineContext {
    current_state: State,
    inventory_count: u64,
}

impl MachineContext {
    /// The current state, for contracts.
    pub closed spec fn state(self) -> State {
        self.current_state
    }

    /// The inventory count, for contracts.
    pub closed spec fn inventory(self) -> int {
        self.inventory_count as int
    }

    /// The internal invariant: a depleted machine holds no inventory.
    pub open spec fn wf(self) -> bool {
        self.state() is Depleted ==> self.inventory() == 0
    }

    /// A fresh machine always starts in `NoToken`, whatever the initial
    /// inventory: depletion is a consequence of dispensing, never of the
    /// initial configuration.
    pub fn new(initial_inventory: u64) -> (machine: MachineContext)
        ensures
            machine.state() is NoToken,
            machine.inventory() == initial_inventory,
            machine.wf(),
    {
        MachineContext { current_state: State::NoToken, inventory_count: initial_inventory }
    }

    /// Routes one operation through the transition table and commits the
    /// new state and inventory together.
    fn apply(&mut self, op: Operation) -> (result: OperationResult)
        requires
            safe_step(old(self).state(), old(self).inventory(), op),
        ensures
            ({
                let (s, i, r) = spec_step(old(self).state(), old(self).inventory(), op);
                &&& final(self).state() == s
                &&& final(self).inventory() == i
                &&& result.resulting_state == s
                &&& result.reason == r
                &&& result.accepted == (r is None)
            }),
    {
        let (next_state, next_inventory, reason): (State, u64, Option<RejectReason>) =
            match self.current_state {
            State::NoToken => match op {
                Operation::InsertToken => (State::TokenHeld, self.inventory_count, None),
                Operation::EjectToken => (
                    State::NoToken,
                    self.inventory_count,
                    Some(RejectReason::NoTokenPresent),
                ),
                Operation::Dispense => (
                    State::NoToken,
                    self.inventory_count,
                    Some(RejectReason::NoTokenPresent),
                ),
            },
            State::TokenHeld => match op {
                Operation::InsertToken => (
                    State::TokenHeld,
                    self.inventory_count,
                    Some(RejectReason::AlreadyHasToken),
                ),
                Operation::EjectToken => (State::NoToken, self.inventory_count, None),
                Operation::Dispense => {
                    let remaining = self.inventory_count - 1;
                    (
                        if remaining > 0 {
                            State::NoToken
                        } else {
                            State::Depleted
                        },
                        remaining,
                        None,
                    )
                },
            },
            State::Depleted => (
                State::Depleted,
                self.inventory_count,
                Some(RejectReason::MachineDepleted),
            ),
        };
        self.current_state = next_state;
        self.inventory_count = next_inventory;
        OperationResult { accepted: reason.is_none(), reason, resulting_state: next_state }
    }

    /// Accepts a token only from `NoToken`; callable in any state.
    pub fn insert_token(&mut self) -> (result: OperationResult)
        ensures
            ({
                let (s, i, r) = spec_step(
                    old(self).state(),
                    old(self).inventory(),
                    Operation::InsertToken,
                );
                &&& final(self).state() == s
                &&& final(self).inventory() == i
                &&& result.resulting_state == s
                &&& result.reason == r
                &&& result.accepted == (r is None)
            }),
            result.accepted <==> old(self).state() is NoToken,
            final(self).inventory() == old(self).inventory(),
            old(self).wf() ==> final(self).wf(),
    {
        self.apply(Operation::InsertToken)
    }

    /// Accepted only from `TokenHeld`; returns the machine to `NoToken`
    /// with the inventory unchanged.
    pub fn eject_token(&mut self) -> (result: OperationResult)
        ensures
            ({
                let (s, i, r) = spec_step(
                    old(self).state(),
                    old(self).inventory(),
                    Operation::EjectToken,
                );
                &&& final(self).state() == s
                &&& final(self).inventory() == i
                &&& result.resulting_state == s
                &&& result.reason == r
                &&& result.accepted == (r is None)
            }),
            result.accepted <==> old(self).state() is TokenHeld,
            final(self).inventory() == old(self).inventory(),
            old(self).wf() ==> final(self).wf(),
    {
        self.apply(Operation::EjectToken)
    }

    /// Accepted only from `TokenHeld`: removes exactly one unit from the
    /// inventory and moves to `NoToken`, or to `Depleted` when the last
    /// unit left.  A dispense while a token is held over an empty
    /// inventory would drive the inventory negative — the one fatal
    /// internal-invariant violation — and is excluded by precondition.
    pub fn dispense(&mut self) -> (result: OperationResult)
        requires
            safe_step(old(self).state(), old(self).inventory(), Operation::Dispense),
        ensures
            ({
                let (s, i, r) = spec_step(
                    old(self).state(),
                    old(self).inventory(),
                    Operation::Dispense,
                );
                &&& final(self).state() == s
                &&& final(self).inventory() == i
                &&& result.resulting_state == s
                &&& result.reason == r
                &&& result.accepted == (r is None)
            }),
            result.accepted <==> old(self).state() is TokenHeld,
            result.accepted ==> final(self).inventory() == old(self).inventory() - 1,
            !result.accepted ==> final(self).inventory() == old(self).inventory()
                && final(self).state() == old(self).state(),
            old(self).wf() ==> final(self).wf(),
    {
        self.apply(Operation::Dispense)
    }

    /// Pure read accessor for the inventory count.
    pub fn inventory_count(&self) -> (count: u64)
        ensures
            count == self.inventory(),
    {
        self.inventory_count
    }

    /// Pure read accessor for the current state.
    pub fn current_state(&self) -> (state: State)
        ensures
            state == self.state(),
    {
        self.current_state
    }
}

} // verus!
