//! The registry of armed timers and the scheduler's decisions.
//!
//! A `Service` owns the set of currently armed recurring timers, keyed by
//! schedule-entry id.  For every entry the store knows as live there is
//! exactly one armed timer, and no id ever has two.  The caller is expected
//! to serialize `new_action`, `drop_action` and `on_fire` against each other
//! (one lock per service instance), to talk to the store before calling, and
//! to drive the timer engine with the handles and instants handed back.

use std::collections::HashMap;

use vstd::prelude::*;

use crate::datetime::Instant;
use crate::db::{Action, ServiceError};

verus! {

broadcast use vstd::std_specs::hash::group_hash_axioms;

/// A live binding between a schedule entry and the timer engine: the entry
/// together with the cancellation handle of its armed timer.
#[derive(Clone, Copy, PartialEq, Eq, Structural, Debug)]
pub struct ScheduledAction {
    pub action: Action,
    pub handle: u64,
}

/// What a firing obliges the caller to do: apply `open` to the blinds, then
/// rearm the entry at `when` under the fresh cancellation handle `handle`.
#[derive(Clone, Copy, PartialEq, Eq, Structural, Debug)]
pub struct FireStep {
    pub open: bool,
    pub when: Instant,
    pub handle: u64,
}

/// The scheduler: the registry of armed timers, plus the counter the next
/// cancellation handle is minted from.
pub struct Service {
    pub alarms: HashMap<i64, ScheduledAction>,
    pub next_handle: u64,
}

impl Service {
    /// The registry as a map from entry id to its armed timer.
    pub open spec fn registry(self) -> Map<i64, ScheduledAction> {
        self.alarms@
    }

    /// Whether an armed timer exists for `id`.
    pub open spec fn armed(self, id: i64) -> bool {
        self.registry().contains_key(id)
    }

    /// How many timers are armed.
    pub open spec fn count(self) -> nat {
        self.registry().len()
    }

    /// Every armed timer is keyed by its own entry's id, and handles are
    /// pairwise distinct and all below the mint counter, so a freshly minted
    /// handle never collides with a live one.
    pub open spec fn wf(self) -> bool {
        &&& forall|id: i64|
            self.registry().contains_key(id) ==> (#[trigger] self.registry()[id]).action.id == id
                && self.registry()[id].handle < self.next_handle
        &&& forall|id1: i64, id2: i64|
            #![trigger self.registry()[id1].handle, self.registry()[id2].handle]
            id1 != id2 && self.registry().contains_key(id1) && self.registry().contains_key(id2)
                ==> self.registry()[id1].handle != self.registry()[id2].handle
    }

    /// Arms a timer for a store-confirmed entry no timer is armed for yet,
    /// and returns the timer's fresh cancellation handle.
    fn add_action(&mut self, action: Action) -> (h: u64)
        requires
            old(self).wf(),
            !old(self).armed(action.id),
            old(self).next_handle < u64::MAX,
        ensures
            final(self).wf(),
            h == old(self).next_handle,
            final(self).next_handle == old(self).next_handle + 1,
            final(self).registry() == old(self).registry().insert(
                action.id,
                (ScheduledAction { action, handle: h }),
            ),
            final(self).count() == old(self).count() + 1,
    {
        let h = self.next_handle;
        self.next_handle = self.next_handle + 1;
        self.alarms.insert(action.id, ScheduledAction { action, handle: h });
        h
    }

    /// Starts a scheduler over the entries loaded from the store, arming one
    /// timer per entry.  Returns the service and the armed bindings, for the
    /// caller to hand to the timer engine one by one.
    pub fn start(actions: Vec<Action>) -> (r: (Service, Vec<ScheduledAction>))
        requires
            forall|i: int, j: int|
                0 <= i < j < actions@.len() ==> actions@[i].id != actions@[j].id,
            actions@.len() < u64::MAX,
        ensures
            r.0.wf(),
            r.0.count() == actions@.len(),
            forall|i: int|
                0 <= i < actions@.len() ==> r.0.armed(#[trigger] actions@[i].id)
                    && r.0.registry()[actions@[i].id].action == actions@[i],
            forall|id: i64|
                r.0.armed(id) ==> exists|i: int| 0 <= i < actions@.len() && actions@[i].id == id,
            r.1@.len() == actions@.len(),
            forall|i: int|
                0 <= i < actions@.len() ==> (#[trigger] r.1@[i]).action == actions@[i]
                    && r.1@[i] == r.0.registry()[actions@[i].id],
    {
        let mut srv = Service { alarms: HashMap::new(), next_handle: 0 };
        let mut armed: Vec<ScheduledAction> = Vec::new();
        let mut i: usize = 0;
        while i < actions.len()
            invariant
                i <= actions@.len() < u64::MAX,
                srv.wf(),
                srv.next_handle == i,
                srv.count() == i,
                forall|a: int, b: int|
                    0 <= a < b < actions@.len() ==> actions@[a].id != actions@[b].id,
                forall|j: int|
                    0 <= j < i ==> srv.armed(#[trigger] actions@[j].id)
                        && srv.registry()[actions@[j].id].action == actions@[j],
                forall|id: i64|
                    srv.armed(id) ==> exists|j: int| 0 <= j < i && actions@[j].id == id,
                armed@.len() == i,
                forall|j: int|
                    0 <= j < i ==> (#[trigger] armed@[j]).action == actions@[j]
                        && armed@[j] == srv.registry()[actions@[j].id],
            decreases actions@.len() - i,
        {
            let action = actions[i];
            proof {
                if srv.armed(action.id) {
                    let j = choose|j: int| 0 <= j < i && actions@[j].id == action.id;
                    assert(actions@[j].id != actions@[i as int].id);
                }
            }
            let ghost prev = srv;
            let h = srv.add_action(action);
            proof {
                assert forall|id: i64| srv.armed(id) implies (exists|j: int|
                    0 <= j < i + 1 && actions@[j].id == id) by {
                    if id == action.id {
                        assert(actions@[i as int].id == id);
                    } else {
                        assert(prev.armed(id));
                        let j = choose|j: int| 0 <= j < i && actions@[j].id == id;
                        assert(0 <= j < i + 1 && actions@[j].id == id);
                    }
                }
            }
            armed.push(ScheduledAction { action, handle: h });
            i = i + 1;
        }
        (srv, armed)
    }

    /// Registers a newly persisted entry.  The caller must have the store's
    /// confirmation first: on a store error no timer is armed at all.
    /// Returns the fresh cancellation handle to bind the engine's timer to.
    pub fn new_action(&mut self, action: Action) -> (h: u64)
        requires
            old(self).wf(),
            !old(self).armed(action.id),
            old(self).next_handle < u64::MAX,
        ensures
            final(self).wf(),
            h == old(self).next_handle,
            final(self).registry() == old(self).registry().insert(
                action.id,
                (ScheduledAction { action, handle: h }),
            ),
            final(self).count() == old(self).count() + 1,
            final(self).armed(action.id),
            forall|other: i64|
                other != action.id ==> (final(self).armed(other) <==> old(self).armed(other)),
    {
        self.add_action(action)
    }

    /// Discards the armed timer of a deleted entry.  `deleted` is the
    /// store's answer to the deletion request, which must come first.
    ///
    /// Returns `Ok(None)` when the store did not know the id (nothing to
    /// cancel), `Ok(Some(handle))` with the cancellation handle to release
    /// when the timer was found and discarded, and `Err(Inconsistent)` when
    /// the store confirmed a deletion but no armed timer existed: an
    /// invariant violation, surfaced loudly rather than ignored.
    pub fn drop_action(&mut self, id: i64, deleted: bool) -> (r: Result<Option<u64>, ServiceError>)
        requires
            old(self).wf(),
        ensures
            final(self).wf(),
            final(self).next_handle == old(self).next_handle,
            !deleted ==> r == Ok::<Option<u64>, ServiceError>(None) && *final(self) == *old(self),
            deleted && old(self).armed(id) ==> r == Ok::<Option<u64>, ServiceError>(
                Some(old(self).registry()[id].handle),
            ) && final(self).registry() == old(self).registry().remove(id) && final(self).count()
                + 1 == old(self).count(),
            deleted && !old(self).armed(id) ==> r == Err::<Option<u64>, ServiceError>(
                ServiceError::Inconsistent,
            ) && final(self).registry() == old(self).registry(),
    {
        if !deleted {
            return Ok(None);
        }
        match self.alarms.remove(&id) {
            Some(sa) => Ok(Some(sa.handle)),
            None => {
                proof {
                    assert(self.alarms@ =~= old(self).alarms@);
                }
                Err(ServiceError::Inconsistent)
            },
        }
    }

    /// The scheduler's half of a firing: if the id is still armed, say what
    /// to apply to the blinds and when to rearm, under a fresh handle the
    /// registry is updated to; if a remove won the race, decide nothing and
    /// leave the registry untouched.
    pub fn on_fire(&mut self, id: i64, now: Instant) -> (r: Option<FireStep>)
        requires
            old(self).wf(),
            now.day + 7 <= u64::MAX,
            old(self).next_handle < u64::MAX,
        ensures
            final(self).wf(),
            r is Some <==> old(self).armed(id),
            !old(self).armed(id) ==> *final(self) == *old(self),
            old(self).armed(id) ==> ({
                let sa = old(self).registry()[id];
                let step = r->Some_0;
                &&& step.open == sa.action.open
                &&& step.when == sa.action.next_occurence_spec(now)
                &&& step.handle == old(self).next_handle
                &&& final(self).registry() == old(self).registry().insert(
                    id,
                    (ScheduledAction { action: sa.action, handle: step.handle }),
                )
                &&& final(self).count() == old(self).count()
                &&& final(self).armed(id)
            }),
    {
        let action = match self.alarms.get(&id) {
            Some(sa) => sa.action,
            None => {
                return None;
            },
        };
        let h = self.next_handle;
        self.next_handle = self.next_handle + 1;
        let when = action.next_occurence_from_datetime(now);
        self.alarms.insert(id, ScheduledAction { action, handle: h });
        Some(FireStep { open: action.open, when, handle: h })
    }

    /// Whether an armed timer exists for `id`.
    pub fn is_armed(&self, id: i64) -> (r: bool)
        ensures
            r == self.armed(id),
    {
        self.alarms.contains_key(&id)
    }

    /// How many timers are armed.
    pub fn count_armed(&self) -> (n: usize)
        ensures
            n == self.count(),
    {
        self.alarms.len()
    }
}

/// One serialized registry mutation, as the contracts of `new_action` and
/// `drop_action` describe it.
pub enum RegistryOp {
    Create { action: Action, handle: u64 },
    Remove { id: i64 },
}

/// Whether the registry admits the operation: a create targets an id with no
/// armed timer, a remove an id with one.
pub open spec fn op_allowed(m: Map<i64, ScheduledAction>, op: RegistryOp) -> bool {
    match op {
        RegistryOp::Create { action, handle } => !m.contains_key(action.id),
        RegistryOp::Remove { id } => m.contains_key(id),
    }
}

/// The registry after the operation, as the contracts of `new_action` and
/// `drop_action` leave it.
pub open spec fn apply_op(m: Map<i64, ScheduledAction>, op: RegistryOp) -> Map<
    i64,
    ScheduledAction,
> {
    match op {
        RegistryOp::Create { action, handle } => m.insert(
            action.id,
            (ScheduledAction { action, handle }),
        ),
        RegistryOp::Remove { id } => m.remove(id),
    }
}

/// The registry after a whole serialized history of operations.
pub open spec fn apply_ops(m: Map<i64, ScheduledAction>, ops: Seq<RegistryOp>) -> Map<
    i64,
    ScheduledAction,
>
    decreases ops.len(),
{
    if ops.len() == 0 {
        m
    } else {
        apply_ops(apply_op(m, ops.first()), ops.drop_first())
    }
}

/// Whether every operation of the history is admitted by the registry it
/// meets: each create targets an id armed by no earlier surviving create,
/// each remove an id that is armed.
pub open spec fn ops_allowed(m: Map<i64, ScheduledAction>, ops: Seq<RegistryOp>) -> bool
    decreases ops.len(),
{
    if ops.len() == 0 {
        true
    } else {
        op_allowed(m, ops.first()) && ops_allowed(apply_op(m, ops.first()), ops.drop_first())
    }
}

pub open spec fn creates_in(ops: Seq<RegistryOp>) -> int
    decreases ops.len(),
{
    if ops.len() == 0 {
        0
    } else {
        (if ops.first() is Create {
            1int
        } else {
            0int
        }) + creates_in(ops.drop_first())
    }
}

pub open spec fn removes_in(ops: Seq<RegistryOp>) -> int
    decreases ops.len(),
{
    if ops.len() == 0 {
        0
    } else {
        (if ops.first() is Remove {
            1int
        } else {
            0int
        }) + removes_in(ops.drop_first())
    }
}

/// After a create for an id with no armed timer, exactly one armed timer
/// exists for that id; a remove then leaves none for it and restores the
/// registry exactly; a further remove meets no armed timer, so by
/// `drop_action`'s contract it mutates nothing and answers that the id did
/// not exist.
pub proof fn lemma_create_then_remove(m: Map<i64, ScheduledAction>, action: Action, h: u64)
    requires
        !m.contains_key(action.id),
    ensures
        ({
            let m1 = m.insert(action.id, (ScheduledAction { action, handle: h }));
            &&& m1.contains_key(action.id)
            &&& m1[action.id] == (ScheduledAction { action, handle: h })
            &&& m.dom().finite() ==> m1.len() == m.len() + 1
            &&& m1.remove(action.id) == m
            &&& !m1.remove(action.id).contains_key(action.id)
        }),
{
    let m1 = m.insert(action.id, (ScheduledAction { action, handle: h }));
    assert(m1.remove(action.id) =~= m);
}

/// The count of armed timers is an exact book balance: a serialized history
/// of creates of ids not armed and removes of ids armed, each admitted by
/// the registry it meets, leaves the count raised by the creates and lowered
/// by the removes, with no entry lost or duplicated.
pub proof fn lemma_armed_count(m: Map<i64, ScheduledAction>, ops: Seq<RegistryOp>)
    requires
        m.dom().finite(),
        ops_allowed(m, ops),
    ensures
        apply_ops(m, ops).dom().finite(),
        apply_ops(m, ops).len() == m.len() + creates_in(ops) - removes_in(ops),
    decreases ops.len(),
{
    if ops.len() > 0 {
        let m1 = apply_op(m, ops.first());
        match ops.first() {
            RegistryOp::Create { action, handle } => {
                assert(m1.len() == m.len() + 1);
            },
            RegistryOp::Remove { id } => {
                assert(m1.len() == m.len() - 1);
            },
        }
        lemma_armed_count(m1, ops.drop_first());
    }
}

/// A firing that races a remove of the same id resolves deterministically.
/// Once the remove has discarded the id, no armed timer for it exists, so by
/// `on_fire`'s contract a firing that arrives later decides nothing: the
/// blinds are not driven again and nothing is rearmed.  And when the
/// firing's rearm wins instead, the rearmed timer is still armed, and the
/// remove that follows observes and cancels exactly it, leaving the registry
/// as if the entry had never been rearmed.
pub proof fn lemma_fire_remove_race(m: Map<i64, ScheduledAction>, id: i64, rec: ScheduledAction)
    ensures
        !m.remove(id).contains_key(id),
        m.insert(id, rec).contains_key(id),
        m.insert(id, rec)[id] == rec,
        m.insert(id, rec).remove(id) == m.remove(id),
{
    assert(m.insert(id, rec).remove(id) =~= m.remove(id));
}

} // verus!
