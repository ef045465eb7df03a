//! Writing back what an editor changed.
//!
//! An editor changes values in the cache. At every tick the values of the
//! cache are compared with those of the tick before, and each writable
//! parameter whose value differs is written to the device, once.

use crate::cache::ParamState;
use crate::params::{Access, ParamKind};
use crate::respeaker_device::{outcome_at, DeviceError, ReSpeakerDevice, Session, TransportError};
use crate::value::Value;
use vstd::prelude::*;

verus! {

/// Time between two ticks while an editor is shown, in milliseconds.
pub const EDITOR_TICK_MS: u64 = 50;

/// Time between two ticks while values are recorded, in milliseconds.
pub const RECORDER_TICK_MS: u64 = 10;

/// A value to be written to a parameter.
#[derive(Clone, Copy, Debug, PartialEq)]
pub struct PendingWrite {
    pub kind: ParamKind,
    pub value: Value,
}

/// Whether `kind` has a value in `current` that it had not in `previous`.
pub open spec fn differs(
    previous: Map<ParamKind, Value>,
    current: Map<ParamKind, Value>,
    kind: ParamKind,
) -> bool {
    current.contains_key(kind) && !(previous.contains_key(kind) && previous[kind].same_value(
        current[kind],
    ))
}

/// Whether `kind` is to be written: it is writable and its value differs.
pub open spec fn needs_write(
    previous: Map<ParamKind, Value>,
    current: Map<ParamKind, Value>,
    kind: ParamKind,
) -> bool {
    kind.access() == Access::ReadWrite && differs(previous, current, kind)
}

/// The kinds to be written, in the order of registration.
pub open spec fn changed_kinds(
    previous: Map<ParamKind, Value>,
    current: Map<ParamKind, Value>,
) -> Seq<ParamKind> {
    ParamKind::all_kinds().filter(|k: ParamKind| needs_write(previous, current, k))
}

/// The write of the value that `kind` has in `current`.
pub open spec fn write_of(current: Map<ParamKind, Value>, kind: ParamKind) -> PendingWrite {
    PendingWrite { kind, value: current[kind] }
}

/// The writes that bring the device from `previous` to `current`.
pub open spec fn write_plan(
    previous: Map<ParamKind, Value>,
    current: Map<ParamKind, Value>,
) -> Seq<PendingWrite> {
    changed_kinds(previous, current).map_values(|k: ParamKind| write_of(current, k))
}

/// Whether one of the first `done` writes of `plan` is a write of `kind`.
pub open spec fn written(plan: Seq<PendingWrite>, done: int, kind: ParamKind) -> bool {
    exists|i: int| 0 <= i < done && i < plan.len() && (#[trigger] plan[i]).kind == kind
}

/// The values to compare with at the next tick, when the first `done`
/// writes of `plan` were made: `current` when all were made, and else
/// `previous` with the values that were written.
pub open spec fn adopted(
    previous: Map<ParamKind, Value>,
    current: Map<ParamKind, Value>,
    plan: Seq<PendingWrite>,
    done: int,
) -> Map<ParamKind, Value> {
    if done >= plan.len() {
        current
    } else {
        Map::new(
            |k: ParamKind| previous.contains_key(k) || written(plan, done, k),
            |k: ParamKind|
                if written(plan, done, k) {
                    current[k]
                } else {
                    previous[k]
                },
        )
    }
}

/// What the plan holds: a write for each kind that needs one and for no
/// other, at most one for a kind, in the order of registration, each with
/// the kind's current value. A read-only kind is never written, and
/// nothing is written where nothing differs.
pub proof fn lemma_write_plan(previous: Map<ParamKind, Value>, current: Map<ParamKind, Value>)
    ensures
        forall|k: ParamKind|
            written(write_plan(previous, current), write_plan(previous, current).len() as int, k)
                <==> needs_write(previous, current, k),
        forall|i: int, j: int|
            0 <= i < j < write_plan(previous, current).len() ==> (
            #[trigger] write_plan(previous, current)[i]).kind.spec_index() < (
            #[trigger] write_plan(previous, current)[j]).kind.spec_index(),
        forall|i: int|
            0 <= i < write_plan(previous, current).len() ==> {
                let w = #[trigger] write_plan(previous, current)[i];
                &&& w.kind.access() == Access::ReadWrite
                &&& current.contains_key(w.kind)
                &&& w.value == current[w.kind]
            },
        (forall|k: ParamKind| !differs(previous, current, k)) ==> write_plan(
            previous,
            current,
        ).len() == 0,
{
    let all = ParamKind::all_kinds();
    let keep = |k: ParamKind| needs_write(previous, current, k);
    let kinds = changed_kinds(previous, current);
    let plan = write_plan(previous, current);
    ParamKind::lemma_all_kinds_in_order();
    ParamKind::lemma_filter_keeps_order(all, keep);
    assert forall|k: ParamKind| written(plan, plan.len() as int, k) <==> needs_write(
        previous,
        current,
        k,
    ) by {
        if written(plan, plan.len() as int, k) {
            let i = choose|i: int| 0 <= i < plan.len() && (#[trigger] plan[i]).kind == k;
            assert(kinds[i] == k);
        }
        if needs_write(previous, current, k) {
            k.lemma_index_determines_kind();
            assert(all[k.spec_index()] == k);
            assert(kinds.contains(all[k.spec_index()]));
            let i = choose|i: int| 0 <= i < kinds.len() && kinds[i] == k;
            assert(plan[i].kind == k);
        }
    }
    assert forall|i: int, j: int| 0 <= i < j < plan.len() implies (
    #[trigger] plan[i]).kind.spec_index() < (#[trigger] plan[j]).kind.spec_index() by {
        assert(kinds[i].spec_index() < kinds[j].spec_index());
    }
    assert forall|i: int| 0 <= i < plan.len() implies {
        let w = #[trigger] plan[i];
        &&& w.kind.access() == Access::ReadWrite
        &&& current.contains_key(w.kind)
        &&& w.value == current[w.kind]
    } by {
        assert(keep(kinds[i]));
    }
    if forall|k: ParamKind| !differs(previous, current, k) {
        if plan.len() > 0 {
            assert(keep(kinds[0]));
        }
    }
}

/// What was written at a tick is not written again at the next while the
/// cache stays as it is, and what needed no write needs none then. A NaN
/// is the exception: it differs from itself, and is written at every
/// tick.
pub proof fn lemma_written_once(
    previous: Map<ParamKind, Value>,
    current: Map<ParamKind, Value>,
    done: int,
    kind: ParamKind,
)
    requires
        0 <= done <= write_plan(previous, current).len(),
        current.contains_key(kind) ==> current[kind].same_value(current[kind]),
        written(write_plan(previous, current), done, kind) || !needs_write(
            previous,
            current,
            kind,
        ),
    ensures
        !needs_write(
            adopted(previous, current, write_plan(previous, current), done),
            current,
            kind,
        ),
{
    let plan = write_plan(previous, current);
    lemma_write_plan(previous, current);
    if written(plan, done, kind) {
        let i = choose|i: int| 0 <= i < done && i < plan.len() && (#[trigger] plan[i]).kind == kind;
        assert(current.contains_key(plan[i].kind));
    }
}

/// What a tick reads and what it writes never meet: no read-only kind is
/// in a plan of writes.
pub proof fn lemma_read_only_kinds_are_not_written(
    previous: Map<ParamKind, Value>,
    current: Map<ParamKind, Value>,
    kind: ParamKind,
)
    requires
        ParamKind::read_only_kinds().contains(kind),
    ensures
        !written(write_plan(previous, current), write_plan(previous, current).len() as int, kind),
{
    ParamKind::lemma_read_only_kinds();
    lemma_write_plan(previous, current);
}

/// The writes that bring the device from `previous` to `current`.
pub fn pending_writes(previous: &ParamState, current: &ParamState) -> (plan: Vec<PendingWrite>)
    ensures
        plan@ == write_plan(previous@, current@),
{
    let all = ParamKind::all();
    let mut plan: Vec<PendingWrite> = Vec::new();
    let mut i: usize = 0;
    let ghost keep = |k: ParamKind| needs_write(previous@, current@, k);
    let ghost entry = |k: ParamKind| write_of(current@, k);
    proof {
        reveal(Seq::filter);
        assert(all@.take(0) =~= Seq::<ParamKind>::empty());
    }
    while i < all.len()
        invariant
            i <= all@.len(),
            all@ == ParamKind::all_kinds(),
            keep == |k: ParamKind| needs_write(previous@, current@, k),
            entry == |k: ParamKind| write_of(current@, k),
            plan@ == all@.take(i as int).filter(keep).map_values(entry),
        decreases all@.len() - i,
    {
        let kind = all[i];
        proof {
            reveal(Seq::filter);
            assert(all@.take(i as int + 1).drop_last() =~= all@.take(i as int));
            assert(all@.take(i as int + 1).last() == kind);
        }
        let ghost kept = all@.take(i as int).filter(keep);
        if kind.def().access == Access::ReadWrite {
            match current.get(kind) {
                None => {},
                Some(value) => {
                    let same: bool = match previous.get(kind) {
                        None => false,
                        Some(before) => before.value_eq(&value),
                    };
                    if !same {
                        plan.push(PendingWrite { kind, value });
                        assert(plan@ =~= kept.push(kind).map_values(entry));
                    }
                },
            }
        }
        i += 1;
    }
    proof {
        assert(all@.take(all@.len() as int) =~= all@);
    }
    plan
}

impl Session {
    /// The writes of `plan` in their order, the outcome at each write's
    /// position: the session after them, how many were made, and the first
    /// error. A write after the first error is not made, a value that may
    /// not be written is an error before any outcome is asked for, and a
    /// write without an outcome is an error.
    pub open spec fn write_each(
        self,
        plan: Seq<PendingWrite>,
        outcomes: Seq<Result<usize, TransportError>>,
    ) -> (Session, int, Option<DeviceError>)
        decreases plan.len(),
    {
        if plan.len() == 0 {
            (self, 0, None)
        } else {
            let (before, done, failed) = self.write_each(plan.drop_last(), outcomes);
            let next = plan.last();
            match failed {
                Some(e) => (before, done, Some(e)),
                None => match before.write_gate(next.kind, next.value) {
                    Some(e) => (before, done, Some(e)),
                    None => match outcome_at(outcomes, plan.len() - 1) {
                        None => (before, done, Some(DeviceError::NoOutcome)),
                        Some(outcome) => {
                            let (after, result) = before.write(next.kind, next.value, outcome);
                            match result {
                                Ok(_) => (after, done + 1, None),
                                Err(e) => (after, done, Some(e)),
                            }
                        },
                    },
                },
            }
        }
    }

    /// Once a write has failed, the writes that follow are not made.
    pub proof fn lemma_write_each_stops(
        self,
        plan: Seq<PendingWrite>,
        outcomes: Seq<Result<usize, TransportError>>,
        n: int,
    )
        requires
            0 <= n <= plan.len(),
            self.write_each(plan.take(n), outcomes).2 is Some,
        ensures
            self.write_each(plan, outcomes) == self.write_each(plan.take(n), outcomes),
        decreases plan.len() - n,
    {
        if n < plan.len() {
            assert(plan.take(n + 1).drop_last() =~= plan.take(n));
            self.lemma_write_each_stops(plan, outcomes, n + 1);
        } else {
            assert(plan.take(n) =~= plan);
        }
    }

    /// As many writes are made as the plan holds, or fewer with an error.
    pub proof fn lemma_write_each_count(
        self,
        plan: Seq<PendingWrite>,
        outcomes: Seq<Result<usize, TransportError>>,
    )
        ensures
            0 <= self.write_each(plan, outcomes).1 <= plan.len(),
            self.write_each(plan, outcomes).2 is None <==> self.write_each(plan, outcomes).1
                == plan.len(),
        decreases plan.len(),
    {
        if plan.len() > 0 {
            self.lemma_write_each_count(plan.drop_last(), outcomes);
        }
    }
}

impl ReSpeakerDevice {
    /// Takes the outcomes of the writes of `plan`, the outcome at each
    /// write's position, and gives how many writes were made and the first
    /// error.
    pub fn write_each(
        &mut self,
        plan: &Vec<PendingWrite>,
        outcomes: &Vec<Result<usize, TransportError>>,
    ) -> (r: (usize, Option<DeviceError>))
        ensures
            (final(self)@, r.0 as int, r.1) == old(self)@.write_each(plan@, outcomes@),
            r.0 <= plan@.len(),
    {
        let ghost start = self@;
        let mut i: usize = 0;
        assert(plan@.take(0) =~= Seq::<PendingWrite>::empty());
        while i < plan.len()
            invariant
                i <= plan@.len(),
                start == old(self)@,
                (self@, i as int, None::<DeviceError>) == start.write_each(
                    plan@.take(i as int),
                    outcomes@,
                ),
            decreases plan@.len() - i,
        {
            let next = plan[i];
            let ghost prefix = plan@.take(i as int + 1);
            proof {
                assert(prefix.drop_last() =~= plan@.take(i as int));
                assert(prefix.last() == next);
            }
            let result = if i < outcomes.len() {
                self.write(&next.kind, &next.value, &outcomes[i])
            } else {
                match crate::usb::validate(&next.kind.def(), &next.value) {
                    Err(e) => Err(DeviceError::Validation(e)),
                    Ok(()) => match self.state() {
                        crate::respeaker_device::SessionState::Open => Err(DeviceError::NoOutcome),
                        crate::respeaker_device::SessionState::Resetting => Err(
                            DeviceError::ResetInFlight,
                        ),
                        crate::respeaker_device::SessionState::Closed => Err(DeviceError::Closed),
                    },
                }
            };
            proof {
                assert(start.write_each(prefix, outcomes@) == (
                    self@,
                    match result {
                        Ok(_) => i as int + 1,
                        Err(_) => i as int,
                    },
                    match result {
                        Ok(_) => None::<DeviceError>,
                        Err(e) => Some(e),
                    },
                ));
            }
            match result {
                Err(e) => {
                    proof {
                        start.lemma_write_each_stops(plan@, outcomes@, i as int + 1);
                    }
                    return (i, Some(e));
                },
                Ok(_) => {},
            }
            i += 1;
        }
        assert(plan@.take(plan@.len() as int) =~= plan@);
        (i, None)
    }
}

/// What the values of the cache are compared with at a tick: the values
/// of the tick before.
pub struct Reconciler {
    previous: ParamState,
}

impl View for Reconciler {
    type V = Map<ParamKind, Value>;

    closed spec fn view(&self) -> Map<ParamKind, Value> {
        self.previous@
    }
}

impl Reconciler {
    /// Starts from the values `previous`.
    pub fn new(previous: ParamState) -> (r: Reconciler)
        ensures
            r@ == previous@,
    {
        Reconciler { previous }
    }

    /// The values of the tick before.
    pub fn previous(&self) -> (r: &ParamState)
        ensures
            r@ == self@,
    {
        &self.previous
    }

    /// The writes that a tick makes when the cache holds `current`.
    pub fn plan(&self, current: &ParamState) -> (plan: Vec<PendingWrite>)
        ensures
            plan@ == write_plan(self@, current@),
    {
        pending_writes(&self.previous, current)
    }

    /// Ends a tick. `current` is what the cache held when the tick's writes
    /// were planned, and `outcomes` holds the outcome of each of those
    /// writes that was made. The device takes the outcomes, and what was
    /// written is not written again at the next tick. Gives the number of
    /// writes made, or the first error.
    pub fn tick(
        &mut self,
        device: &mut ReSpeakerDevice,
        current: &ParamState,
        outcomes: &Vec<Result<usize, TransportError>>,
    ) -> (r: Result<usize, DeviceError>)
        ensures
            ({
                let plan = write_plan(old(self)@, current@);
                let (session, done, failed) = old(device)@.write_each(plan, outcomes@);
                &&& final(device)@ == session
                &&& final(self)@ == adopted(old(self)@, current@, plan, done)
                &&& r == (match failed {
                    None => Ok::<usize, DeviceError>(done as usize),
                    Some(e) => Err(e),
                })
            }),
    {
        let plan = self.plan(current);
        let ghost before = self@;
        proof {
            device@.lemma_write_each_count(plan@, outcomes@);
        }
        let (done, failed) = device.write_each(&plan, outcomes);
        match failed {
            None => {
                self.previous = current.snapshot();
                Ok(done)
            },
            Some(e) => {
                let mut kept = self.previous.snapshot();
                let mut i: usize = 0;
                while i < done
                    invariant
                        i <= done < plan@.len(),
                        plan@ == write_plan(before, current@),
                        kept@ =~= adopted(before, current@, plan@, i as int),
                    decreases done - i,
                {
                    let next = plan[i];
                    proof {
                        lemma_write_plan(before, current@);
                        let now = kept@.insert(next.kind, next.value);
                        let then = adopted(before, current@, plan@, i as int + 1);
                        assert forall|k: ParamKind| written(plan@, i as int + 1, k) <==> (written(
                            plan@,
                            i as int,
                            k,
                        ) || k == next.kind) by {
                            if written(plan@, i as int + 1, k) {
                                let j = choose|j: int|
                                    0 <= j < i as int + 1 && j < plan@.len() && (
                                    #[trigger] plan@[j]).kind == k;
                                if j < i {
                                    assert(written(plan@, i as int, k));
                                }
                            }
                            if written(plan@, i as int, k) {
                                let j = choose|j: int|
                                    0 <= j < i as int && j < plan@.len() && (
                                    #[trigger] plan@[j]).kind == k;
                                assert(plan@[j].kind == k);
                            }
                            if k == next.kind {
                                assert(plan@[i as int].kind == k);
                            }
                        }
                        assert(now =~= then);
                    }
                    kept.set(next.kind, next.value);
                    i += 1;
                }
                self.previous = kept;
                Err(e)
            },
        }
    }
}

} // verus!
