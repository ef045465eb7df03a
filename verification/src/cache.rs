//! The last known value of each parameter.

use crate::params::{ParamKind, KIND_COUNT};
use crate::value::Value;
use vstd::prelude::*;

verus! {

/// The last value observed of each parameter, for those observed at all.
/// Its view is the map from the kinds that have a value to that value.
#[derive(Debug)]
pub struct ParamState {
    /// One slot for each kind, at the kind's position of registration.
    current_params: Vec<Option<Value>>,
}

impl View for ParamState {
    type V = Map<ParamKind, Value>;

    closed spec fn view(&self) -> Map<ParamKind, Value> {
        Map::new(
            |k: ParamKind| self.current_params@[k.spec_index()] is Some,
            |k: ParamKind| self.current_params@[k.spec_index()]->Some_0,
        )
    }
}

impl Clone for ParamState {
    fn clone(&self) -> (r: ParamState)
        ensures
            r@ == self@,
    {
        self.snapshot()
    }
}

impl ParamState {
    #[verifier::type_invariant]
    spec fn well_formed(self) -> bool {
        self.current_params@.len() == KIND_COUNT
    }

    /// What `get` gives for `kind` when the values are `values`.
    pub open spec fn lookup(values: Map<ParamKind, Value>, kind: ParamKind) -> Option<Value> {
        if values.contains_key(kind) {
            Some(values[kind])
        } else {
            None
        }
    }

    /// A state without any value.
    pub fn new() -> (r: ParamState)
        ensures
            r@ == Map::<ParamKind, Value>::empty(),
    {
        let mut slots: Vec<Option<Value>> = Vec::new();
        let mut i: usize = 0;
        while i < KIND_COUNT
            invariant
                i <= KIND_COUNT,
                slots@.len() == i,
                forall|j: int| 0 <= j < i ==> slots@[j] is None,
            decreases KIND_COUNT - i,
        {
            slots.push(None);
            i += 1;
        }
        let r = ParamState { current_params: slots };
        proof {
            assert forall|k: ParamKind| !r@.contains_key(k) by {
                k.lemma_index_determines_kind();
            }
            assert(r@ =~= Map::<ParamKind, Value>::empty());
        }
        r
    }

    /// The value of `kind`, if it has one.
    pub fn get(&self, kind: ParamKind) -> (r: Option<Value>)
        ensures
            r == Self::lookup(self@, kind),
    {
        proof {
            use_type_invariant(self);
        }
        self.current_params[kind.index()]
    }

    /// Gives `kind` the value `value`.
    pub fn set(&mut self, kind: ParamKind, value: Value)
        ensures
            final(self)@ == old(self)@.insert(kind, value),
    {
        proof {
            use_type_invariant(&*self);
        }
        let at: usize = kind.index();
        let mut slots: Vec<Option<Value>> = Vec::new();
        let mut i: usize = 0;
        while i < KIND_COUNT
            invariant
                i <= KIND_COUNT,
                at < KIND_COUNT,
                self.current_params@.len() == KIND_COUNT,
                slots@.len() == i,
                forall|j: int|
                    0 <= j < i ==> slots@[j] == (if j == at {
                        Some(value)
                    } else {
                        self.current_params@[j]
                    }),
            decreases KIND_COUNT - i,
        {
            if i == at {
                slots.push(Some(value));
            } else {
                slots.push(self.current_params[i]);
            }
            i += 1;
        }
        self.current_params = slots;
        proof {
            assert forall|k: ParamKind| k != kind implies k.spec_index() != kind.spec_index() by {
                k.lemma_index_determines_kind();
                kind.lemma_index_determines_kind();
            }
            assert(self@ =~= old(self)@.insert(kind, value));
        }
    }

    /// A copy of the state as it is now.
    pub fn snapshot(&self) -> (r: ParamState)
        ensures
            r@ == self@,
    {
        proof {
            use_type_invariant(self);
        }
        let mut slots: Vec<Option<Value>> = Vec::new();
        let mut i: usize = 0;
        while i < KIND_COUNT
            invariant
                i <= KIND_COUNT,
                self.current_params@.len() == KIND_COUNT,
                slots@.len() == i,
                forall|j: int| 0 <= j < i ==> slots@[j] == self.current_params@[j],
            decreases KIND_COUNT - i,
        {
            slots.push(self.current_params[i]);
            i += 1;
        }
        let r = ParamState { current_params: slots };
        proof {
            assert forall|k: ParamKind|
                r.current_params@[k.spec_index()] == self.current_params@[k.spec_index()] by {
                k.lemma_index_determines_kind();
            }
            assert(r@ =~= self@);
        }
        r
    }
}

} // verus!
