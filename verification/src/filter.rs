//! The filter evaluator.
//!
//! A subscription may carry a filter predicate: a structured value that, when
//! it is an object, lists key/expected-value pairs. A payload satisfies the
//! predicate when it carries every listed key with exactly the expected value
//! (deep structural equality). An absent predicate matches everything, and so
//! does a predicate that is not an object: a malformed predicate must never
//! silently block delivery.

#![verifier::loop_isolation(false)]

use vstd::prelude::*;
use crate::value::{get_field, lemma_obj_view, Val, Value};

verus! {

broadcast use vstd::std_specs::vec::group_vec_axioms, vstd::seq::group_seq_axioms;

/// The model of an optional filter value.
pub open spec fn opt_model(filter: Option<Value>) -> Option<Val> {
    match filter {
        Some(f) => Some(f@),
        None => None,
    }
}

/// Whether a payload satisfies a filter predicate: every key of an object
/// predicate must be present in the payload with exactly the expected value;
/// an absent or non-object predicate matches every payload.
pub open spec fn spec_matches(payload: Val, filter: Option<Val>) -> bool {
    match filter {
        None => true,
        Some(f) => match f {
            Val::Obj(entries) => forall|i: int|
                0 <= i < entries.len() ==> get_field(payload, (#[trigger] entries[i]).0) == Some(
                    entries[i].1,
                ),
            _ => true,
        },
    }
}

/// Decides whether `payload` satisfies the filter predicate `filter`.
pub fn matches(payload: &Value, filter: &Option<Value>) -> (r: bool)
    ensures
        r == spec_matches(payload@, opt_model(*filter)),
{
    match filter {
        None => true,
        Some(f) => matches_value(payload, f),
    }
}

/// Decides whether `payload` satisfies the filter predicate value `f`.
pub fn matches_value(payload: &Value, f: &Value) -> (r: bool)
    ensures
        r == spec_matches(payload@, Some(f@)),
{
    match f {
        Value::Obj(entries) => {
            proof {
                lemma_obj_view(f);
            }
            let ghost ventries = f@->Obj_0;
            proof {
                assert(f@ == Val::Obj(ventries));
            }
            let mut i: usize = 0;
            while i < entries.len()
                invariant
                    i <= entries@.len(),
                    forall|j: int|
                        0 <= j < i ==> get_field(payload@, (#[trigger] ventries[j]).0) == Some(
                            ventries[j].1,
                        ),
                decreases entries@.len() - i,
            {
                let expected = &entries[i].1;
                match payload.get(entries[i].0.as_str()) {
                    Some(actual) => {
                        if !actual.deep_eq(expected) {
                            proof {
                                assert(ventries[i as int] == (
                                    entries@[i as int].0@,
                                    entries@[i as int].1@,
                                ));
                            }
                            return false;
                        }
                    },
                    None => {
                        proof {
                            assert(ventries[i as int] == (
                                entries@[i as int].0@,
                                entries@[i as int].1@,
                            ));
                        }
                        return false;
                    },
                }
                i = i + 1;
            }
            true
        },
        _ => true,
    }
}

} // verus!
