//! Structured payload and filter values.
//!
//! Event payloads and filter predicates are structured data: null, booleans,
//! integers, strings, arrays, and objects (ordered key/value entry lists).
//! The mathematical model of a `Value` is the ghost type `Val`, in which
//! strings are character sequences and the containers are `Seq`s.

#![verifier::loop_isolation(false)]

use vstd::prelude::*;
use vstd::string::StrSliceExecFns;

verus! {

broadcast use vstd::std_specs::vec::group_vec_axioms, vstd::seq::group_seq_axioms;

/// Mathematical model of a structured value.
#[verifier::ext_equal]
pub enum Val {
    Null,
    Bool(bool),
    Int(int),
    Str(Seq<char>),
    Arr(Seq<Val>),
    Obj(Seq<(Seq<char>, Val)>),
}

/// A structured value: an event payload, a filter predicate, or a field of either.
#[derive(Debug)]
pub enum Value {
    Null,
    Bool(bool),
    Int(i64),
    Str(String),
    Arr(Vec<Value>),
    Obj(Vec<(String, Value)>),
}

impl View for Value {
    type V = Val;

    open spec fn view(&self) -> Val
        decreases self,
    {
        match self {
            Value::Null => Val::Null,
            Value::Bool(b) => Val::Bool(*b),
            Value::Int(i) => Val::Int(*i as int),
            Value::Str(s) => Val::Str(s@),
            Value::Arr(elems) => Val::Arr(arr_model(elems@)),
            Value::Obj(entries) => Val::Obj(obj_model(entries@)),
        }
    }
}

/// The elementwise model of array elements.
pub open spec fn arr_model(elems: Seq<Value>) -> Seq<Val>
    decreases elems,
{
    if elems.len() == 0 {
        Seq::empty()
    } else {
        arr_model(elems.drop_last()).push(elems.last()@)
    }
}

/// The entrywise model of object entries.
pub open spec fn obj_model(entries: Seq<(String, Value)>) -> Seq<(Seq<char>, Val)>
    decreases entries,
{
    if entries.len() == 0 {
        Seq::empty()
    } else {
        obj_model(entries.drop_last()).push((entries.last().0@, entries.last().1@))
    }
}

/// The model of array elements is their models, index for index.
pub proof fn lemma_arr_model(elems: Seq<Value>)
    ensures
        arr_model(elems).len() == elems.len(),
        forall|j: int| 0 <= j < elems.len() ==> arr_model(elems)[j] == elems[j]@,
    decreases elems.len(),
{
    if elems.len() > 0 {
        let prev = elems.drop_last();
        lemma_arr_model(prev);
        assert(arr_model(elems) == arr_model(prev).push(elems.last()@));
        assert forall|j: int| 0 <= j < elems.len() implies arr_model(elems)[j] == elems[j]@ by {
            if j < elems.len() - 1 {
                assert(arr_model(elems)[j] == arr_model(prev)[j]);
                assert(prev[j] == elems[j]);
            } else {
                assert(arr_model(elems)[j] == elems.last()@);
            }
        }
    } else {
        assert(arr_model(elems) =~= Seq::empty());
    }
}

/// The model of object entries is their models, entry for entry.
pub proof fn lemma_obj_model(entries: Seq<(String, Value)>)
    ensures
        obj_model(entries).len() == entries.len(),
        forall|j: int|
            0 <= j < entries.len() ==> obj_model(entries)[j] == (
            entries[j].0@,
            entries[j].1@,
            ),
    decreases entries.len(),
{
    if entries.len() > 0 {
        let prev = entries.drop_last();
        lemma_obj_model(prev);
        assert(obj_model(entries) == obj_model(prev).push(
            (entries.last().0@, entries.last().1@),
        ));
        assert forall|j: int|
            0 <= j < entries.len() implies obj_model(entries)[j] == (
            entries[j].0@,
            entries[j].1@,
        ) by {
            if j < entries.len() - 1 {
                assert(obj_model(entries)[j] == obj_model(prev)[j]);
                assert(prev[j] == entries[j]);
            } else {
                assert(obj_model(entries)[j] == (entries.last().0@, entries.last().1@));
            }
        }
    } else {
        assert(obj_model(entries) =~= Seq::empty());
    }
}

/// An array value's model is the elementwise model of its elements.
pub proof fn lemma_arr_view(v: &Value)
    requires
        v is Arr,
    ensures
        v@ is Arr,
        (v@->Arr_0).len() == v->Arr_0@.len(),
        forall|j: int| 0 <= j < v->Arr_0@.len() ==> (v@->Arr_0)[j] == v->Arr_0@[j]@,
{
    lemma_arr_model(v->Arr_0@);
}

/// An object value's model is the entrywise model of its entries.
pub proof fn lemma_obj_view(v: &Value)
    requires
        v is Obj,
    ensures
        v@ is Obj,
        (v@->Obj_0).len() == v->Obj_0@.len(),
        forall|j: int|
            0 <= j < v->Obj_0@.len() ==> (v@->Obj_0)[j] == (
            v->Obj_0@[j].0@,
            v->Obj_0@[j].1@,
            ),
{
    lemma_obj_model(v->Obj_0@);
}

/// The value at `key` among object entries: the first entry whose key is `key`.
pub open spec fn lookup(entries: Seq<(Seq<char>, Val)>, key: Seq<char>) -> Option<Val>
    decreases entries.len(),
{
    if entries.len() == 0 {
        None
    } else if entries[0].0 == key {
        Some(entries[0].1)
    } else {
        lookup(entries.drop_first(), key)
    }
}

/// The value at `key` of a structured value: `None` unless the value is an
/// object that carries the key.
pub open spec fn get_field(v: Val, key: Seq<char>) -> Option<Val> {
    match v {
        Val::Obj(entries) => lookup(entries, key),
        _ => None,
    }
}

/// Skipping entries whose key is not the sought one leaves the lookup result unchanged.
proof fn lemma_lookup_skip(entries: Seq<(Seq<char>, Val)>, key: Seq<char>, i: int)
    requires
        0 <= i <= entries.len(),
        forall|j: int| 0 <= j < i ==> entries[j].0 != key,
    ensures
        lookup(entries, key) == lookup(entries.skip(i), key),
    decreases i,
{
    if i > 0 {
        lemma_lookup_skip(entries.drop_first(), key, i - 1);
        assert(entries.drop_first().skip(i - 1) =~= entries.skip(i));
    } else {
        assert(entries.skip(0) =~= entries);
    }
}

/// Character-for-character string comparison.
pub fn str_eq(a: &str, b: &str) -> (r: bool)
    ensures
        r == (a@ == b@),
{
    let alen = a.unicode_len();
    let blen = b.unicode_len();
    if alen != blen {
        return false;
    }
    let mut i: usize = 0;
    while i < alen
        invariant
            i <= alen,
            alen == a@.len(),
            blen == b@.len(),
            alen == blen,
            forall|j: int| 0 <= j < i ==> a@[j] == b@[j],
        decreases alen - i,
    {
        if a.get_char(i) != b.get_char(i) {
            return false;
        }
        i = i + 1;
    }
    proof {
        assert(a@ =~= b@);
    }
    true
}

impl Value {
    /// The value stored at `key`, where this value is an object carrying `key`.
    pub fn get<'a>(&'a self, key: &str) -> (r: Option<&'a Value>)
        ensures
            match r {
                Some(v) => get_field(self@, key@) == Some(v@),
                None => get_field(self@, key@) is None,
            },
    {
        match self {
            Value::Obj(entries) => {
                proof {
                    lemma_obj_view(self);
                }
                let ghost ventries = self@->Obj_0;
                let mut i: usize = 0;
                while i < entries.len()
                    invariant
                        i <= entries@.len(),
                        forall|j: int| 0 <= j < i ==> ventries[j].0 != key@,
                    decreases entries@.len() - i,
                {
                    if str_eq(entries[i].0.as_str(), key) {
                        proof {
                            lemma_lookup_skip(ventries, key@, i as int);
                        }
                        return Some(&entries[i].1);
                    }
                    i = i + 1;
                }
                proof {
                    lemma_lookup_skip(ventries, key@, i as int);
                }
                None
            },
            _ => None,
        }
    }

    /// Deep structural equality of two values: equality of their models.
    pub fn deep_eq(&self, other: &Value) -> (r: bool)
        ensures
            r == (self@ == other@),
        decreases self,
    {
        match (self, other) {
            (Value::Null, Value::Null) => true,
            (Value::Bool(x), Value::Bool(y)) => x == y,
            (Value::Int(x), Value::Int(y)) => x == y,
            (Value::Str(x), Value::Str(y)) => str_eq(x.as_str(), y.as_str()),
            (Value::Arr(x), Value::Arr(y)) => {
                proof {
                    lemma_arr_view(self);
                    lemma_arr_view(other);
                }
                let ghost va = self@->Arr_0;
                let ghost vb = other@->Arr_0;
                proof {
                    assert(self@ == Val::Arr(va));
                    assert(other@ == Val::Arr(vb));
                }
                if x.len() != y.len() {
                    return false;
                }
                let mut i: usize = 0;
                while i < x.len()
                    invariant
                        i <= x@.len(),
                        x@.len() == y@.len(),
                        forall|j: int| 0 <= j < i ==> va[j] == vb[j],
                    decreases x@.len() - i,
                {
                    if !x[i].deep_eq(&y[i]) {
                        proof {
                            assert(va[i as int] == x@[i as int]@);
                            assert(vb[i as int] == y@[i as int]@);
                        }
                        return false;
                    }
                    i = i + 1;
                }
                proof {
                    assert(va =~= vb);
                }
                true
            },
            (Value::Obj(x), Value::Obj(y)) => {
                proof {
                    lemma_obj_view(self);
                    lemma_obj_view(other);
                }
                let ghost va = self@->Obj_0;
                let ghost vb = other@->Obj_0;
                proof {
                    assert(self@ == Val::Obj(va));
                    assert(other@ == Val::Obj(vb));
                }
                if x.len() != y.len() {
                    return false;
                }
                let mut i: usize = 0;
                while i < x.len()
                    invariant
                        i <= x@.len(),
                        x@.len() == y@.len(),
                        forall|j: int| 0 <= j < i ==> va[j] == vb[j],
                    decreases x@.len() - i,
                {
                    if !str_eq(x[i].0.as_str(), y[i].0.as_str()) {
                        proof {
                            assert(va[i as int] == (x@[i as int].0@, x@[i as int].1@));
                            assert(vb[i as int] == (y@[i as int].0@, y@[i as int].1@));
                        }
                        return false;
                    }
                    if !x[i].1.deep_eq(&y[i].1) {
                        proof {
                            assert(va[i as int] == (x@[i as int].0@, x@[i as int].1@));
                            assert(vb[i as int] == (y@[i as int].0@, y@[i as int].1@));
                        }
                        return false;
                    }
                    i = i + 1;
                }
                proof {
                    assert(va =~= vb);
                }
                true
            },
            _ => false,
        }
    }

    /// A fresh value with the same model.
    pub fn duplicate(&self) -> (r: Value)
        ensures
            r@ == self@,
        decreases self,
    {
        match self {
            Value::Null => Value::Null,
            Value::Bool(b) => Value::Bool(*b),
            Value::Int(i) => Value::Int(*i),
            Value::Str(s) => Value::Str(s.clone()),
            Value::Arr(elems) => {
                proof {
                    lemma_arr_view(self);
                }
                let ghost va = self@->Arr_0;
                let mut out: Vec<Value> = Vec::new();
                let mut i: usize = 0;
                while i < elems.len()
                    invariant
                        i <= elems@.len(),
                        out@.len() == i,
                        forall|j: int| 0 <= j < i ==> out@[j]@ == va[j],
                    decreases elems@.len() - i,
                {
                    out.push(elems[i].duplicate());
                    i = i + 1;
                }
                let result = Value::Arr(out);
                proof {
                    lemma_arr_view(&result);
                    assert(result@->Arr_0 =~= va);
                }
                result
            },
            Value::Obj(entries) => {
                proof {
                    lemma_obj_view(self);
                }
                let ghost va = self@->Obj_0;
                let mut out: Vec<(String, Value)> = Vec::new();
                let mut i: usize = 0;
                while i < entries.len()
                    invariant
                        i <= entries@.len(),
                        out@.len() == i,
                        forall|j: int| 0 <= j < i ==> (out@[j].0@, out@[j].1@) == va[j],
                    decreases entries@.len() - i,
                {
                    let key = entries[i].0.clone();
                    let val = entries[i].1.duplicate();
                    out.push((key, val));
                    i = i + 1;
                }
                let result = Value::Obj(out);
                proof {
                    lemma_obj_view(&result);
                    assert(result@->Obj_0 =~= va);
                }
                result
            },
        }
    }
}

} // verus!
