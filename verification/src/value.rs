//! Concrete record values that a validation plan runs against.
//!
//! A field's value is a plain datum: absent, a boolean, an integer, a
//! string, or a nested sub-record.  The mathematical model of a value is
//! given by [`value_model`]; two values are considered equal by the
//! `must_match` validator exactly when their models are equal.

use vstd::prelude::*;

verus! {

broadcast use vstd::std_specs::vec::axiom_vec_index_decreases;

/// Model of a concrete value, used in contracts.
pub enum ValModel {
    Absent,
    Truth(bool),
    Num(int),
    Text(Seq<char>),
    Sub(Seq<(Seq<char>, ValModel)>),
}

/// A concrete field value handed to the validation routine.
pub enum Value {
    /// A missing value (an unset optional field).
    Absent,
    /// A boolean datum.
    Truth(bool),
    /// An integer datum.
    Num(i64),
    /// A string datum.
    Text(String),
    /// A nested sub-record.
    Sub(Record),
}

/// One named field of a concrete record.
pub struct FieldValue {
    pub name: String,
    pub value: Value,
}

/// A concrete record instance: named field values in declaration order.
pub struct Record {
    pub fields: Vec<FieldValue>,
}

/// The mathematical model of a value.
pub open spec fn value_model(v: Value) -> ValModel
    decreases v,
    via value_model_decreases
{
    match v {
        Value::Absent => ValModel::Absent,
        Value::Truth(b) => ValModel::Truth(b),
        Value::Num(i) => ValModel::Num(i as int),
        Value::Text(s) => ValModel::Text(s@),
        Value::Sub(r) => ValModel::Sub(fields_model(r.fields@)),
    }
}

/// The mathematical model of a sequence of record fields: their names and
/// value models, in order.
pub open spec fn fields_model(fs: Seq<FieldValue>) -> Seq<(Seq<char>, ValModel)>
    decreases fs,
    via fields_model_decreases
{
    if fs.len() == 0 {
        Seq::empty()
    } else {
        seq![(fs[0].name@, value_model(fs[0].value))] + fields_model(fs.drop_first())
    }
}

#[via_fn]
proof fn value_model_decreases(v: Value) {
    match v {
        Value::Sub(r) => {
            assert(decreases_to!(v => r.fields@));
        },
        _ => {},
    }
}

#[via_fn]
proof fn fields_model_decreases(fs: Seq<FieldValue>) {
    if fs.len() > 0 {
        assert(decreases_to!(fs => fs[0]));
        vstd::seq::axiom_seq_subrange_decreases(fs, 1, fs.len() as int);
        assert(fs.drop_first() == fs.subrange(1, fs.len() as int));
    }
}

/// The mathematical model of a record: its fields' names and value models,
/// in order.
pub open spec fn record_model(r: Record) -> Seq<(Seq<char>, ValModel)> {
    fields_model(r.fields@)
}

/// The field model sequence is as long as the field sequence, and pairs up
/// with it pointwise.
pub proof fn lemma_fields_model_index(fs: Seq<FieldValue>)
    ensures
        fields_model(fs).len() == fs.len(),
        forall|i: int|
            0 <= i < fs.len() ==> #[trigger] fields_model(fs)[i] == (
            fs[i].name@,
            value_model(fs[i].value),
            ),
    decreases fs.len(),
{
    if fs.len() > 0 {
        lemma_fields_model_index(fs.drop_first());
        assert forall|i: int| 0 <= i < fs.len() implies #[trigger] fields_model(fs)[i] == (
            fs[i].name@,
            value_model(fs[i].value),
        ) by {
            if i > 0 {
                assert(fields_model(fs)[i] == fields_model(fs.drop_first())[i - 1]);
                assert(fs.drop_first()[i - 1] == fs[i]);
            }
        }
    }
}

/// Deep equality of two values: true exactly when their models are equal.
/// This is the comparison `must_match` performs at run time.
pub fn value_eq(a: &Value, b: &Value) -> (r: bool)
    ensures
        r == (value_model(*a) == value_model(*b)),
    decreases *a,
{
    match (a, b) {
        (Value::Absent, Value::Absent) => true,
        (Value::Truth(x), Value::Truth(y)) => *x == *y,
        (Value::Num(x), Value::Num(y)) => *x == *y,
        (Value::Text(x), Value::Text(y)) => *x == *y,
        (Value::Sub(x), Value::Sub(y)) => {
            proof {
                lemma_fields_model_index(x.fields@);
                lemma_fields_model_index(y.fields@);
                assert(decreases_to!(*a => *x));
            }
            if x.fields.len() != y.fields.len() {
                assert(fields_model(x.fields@).len() != fields_model(y.fields@).len());
                return false;
            }
            let n = x.fields.len();
            let mut i: usize = 0;
            while i < n
                invariant
                    n == x.fields@.len() == y.fields@.len(),
                    0 <= i <= n,
                    forall|j: int|
                        0 <= j < i ==> #[trigger] fields_model(x.fields@)[j] == fields_model(
                            y.fields@,
                        )[j],
                    fields_model(x.fields@).len() == n,
                    fields_model(y.fields@).len() == n,
                    forall|j: int|
                        0 <= j < n ==> #[trigger] fields_model(x.fields@)[j] == (
                        x.fields@[j].name@,
                        value_model(x.fields@[j].value),
                        ),
                    forall|j: int|
                        0 <= j < n ==> #[trigger] fields_model(y.fields@)[j] == (
                        y.fields@[j].name@,
                        value_model(y.fields@[j].value),
                        ),
                    value_model(*a) == ValModel::Sub(fields_model(x.fields@)),
                    value_model(*b) == ValModel::Sub(fields_model(y.fields@)),
                    decreases_to!(*a => *x),
                decreases n - i,
            {
                let fa = &x.fields[i];
                let fb = &y.fields[i];
                proof {
                    assert(decreases_to!(*x => x.fields));
                    assert(decreases_to!(x.fields => x.fields@[i as int]));
                    assert(decreases_to!(x.fields@[i as int] => x.fields@[i as int].value));
                    assert(decreases_to!(*a => x.fields@[i as int].value));
                }
                let names_eq = fa.name.eq(&fb.name);
                let vals_eq = value_eq(&fa.value, &fb.value);
                if !(names_eq && vals_eq) {
                    assert(fields_model(x.fields@)[i as int] != fields_model(y.fields@)[i as int]);
                    return false;
                }
                i = i + 1;
            }
            assert(fields_model(x.fields@) =~= fields_model(y.fields@));
            true
        },
        _ => {
            assert(value_model(*a) != value_model(*b));
            false
        },
    }
}

/// The value of the first field named `name`, if any: the model of
/// [`lookup_field`].
pub open spec fn spec_lookup_field(fs: Seq<FieldValue>, name: Seq<char>) -> Option<Value>
    decreases fs.len(),
{
    if fs.len() == 0 {
        None
    } else if fs[0].name@ == name {
        Some(fs[0].value)
    } else {
        spec_lookup_field(fs.drop_first(), name)
    }
}

impl Record {
    /// Looks up the value of the first field with the given declaration
    /// name, scanning in declaration order.
    pub fn lookup_field(&self, name: &String) -> (r: Option<&Value>)
        ensures
            match r {
                Some(v) => spec_lookup_field(self.fields@, name@) == Some(*v),
                None => spec_lookup_field(self.fields@, name@) is None,
            },
    {
        let n = self.fields.len();
        let mut i: usize = 0;
        assert(self.fields@.skip(0) =~= self.fields@);
        while i < n
            invariant
                n == self.fields@.len(),
                0 <= i <= n,
                spec_lookup_field(self.fields@, name@) == spec_lookup_field(
                    self.fields@.skip(i as int),
                    name@,
                ),
            decreases n - i,
        {
            proof {
                lemma_lookup_skip_step(self.fields@, name@, i as int);
            }
            if self.fields[i].name.eq(name) {
                return Some(&self.fields[i].value);
            }
            i = i + 1;
        }
        None
    }
}

/// Scanning past a non-matching field leaves the lookup result unchanged.
proof fn lemma_lookup_skip_step(fs: Seq<FieldValue>, name: Seq<char>, i: int)
    requires
        0 <= i < fs.len(),
    ensures
        spec_lookup_field(fs.skip(i), name) == if fs[i].name@ == name {
            Some(fs[i].value)
        } else {
            spec_lookup_field(fs.skip(i + 1), name)
        },
{
    assert(fs.skip(i)[0] == fs[i]);
    assert(fs.skip(i).drop_first() =~= fs.skip(i + 1));
}

} // verus!
