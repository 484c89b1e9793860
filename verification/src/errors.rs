//! The run-time error accumulator.
//!
//! Validation errors are keyed by the field's external name; a key maps to
//! the ordered entries recorded for it, each carrying a code and an
//! optional message.  Keys appear in first-recording order and are unique;
//! adding under a present key appends to its entries.

use vstd::prelude::*;

verus! {

/// One structured error entry.
#[derive(Debug, PartialEq, Eq)]
pub struct ErrorEntry {
    /// The error's code: the validator's default unless overridden.
    pub code: String,
    /// The declared custom message, if any.
    pub message: Option<String>,
}

/// Model of an error entry.
pub struct EntryModel {
    pub code: Seq<char>,
    pub message: Option<Seq<char>>,
}

/// The model of an error entry.
pub open spec fn entry_model(e: ErrorEntry) -> EntryModel {
    EntryModel { code: e.code@, message: crate::validation::opt_str_model(e.message) }
}

/// The entries recorded under one external field name.
#[derive(Debug, PartialEq, Eq)]
pub struct FieldErrors {
    pub field: String,
    pub entries: Vec<ErrorEntry>,
}

/// The errors of one validation call, keyed by external field name.
#[derive(Debug, PartialEq, Eq)]
pub struct ValidationErrors {
    pub groups: Vec<FieldErrors>,
}

/// Model of the accumulator: keys with their ordered entries, in
/// first-recording order.
pub type ErrorsModel = Seq<(Seq<char>, Seq<EntryModel>)>;

/// The models of a list of entries, in order.
pub open spec fn entries_model(es: Seq<ErrorEntry>) -> Seq<EntryModel> {
    es.map_values(|e: ErrorEntry| entry_model(e))
}

/// The model of the accumulator.
pub open spec fn errors_model(v: ValidationErrors) -> ErrorsModel {
    v.groups@.map_values(|g: FieldErrors| (g.field@, entries_model(g.entries@)))
}

/// Recording one entry: appended under its key if the key is present,
/// else opening a new key at the end.
pub open spec fn merge_add(m: ErrorsModel, k: Seq<char>, e: EntryModel) -> ErrorsModel
    decreases m.len(),
{
    if m.len() == 0 {
        seq![(k, seq![e])]
    } else if m[0].0 == k {
        seq![(m[0].0, m[0].1.push(e))] + m.drop_first()
    } else {
        seq![m[0]] + merge_add(m.drop_first(), k, e)
    }
}

/// Recording under a key found at position `i` (and nowhere earlier)
/// appends to that group.
pub proof fn lemma_merge_add_found(m: ErrorsModel, k: Seq<char>, e: EntryModel, i: int)
    requires
        0 <= i < m.len(),
        m[i].0 == k,
        forall|j: int| 0 <= j < i ==> m[j].0 != k,
    ensures
        merge_add(m, k, e) == m.update(i, (k, m[i].1.push(e))),
    decreases i,
{
    if i == 0 {
        assert(merge_add(m, k, e) =~= m.update(0, (k, m[0].1.push(e))));
    } else {
        lemma_merge_add_found(m.drop_first(), k, e, i - 1);
        assert(m.drop_first()[i - 1] == m[i]);
        assert(merge_add(m, k, e) =~= m.update(i, (k, m[i].1.push(e))));
    }
}

/// Recording under an absent key opens a new group at the end.
pub proof fn lemma_merge_add_absent(m: ErrorsModel, k: Seq<char>, e: EntryModel)
    requires
        forall|j: int| 0 <= j < m.len() ==> m[j].0 != k,
    ensures
        merge_add(m, k, e) == m.push((k, seq![e])),
    decreases m.len(),
{
    if m.len() == 0 {
        assert(merge_add(m, k, e) =~= m.push((k, seq![e])));
    } else {
        lemma_merge_add_absent(m.drop_first(), k, e);
        assert(merge_add(m, k, e) =~= m.push((k, seq![e])));
    }
}

impl ValidationErrors {
    /// An empty accumulator.
    pub fn new() -> (r: ValidationErrors)
        ensures
            errors_model(r) == Seq::<(Seq<char>, Seq<EntryModel>)>::empty(),
    {
        let r = ValidationErrors { groups: Vec::new() };
        assert(errors_model(r) =~= Seq::<(Seq<char>, Seq<EntryModel>)>::empty());
        r
    }

    /// Whether anything has been recorded.
    pub fn is_empty(&self) -> (r: bool)
        ensures
            r == (errors_model(*self).len() == 0),
    {
        self.groups.len() == 0
    }

    /// Records one entry under the given external field name.
    #[verifier::loop_isolation(false)]
    pub fn add(&mut self, field: &String, entry: ErrorEntry)
        ensures
            errors_model(*final(self)) == merge_add(
                errors_model(*old(self)),
                field@,
                entry_model(entry),
            ),
    {
        let ghost m0 = errors_model(*self);
        let ghost em = entry_model(entry);
        let n = self.groups.len();
        let mut i: usize = 0;
        while i < n
            invariant
                n == self.groups@.len(),
                0 <= i <= n,
                *self == *old(self),
                forall|j: int| 0 <= j < i ==> m0[j].0 != field@,
            decreases n - i,
        {
            if crate::text::str_eq_lit(&self.groups[i].field, field.as_str()) {
                let mut g = self.groups.remove(i);
                g.entries.push(entry);
                self.groups.insert(i, g);
                proof {
                    lemma_merge_add_found(m0, field@, em, i as int);
                    assert(entries_model(g.entries@) =~= m0[i as int].1.push(em));
                    assert(errors_model(*self) =~= m0.update(i as int, (field@, m0[i as int].1.push(em))));
                }
                return ;
            }
            i = i + 1;
        }
        let g = FieldErrors { field: field.clone(), entries: vec![entry] };
        proof {
            assert(entries_model(g.entries@) =~= seq![em]);
        }
        self.groups.push(g);
        proof {
            lemma_merge_add_absent(m0, field@, em);
            assert(errors_model(*self) =~= m0.push((field@, seq![em])));
        }
    }
}

} // verus!
