//! Symbolic type descriptors and the capability registry.
//!
//! A field's declared type is carried only as a normalized identifier
//! string (whitespace removed); it is never resolved to a runtime layout.
//! A small registry of known type names decides which validators a type can
//! carry: string-like types, types with a length, and orderable scalars.
//! Unknown types have no capability, so pairing them with a validator that
//! needs one is a compilation error.

use vstd::prelude::*;
use crate::text::{chars_of, chars_eq, has_prefix};

verus! {

/// Symbolic description of a field's declared type: its identifier
/// characters with all spaces removed.
#[derive(Debug, PartialEq, Eq)]
pub struct TypeDesc {
    pub norm: Vec<char>,
}

/// `s` with every space removed: the normal form under which two type
/// descriptors are compared.
pub open spec fn strip_spaces(s: Seq<char>) -> Seq<char>
    decreases s.len(),
{
    if s.len() == 0 {
        Seq::empty()
    } else if s[0] == ' ' {
        strip_spaces(s.drop_first())
    } else {
        seq![s[0]] + strip_spaces(s.drop_first())
    }
}

/// Stripping distributes over scanning one character off the front.
proof fn lemma_strip_spaces_skip(s: Seq<char>, i: int)
    requires
        0 <= i < s.len(),
    ensures
        strip_spaces(s.skip(i)) == if s[i] == ' ' {
            strip_spaces(s.skip(i + 1))
        } else {
            seq![s[i]] + strip_spaces(s.skip(i + 1))
        },
{
    assert(s.skip(i)[0] == s[i]);
    assert(s.skip(i).drop_first() =~= s.skip(i + 1));
}

impl TypeDesc {
    /// Builds a descriptor from the declared type's identifier text,
    /// normalizing it by removing spaces.
    pub fn new(name: &str) -> (t: TypeDesc)
        ensures
            t.norm@ == strip_spaces(name@),
    {
        let cs = chars_of(name);
        let n = cs.len();
        let mut out: Vec<char> = Vec::new();
        let mut i: usize = 0;
        assert(cs@.skip(0) =~= cs@);
        while i < n
            invariant
                n == cs@.len(),
                0 <= i <= n,
                strip_spaces(cs@) == out@ + strip_spaces(cs@.skip(i as int)),
            decreases n - i,
        {
            proof {
                lemma_strip_spaces_skip(cs@, i as int);
            }
            if cs[i] != ' ' {
                out.push(cs[i]);
            }
            i = i + 1;
        }
        assert(out@ =~= out@ + strip_spaces(cs@.skip(n as int)));
        TypeDesc { norm: out }
    }

    /// Descriptor equality: the normalized identifiers match.
    pub fn same_as(&self, other: &TypeDesc) -> (r: bool)
        ensures
            r == (self.norm@ == other.norm@),
    {
        chars_eq(&self.norm, &other.norm)
    }

    /// A copy of this descriptor.
    pub fn duplicate(&self) -> (t: TypeDesc)
        ensures
            t.norm@ == self.norm@,
    {
        let mut out: Vec<char> = Vec::new();
        let n = self.norm.len();
        let mut i: usize = 0;
        while i < n
            invariant
                n == self.norm@.len(),
                0 <= i <= n,
                out@ == self.norm@.subrange(0, i as int),
            decreases n - i,
        {
            out.push(self.norm[i]);
            assert(out@ =~= self.norm@.subrange(0, i + 1 as int));
            i = i + 1;
        }
        assert(self.norm@.subrange(0, n as int) =~= self.norm@);
        TypeDesc { norm: out }
    }
}

/// Whether a normalized identifier is an `Option<...>` form.
pub open spec fn is_option_form(s: Seq<char>) -> bool {
    s.len() >= 8 && s.subrange(0, 7) == "Option<"@ && s[s.len() - 1] == '>'
}

/// The identifier inside a single `Option<...>` wrapper, or the identifier
/// itself.  Validators look through one optional layer: an absent value is
/// the `required` validator's concern, the inner type the others'.
pub open spec fn unwrap_option(s: Seq<char>) -> Seq<char> {
    if is_option_form(s) {
        s.subrange(7, s.len() - 1)
    } else {
        s
    }
}

/// A string-like identifier: the registry of types the string-format
/// validators accept.
pub open spec fn is_string_like(s: Seq<char>) -> bool {
    let b = unwrap_option(s);
    b == "String"@ || b == "&str"@ || b == "&String"@
}

/// An identifier with a length capability: string-like, or a known
/// sequence, set or map form.
pub open spec fn has_len_cap(s: Seq<char>) -> bool {
    let b = unwrap_option(s);
    is_string_like(s) || "Vec<"@.is_prefix_of(b) || "HashMap<"@.is_prefix_of(b)
        || "BTreeMap<"@.is_prefix_of(b) || "HashSet<"@.is_prefix_of(b)
        || "BTreeSet<"@.is_prefix_of(b)
}

/// An orderable scalar identifier: the registry of types the `range`
/// validator accepts.
pub open spec fn has_range_cap(s: Seq<char>) -> bool {
    let b = unwrap_option(s);
    b == "i8"@ || b == "i16"@ || b == "i32"@ || b == "i64"@ || b == "isize"@ || b == "u8"@
        || b == "u16"@ || b == "u32"@ || b == "u64"@ || b == "usize"@
}

/// The identifier inside one `Option<...>` wrapper, or the identifier
/// itself: the executable form of [`unwrap_option`].
fn unwrap_option_exec(t: &TypeDesc) -> (v: Vec<char>)
    ensures
        v@ == unwrap_option(t.norm@),
{
    let opt = chars_of("Option<");
    let wrapped = has_prefix(&t.norm, &opt) && t.norm.len() >= 8 && t.norm[t.norm.len() - 1]
        == '>';
    proof {
        reveal_strlit("Option<");
        if wrapped {
            assert(t.norm@.subrange(0, 7) =~= "Option<"@);
        } else if t.norm@.len() >= 8 && t.norm@[t.norm@.len() - 1] == '>' {
            if is_option_form(t.norm@) {
                assert("Option<"@.is_prefix_of(t.norm@));
            }
        }
    }
    if !wrapped {
        assert(!is_option_form(t.norm@));
        return t.duplicate().norm;
    }
    let mut out: Vec<char> = Vec::new();
    let n = t.norm.len() - 1;
    let mut i: usize = 7;
    while i < n
        invariant
            7 <= i <= n,
            n == t.norm@.len() - 1,
            out@ == t.norm@.subrange(7, i as int),
        decreases n - i,
    {
        out.push(t.norm[i]);
        assert(out@ =~= t.norm@.subrange(7, i + 1 as int));
        i = i + 1;
    }
    assert(is_option_form(t.norm@));
    out
}

/// Whether the descriptor denotes a string-like type.
pub fn string_like(t: &TypeDesc) -> (r: bool)
    ensures
        r == is_string_like(t.norm@),
{
    let b = unwrap_option_exec(t);
    chars_eq(&b, &chars_of("String")) || chars_eq(&b, &chars_of("&str")) || chars_eq(
        &b,
        &chars_of("&String"),
    )
}

/// Whether the descriptor denotes a type with a length capability.
pub fn len_capable(t: &TypeDesc) -> (r: bool)
    ensures
        r == has_len_cap(t.norm@),
{
    if string_like(t) {
        return true;
    }
    let b = unwrap_option_exec(t);
    has_prefix(&b, &chars_of("Vec<")) || has_prefix(&b, &chars_of("HashMap<")) || has_prefix(
        &b,
        &chars_of("BTreeMap<"),
    ) || has_prefix(&b, &chars_of("HashSet<")) || has_prefix(&b, &chars_of("BTreeSet<"))
}

/// Whether the descriptor denotes an orderable scalar.
pub fn range_capable(t: &TypeDesc) -> (r: bool)
    ensures
        r == has_range_cap(t.norm@),
{
    let b = unwrap_option_exec(t);
    chars_eq(&b, &chars_of("i8")) || chars_eq(&b, &chars_of("i16")) || chars_eq(
        &b,
        &chars_of("i32"),
    ) || chars_eq(&b, &chars_of("i64")) || chars_eq(&b, &chars_of("isize")) || chars_eq(
        &b,
        &chars_of("u8"),
    ) || chars_eq(&b, &chars_of("u16")) || chars_eq(&b, &chars_of("u32")) || chars_eq(
        &b,
        &chars_of("u64"),
    ) || chars_eq(&b, &chars_of("usize"))
}

} // verus!
