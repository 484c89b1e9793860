//! The declarative input the compiler consumes.
//!
//! A record type is described statically: an ordered field list, each field
//! carrying its name, its symbolic type descriptor, its validation intents
//! and its serialization metadata, plus zero or more struct-level intents.
//! An intent has one of three shapes: a bare name, a name with one literal,
//! or a name grouping several named literals.

use vstd::prelude::*;
use crate::types::TypeDesc;

verus! {

/// A raw annotation literal: a string, a boolean, or a number.
pub enum Literal {
    Text(String),
    Truth(bool),
    Num(i64),
}

/// One named argument inside a grouped intent: `name = literal`.
pub struct Arg {
    pub name: String,
    pub value: Literal,
}

/// One declarative validation intent.
pub enum Intent {
    /// The validator's name alone: `required`.
    Bare(String),
    /// A name with a single literal: `contains = "@"`.
    Assign(String, Literal),
    /// A name grouping named arguments: `length(min = 1, max = 8)`.
    Group(String, Vec<Arg>),
}

/// One argument of a grouped metadata intent.
pub enum MetaArg {
    Word(String),
    Pair(String, Literal),
}

/// One serialization-metadata intent attached to a field.  A rename intent
/// is the pair `rename = "external"`; it may also sit one level inside a
/// grouping intent.
pub enum MetaItem {
    Word(String),
    Pair(String, Literal),
    Group(String, Vec<MetaArg>),
}

/// One validation annotation on a field: either the bare marker, which
/// requests nested validation of the field's own record type, or a list of
/// intents.
pub enum ValidationAttr {
    Marker,
    Intents(Vec<Intent>),
}

/// The static description of one field.
pub struct FieldDecl {
    /// The declaration name.  A record must have named fields, so an empty
    /// name is a compilation error.
    pub name: String,
    /// The declared type, symbolically.
    pub ty: TypeDesc,
    /// The validation annotations, in declaration order.
    pub validations: Vec<ValidationAttr>,
    /// The serialization metadata, in declaration order.
    pub metas: Vec<MetaItem>,
}

/// The static description of one record type.
pub struct StructDecl {
    /// The fields, in declaration order.
    pub fields: Vec<FieldDecl>,
    /// The struct-level intents, in declaration order.
    pub struct_intents: Vec<Intent>,
}

} // verus!
