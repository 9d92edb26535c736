//! Structural descriptors of the input type, and the field extractor.
//!
//! The front end that parses host-language source hands the generator a
//! [`TypeDescriptor`]: the type's name together with its shape. Only a
//! record with named fields is accepted; every other shape is answered with
//! an [`UnsupportedShapeError`].

use vstd::prelude::*;

verus! {

/// One entry of a record's field list: the field's name and its declared
/// type, kept verbatim as source text and never interpreted.
#[derive(Debug)]
pub struct FieldDescriptor {
    pub name: String,
    pub declared_type: String,
}

/// The structural category of the described type. Only
/// `RecordWithNamedFields` is supported by the generator; the remaining
/// shapes exist to be rejected with a diagnostic.
#[derive(Debug)]
pub enum TypeShape {
    /// A record type with an ordered list of named fields. An empty list is
    /// still a record (`struct Unit {}`).
    RecordWithNamedFields(Vec<FieldDescriptor>),
    /// A type with no field list at all (`struct Unit;`).
    FieldlessType,
    /// A record whose fields are positional, not named.
    PositionalFields,
    /// A sum type (one of several variants).
    SumType,
    /// An untagged union.
    UnionType,
}

/// The input to the generator: the type's name and its shape.
#[derive(Debug)]
pub struct TypeDescriptor {
    pub name: String,
    pub shape: TypeShape,
}

/// The single error of the generator: the described type is not a record
/// with named fields. It carries the offending type's name for diagnostic
/// attachment and the fixed message shown to the user.
#[derive(Debug)]
pub struct UnsupportedShapeError {
    pub input_name: String,
    pub message: String,
}

/// Whether the shape is the one supported form, a record with named fields.
pub open spec fn is_named_record(shape: TypeShape) -> bool {
    shape matches TypeShape::RecordWithNamedFields(_)
}

/// The field list of a record shape; the empty sequence on any other shape.
pub open spec fn record_fields(shape: TypeShape) -> Seq<FieldDescriptor> {
    match shape {
        TypeShape::RecordWithNamedFields(fields) => fields@,
        _ => Seq::empty(),
    }
}

impl Clone for FieldDescriptor {
    fn clone(&self) -> (r: Self)
        ensures
            r == *self,
    {
        FieldDescriptor { name: self.name.clone(), declared_type: self.declared_type.clone() }
    }
}

/// Copies a field list, so that the extractor can hand the fields to the
/// caller without aliasing back into the descriptor.
fn clone_fields(fields: &Vec<FieldDescriptor>) -> (r: Vec<FieldDescriptor>)
    ensures
        r@ == fields@,
{
    let mut r: Vec<FieldDescriptor> = Vec::new();
    let mut i: usize = 0;
    while i < fields.len()
        invariant
            i <= fields.len(),
            r@ == fields@.take(i as int),
        decreases fields.len() - i,
    {
        r.push(fields[i].clone());
        proof {
            assert(r@ =~= fields@.take(i + 1 as int));
        }
        i = i + 1;
    }
    proof {
        assert(fields@.take(fields@.len() as int) =~= fields@);
    }
    r
}

/// Confirms that the descriptor denotes a record with named fields and
/// returns its field list, in declared order; fails on every other shape
/// with the fixed diagnostic.
pub fn get_fields_from_derive_input(st: &TypeDescriptor) -> (r: Result<
    Vec<FieldDescriptor>,
    UnsupportedShapeError,
>)
    ensures
        is_named_record(st.shape) <==> r is Ok,
        r is Ok ==> r->Ok_0@ == record_fields(st.shape),
        r is Err ==> r->Err_0.input_name@ == st.name@ && r->Err_0.message@
            == "Only structs are supported"@,
{
    match &st.shape {
        TypeShape::RecordWithNamedFields(fields) => Ok(clone_fields(fields)),
        _ => Err(
            UnsupportedShapeError {
                input_name: st.name.clone(),
                message: "Only structs are supported".to_owned(),
            },
        ),
    }
}

} // verus!
