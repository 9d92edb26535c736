//! The four fragment emitters.
//!
//! Each emitter turns the validated field list into one source fragment of
//! the generated builder: the builder type's field list, the empty-builder
//! initializer, the per-field setters, and the terminal `build` operation.
//! Every field's declared type is wrapped as `std::option::Option<..>` in
//! the builder so that a fresh builder can hold every field as absent.
//!
//! Each fragment is pinned exactly, character for character, by a spec
//! function that folds one piece per field over the list, in declared order.

use vstd::prelude::*;

use crate::descriptor::FieldDescriptor;

verus! {

/// The builder-type field declaration contributed by one input field:
/// the same name, the declared type wrapped as optional.
pub open spec fn builder_field_piece(f: FieldDescriptor) -> Seq<char> {
    f.name@ + ": std::option::Option<"@ + f.declared_type@ + ">, "@
}

/// The whole field-list fragment of the builder type: one
/// [`builder_field_piece`] per input field, in declared order.
pub open spec fn builder_fields_frag(fields: Seq<FieldDescriptor>) -> Seq<char>
    decreases fields.len(),
{
    if fields.len() == 0 {
        Seq::empty()
    } else {
        builder_fields_frag(fields.drop_last()) + builder_field_piece(fields.last())
    }
}

/// The initializer contributed by one input field: the field set to the
/// absent sentinel.
pub open spec fn init_field_piece(f: FieldDescriptor) -> Seq<char> {
    f.name@ + ": std::option::Option::None, "@
}

/// The whole field-list fragment of a fresh builder instance: one
/// [`init_field_piece`] per input field, in declared order.
pub open spec fn init_fields_frag(fields: Seq<FieldDescriptor>) -> Seq<char>
    decreases fields.len(),
{
    if fields.len() == 0 {
        Seq::empty()
    } else {
        init_fields_frag(fields.drop_last()) + init_field_piece(fields.last())
    }
}

/// The setter contributed by one input field: an operation named after the
/// field that consumes the builder, overwrites that one field with its
/// argument, and returns the builder for chaining.
pub open spec fn setter_piece(f: FieldDescriptor) -> Seq<char> {
    "pub fn "@ + f.name@ + "(mut self, "@ + f.name@ + ": "@ + f.declared_type@
        + ") -> Self { self."@ + f.name@ + " = std::option::Option::Some("@ + f.name@
        + "); self } "@
}

/// The whole setter fragment: one [`setter_piece`] per input field, in
/// declared order.
pub open spec fn setters_frag(fields: Seq<FieldDescriptor>) -> Seq<char>
    decreases fields.len(),
{
    if fields.len() == 0 {
        Seq::empty()
    } else {
        setters_frag(fields.drop_last()) + setter_piece(fields.last())
    }
}

/// The field assignment contributed by one input field inside `build`:
/// the result's field taken from the builder's field of the same name.
pub open spec fn build_assign_piece(f: FieldDescriptor) -> Seq<char> {
    f.name@ + ": self."@ + f.name@ + ".unwrap(), "@
}

/// The field-assignment list inside `build`: one [`build_assign_piece`] per
/// input field, in declared order.
pub open spec fn build_assigns_frag(fields: Seq<FieldDescriptor>) -> Seq<char>
    decreases fields.len(),
{
    if fields.len() == 0 {
        Seq::empty()
    } else {
        build_assigns_frag(fields.drop_last()) + build_assign_piece(fields.last())
    }
}

/// The whole terminal operation: `build` consumes the builder and
/// constructs the original type, assigning every field in declared order.
pub open spec fn build_fn_frag(struct_name: Seq<char>, fields: Seq<FieldDescriptor>) -> Seq<
    char,
> {
    "pub fn build(self) -> "@ + struct_name + " { "@ + struct_name + " { "@
        + build_assigns_frag(fields) + "} }"@
}

/// Emits the field list of the builder type: each input field reappears
/// under its own name with its declared type wrapped as optional.
pub fn gen_builder_struct_fields_token(fields: &Vec<FieldDescriptor>) -> (r: String)
    ensures
        r@ == builder_fields_frag(fields@),
{
    let mut r = String::new();
    let mut i: usize = 0;
    while i < fields.len()
        invariant
            i <= fields.len(),
            r@ == builder_fields_frag(fields@.take(i as int)),
        decreases fields.len() - i,
    {
        let f = &fields[i];
        r.append(f.name.as_str());
        r.append(": std::option::Option<");
        r.append(f.declared_type.as_str());
        r.append(">, ");
        proof {
            assert(fields@.take(i + 1 as int).drop_last() =~= fields@.take(i as int));
            assert(r@ =~= builder_fields_frag(fields@.take(i as int)) + builder_field_piece(
                fields@[i as int],
            ));
        }
        i = i + 1;
    }
    proof {
        assert(fields@.take(fields@.len() as int) =~= fields@);
    }
    r
}

/// Emits the field list used to construct a fresh builder: every field
/// initialized to the absent sentinel.
pub fn gen_builder_struct_fields_init_token(fields: &Vec<FieldDescriptor>) -> (r: String)
    ensures
        r@ == init_fields_frag(fields@),
{
    let mut r = String::new();
    let mut i: usize = 0;
    while i < fields.len()
        invariant
            i <= fields.len(),
            r@ == init_fields_frag(fields@.take(i as int)),
        decreases fields.len() - i,
    {
        let f = &fields[i];
        r.append(f.name.as_str());
        r.append(": std::option::Option::None, ");
        proof {
            assert(fields@.take(i + 1 as int).drop_last() =~= fields@.take(i as int));
            assert(r@ =~= init_fields_frag(fields@.take(i as int)) + init_field_piece(
                fields@[i as int],
            ));
        }
        i = i + 1;
    }
    proof {
        assert(fields@.take(fields@.len() as int) =~= fields@);
    }
    r
}

/// Emits one setter per field, in declared order.
pub fn gen_builder_impl_field_fn_token(fields: &Vec<FieldDescriptor>) -> (r: String)
    ensures
        r@ == setters_frag(fields@),
{
    let mut r = String::new();
    let mut i: usize = 0;
    while i < fields.len()
        invariant
            i <= fields.len(),
            r@ == setters_frag(fields@.take(i as int)),
        decreases fields.len() - i,
    {
        let f = &fields[i];
        r.append("pub fn ");
        r.append(f.name.as_str());
        r.append("(mut self, ");
        r.append(f.name.as_str());
        r.append(": ");
        r.append(f.declared_type.as_str());
        r.append(") -> Self { self.");
        r.append(f.name.as_str());
        r.append(" = std::option::Option::Some(");
        r.append(f.name.as_str());
        r.append("); self } ");
        proof {
            assert(fields@.take(i + 1 as int).drop_last() =~= fields@.take(i as int));
            assert(r@ =~= setters_frag(fields@.take(i as int)) + setter_piece(
                fields@[i as int],
            ));
        }
        i = i + 1;
    }
    proof {
        assert(fields@.take(fields@.len() as int) =~= fields@);
    }
    r
}

/// Emits the terminal `build` operation, copying every builder field into
/// the correspondingly named field of the original type, in declared order.
pub fn gen_builder_impl_build_fn_token(fields: &Vec<FieldDescriptor>, struct_ident: &String) -> (r:
    String)
    ensures
        r@ == build_fn_frag(struct_ident@, fields@),
{
    let mut assigns = String::new();
    let mut i: usize = 0;
    while i < fields.len()
        invariant
            i <= fields.len(),
            assigns@ == build_assigns_frag(fields@.take(i as int)),
        decreases fields.len() - i,
    {
        let f = &fields[i];
        assigns.append(f.name.as_str());
        assigns.append(": self.");
        assigns.append(f.name.as_str());
        assigns.append(".unwrap(), ");
        proof {
            assert(fields@.take(i + 1 as int).drop_last() =~= fields@.take(i as int));
            assert(assigns@ =~= build_assigns_frag(fields@.take(i as int)) + build_assign_piece(
                fields@[i as int],
            ));
        }
        i = i + 1;
    }
    proof {
        assert(fields@.take(fields@.len() as int) =~= fields@);
    }
    let mut r = "pub fn build(self) -> ".to_owned();
    r.append(struct_ident.as_str());
    r.append(" { ");
    r.append(struct_ident.as_str());
    r.append(" { ");
    r.append(assigns.as_str());
    r.append("} }");
    r
}

} // verus!
