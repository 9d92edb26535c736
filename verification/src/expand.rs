//! The orchestrator: from a type descriptor to the generated unit.
//!
//! `do_expand` sequences the field extractor and the four emitters and
//! assembles their outputs into the three definitions of the generated
//! unit. The builder type is always named after the original type with the
//! fixed suffix `Builder`, and the entry point is attached to the original
//! type itself.

use vstd::prelude::*;

use crate::descriptor::TypeDescriptor;
use crate::descriptor::UnsupportedShapeError;
use crate::descriptor::is_named_record;
use crate::descriptor::record_fields;
use crate::descriptor::get_fields_from_derive_input;
use crate::descriptor::FieldDescriptor;
use crate::emit::builder_fields_frag;
use crate::emit::init_fields_frag;
use crate::emit::setters_frag;
use crate::emit::build_fn_frag;
use crate::emit::gen_builder_struct_fields_token;
use crate::emit::gen_builder_struct_fields_init_token;
use crate::emit::gen_builder_impl_field_fn_token;
use crate::emit::gen_builder_impl_build_fn_token;

verus! {

/// The output of one expansion: an ordered bundle of three source
/// fragments, produced together or not at all.
#[derive(Debug)]
pub struct GeneratedUnit {
    /// The definition of the builder type itself.
    pub builder_type_def: String,
    /// The impl block on the original type holding the `builder()` entry
    /// point.
    pub entry_point_def: String,
    /// The impl block on the builder type holding the setters and `build`.
    pub builder_impl_block: String,
}

/// The generated builder type's name: the original name with the fixed
/// suffix appended.
pub open spec fn builder_name_of(struct_name: Seq<char>) -> Seq<char> {
    struct_name + "Builder"@
}

/// The whole builder-type definition.
pub open spec fn builder_type_def_frag(
    struct_name: Seq<char>,
    fields: Seq<FieldDescriptor>,
) -> Seq<char> {
    "pub struct "@ + builder_name_of(struct_name) + " { "@ + builder_fields_frag(fields) + "}"@
}

/// The whole entry-point definition: an impl block on the original type
/// whose `builder()` returns a freshly initialized builder.
pub open spec fn entry_point_frag(
    struct_name: Seq<char>,
    fields: Seq<FieldDescriptor>,
) -> Seq<char> {
    "impl "@ + struct_name + " { pub fn builder() -> "@ + builder_name_of(struct_name) + " { "@
        + builder_name_of(struct_name) + " { "@ + init_fields_frag(fields) + "} } }"@
}

/// The whole builder impl block: every setter, in declared order, followed
/// by the one `build` operation.
pub open spec fn builder_impl_frag(
    struct_name: Seq<char>,
    fields: Seq<FieldDescriptor>,
) -> Seq<char> {
    "impl "@ + builder_name_of(struct_name) + " { "@ + setters_frag(fields) + build_fn_frag(
        struct_name,
        fields,
    ) + " }"@
}

/// The builder type's name as source text.
fn builder_name_token(struct_ident: &String) -> (r: String)
    ensures
        r@ == builder_name_of(struct_ident@),
{
    let mut r = struct_ident.clone();
    r.append("Builder");
    r
}

/// Expands one type descriptor into the generated unit: the builder type
/// definition, the entry point on the original type, and the builder impl
/// block. Fails exactly when the descriptor is not a record with named
/// fields, with the fixed diagnostic and no fragments at all.
pub fn do_expand(st: &TypeDescriptor) -> (r: Result<GeneratedUnit, UnsupportedShapeError>)
    ensures
        is_named_record(st.shape) <==> r is Ok,
        r is Ok ==> r->Ok_0.builder_type_def@ == builder_type_def_frag(
            st.name@,
            record_fields(st.shape),
        ),
        r is Ok ==> r->Ok_0.entry_point_def@ == entry_point_frag(
            st.name@,
            record_fields(st.shape),
        ),
        r is Ok ==> r->Ok_0.builder_impl_block@ == builder_impl_frag(
            st.name@,
            record_fields(st.shape),
        ),
        r is Err ==> r->Err_0.input_name@ == st.name@ && r->Err_0.message@
            == "Only structs are supported"@,
{
    let struct_name_ident = &st.name;
    let builder_name_ident = builder_name_token(struct_name_ident);

    let struct_fields = match get_fields_from_derive_input(st) {
        Ok(fields) => fields,
        Err(e) => {
            return Err(e);
        },
    };

    let builder_struct_fields_token = gen_builder_struct_fields_token(&struct_fields);
    let builder_struct_fields_init_token = gen_builder_struct_fields_init_token(&struct_fields);
    let builder_impl_field_fn_token = gen_builder_impl_field_fn_token(&struct_fields);
    let builder_impl_build_fn_token = gen_builder_impl_build_fn_token(
        &struct_fields,
        struct_name_ident,
    );

    let mut builder_type_def = "pub struct ".to_owned();
    builder_type_def.append(builder_name_ident.as_str());
    builder_type_def.append(" { ");
    builder_type_def.append(builder_struct_fields_token.as_str());
    builder_type_def.append("}");

    let mut entry_point_def = "impl ".to_owned();
    entry_point_def.append(struct_name_ident.as_str());
    entry_point_def.append(" { pub fn builder() -> ");
    entry_point_def.append(builder_name_ident.as_str());
    entry_point_def.append(" { ");
    entry_point_def.append(builder_name_ident.as_str());
    entry_point_def.append(" { ");
    entry_point_def.append(builder_struct_fields_init_token.as_str());
    entry_point_def.append("} } }");

    let mut builder_impl_block = "impl ".to_owned();
    builder_impl_block.append(builder_name_ident.as_str());
    builder_impl_block.append(" { ");
    builder_impl_block.append(builder_impl_field_fn_token.as_str());
    builder_impl_block.append(builder_impl_build_fn_token.as_str());
    builder_impl_block.append(" }");

    Ok(
        GeneratedUnit {
            builder_type_def,
            entry_point_def,
            builder_impl_block,
        },
    )
}

} // verus!
