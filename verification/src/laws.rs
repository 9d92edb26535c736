//! Structure laws of the emitted fragments.
//!
//! Each fragment spec function of [`crate::emit`] folds the field list into
//! one flat character sequence. The lemmas here recover its structure: the
//! fragment is exactly the concatenation of one piece per input field, so a
//! record with `N` fields yields exactly `N` builder-field declarations,
//! `N` setters and `N` assignments inside `build`, and the `i`-th piece is
//! always derived from the `i`-th declared field.

use vstd::prelude::*;

use crate::descriptor::FieldDescriptor;
use crate::emit::builder_field_piece;
use crate::emit::builder_fields_frag;
use crate::emit::init_field_piece;
use crate::emit::init_fields_frag;
use crate::emit::setter_piece;
use crate::emit::setters_frag;
use crate::emit::build_assign_piece;
use crate::emit::build_assigns_frag;

verus! {

/// One builder-field declaration per input field, in declared order.
pub open spec fn builder_field_pieces(fields: Seq<FieldDescriptor>) -> Seq<Seq<char>> {
    fields.map_values(|f: FieldDescriptor| builder_field_piece(f))
}

/// One initializer per input field, in declared order.
pub open spec fn init_field_pieces(fields: Seq<FieldDescriptor>) -> Seq<Seq<char>> {
    fields.map_values(|f: FieldDescriptor| init_field_piece(f))
}

/// One setter per input field, in declared order.
pub open spec fn setter_pieces(fields: Seq<FieldDescriptor>) -> Seq<Seq<char>> {
    fields.map_values(|f: FieldDescriptor| setter_piece(f))
}

/// One `build` field assignment per input field, in declared order.
pub open spec fn build_assign_pieces(fields: Seq<FieldDescriptor>) -> Seq<Seq<char>> {
    fields.map_values(|f: FieldDescriptor| build_assign_piece(f))
}

/// The builder type's field list is the concatenation of exactly one field
/// declaration per input field: as many builder fields as input fields, the
/// `i`-th declaration derived from the `i`-th input field.
pub proof fn lemma_builder_fields_one_per_field(fields: Seq<FieldDescriptor>)
    ensures
        builder_field_pieces(fields).len() == fields.len(),
        forall|i: int| 0 <= i < fields.len() ==> #[trigger] builder_field_pieces(fields)[i]
            == builder_field_piece(fields[i]),
        builder_fields_frag(fields) == builder_field_pieces(fields).flatten(),
    decreases fields.len(),
{
    let pieces = builder_field_pieces(fields);
    pieces.lemma_flatten_and_flatten_alt_are_equivalent();
    if fields.len() == 0 {
    } else {
        lemma_builder_fields_one_per_field(fields.drop_last());
        let sub = builder_field_pieces(fields.drop_last());
        sub.lemma_flatten_and_flatten_alt_are_equivalent();
        assert(pieces.drop_last() =~= sub);
        assert(pieces.flatten_alt() == sub.flatten_alt() + pieces.last());
    }
}

/// The fresh-builder initializer is the concatenation of exactly one
/// initializer per input field, in declared order.
pub proof fn lemma_init_fields_one_per_field(fields: Seq<FieldDescriptor>)
    ensures
        init_field_pieces(fields).len() == fields.len(),
        forall|i: int| 0 <= i < fields.len() ==> #[trigger] init_field_pieces(fields)[i]
            == init_field_piece(fields[i]),
        init_fields_frag(fields) == init_field_pieces(fields).flatten(),
    decreases fields.len(),
{
    let pieces = init_field_pieces(fields);
    pieces.lemma_flatten_and_flatten_alt_are_equivalent();
    if fields.len() == 0 {
    } else {
        lemma_init_fields_one_per_field(fields.drop_last());
        let sub = init_field_pieces(fields.drop_last());
        sub.lemma_flatten_and_flatten_alt_are_equivalent();
        assert(pieces.drop_last() =~= sub);
        assert(pieces.flatten_alt() == sub.flatten_alt() + pieces.last());
    }
}

/// The setter fragment is the concatenation of exactly one setter per input
/// field: as many setters as input fields, emitted in declared order.
pub proof fn lemma_setters_one_per_field(fields: Seq<FieldDescriptor>)
    ensures
        setter_pieces(fields).len() == fields.len(),
        forall|i: int| 0 <= i < fields.len() ==> #[trigger] setter_pieces(fields)[i]
            == setter_piece(fields[i]),
        setters_frag(fields) == setter_pieces(fields).flatten(),
    decreases fields.len(),
{
    let pieces = setter_pieces(fields);
    pieces.lemma_flatten_and_flatten_alt_are_equivalent();
    if fields.len() == 0 {
    } else {
        lemma_setters_one_per_field(fields.drop_last());
        let sub = setter_pieces(fields.drop_last());
        sub.lemma_flatten_and_flatten_alt_are_equivalent();
        assert(pieces.drop_last() =~= sub);
        assert(pieces.flatten_alt() == sub.flatten_alt() + pieces.last());
    }
}

/// The assignment list inside `build` is the concatenation of exactly one
/// assignment per input field, in declared order.
pub proof fn lemma_build_assigns_one_per_field(fields: Seq<FieldDescriptor>)
    ensures
        build_assign_pieces(fields).len() == fields.len(),
        forall|i: int| 0 <= i < fields.len() ==> #[trigger] build_assign_pieces(fields)[i]
            == build_assign_piece(fields[i]),
        build_assigns_frag(fields) == build_assign_pieces(fields).flatten(),
    decreases fields.len(),
{
    let pieces = build_assign_pieces(fields);
    pieces.lemma_flatten_and_flatten_alt_are_equivalent();
    if fields.len() == 0 {
    } else {
        lemma_build_assigns_one_per_field(fields.drop_last());
        let sub = build_assign_pieces(fields.drop_last());
        sub.lemma_flatten_and_flatten_alt_are_equivalent();
        assert(pieces.drop_last() =~= sub);
        assert(pieces.flatten_alt() == sub.flatten_alt() + pieces.last());
    }
}

} // verus!
