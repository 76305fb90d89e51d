//! The derive that describes how an item is laid out in storage.

use crate::derive::emit::{
    derived_impl, error_report, error_report_text, gen_impl, is_trait_bound, parses_as_trait_bound,
    string_literal, string_literal_text, Bounds,
};
use crate::derive::item::{
    field_models, item_model, read_item, text_of, variant_models, Field, FieldModel, Item,
    ItemModel, VariantModel,
};
use crate::derive::text::{decimal, decimal_text};
use vstd::prelude::*;
use vstd::string::StringExecFns;

verus! {

/// The trait that the derive implements.
pub const LAYOUT_TRAIT: &'static str = "::ink::storage::traits::StorageLayout";

/// What the derive says of an enum that it cannot describe.
pub const TOO_MANY_VARIANTS: &'static str =
    "Currently only enums with at most 256 variants are supported.";

/// The largest number of variants that a layout can tell apart.
pub const MAX_VARIANTS: usize = 256;

// The pieces of the generated code, between which the names, types and
// discriminants of the item are written.
pub const FIELD_OPEN: &'static str = "::ink::metadata::layout::FieldLayout::new(";

pub const FIELD_TYPE: &'static str = ", < ";

pub const FIELD_CLOSE: &'static str =
    " as ::ink::storage::traits::StorageLayout>::layout(__key), ), ";

pub const FIELDS_OPEN: &'static str =
    "::ink::metadata::layout::StructLayout::new(::core::stringify!(";

pub const FIELDS_LIST: &'static str = "), [";

pub const FIELDS_CLOSE: &'static str = "])";

pub const STRUCT_OPEN: &'static str =
    "fn layout(__key: &::ink::primitives::Key) -> ::ink::metadata::layout::Layout { ::ink::metadata::layout::Layout::Struct(";

pub const STRUCT_CLOSE: &'static str = ") }";

pub const ENUM_OPEN: &'static str =
    "fn layout(__key: &::ink::primitives::Key) -> ::ink::metadata::layout::Layout { ::ink::metadata::layout::Layout::Enum(::ink::metadata::layout::EnumLayout::new(::core::stringify!(";

pub const ENUM_LIST: &'static str = "), ::ink::metadata::layout::LayoutKey::from(__key), [";

pub const ENUM_CLOSE: &'static str = "])) }";

pub const VARIANT_OPEN: &'static str = "{ ( ::ink::metadata::layout::Discriminant::from(";

pub const VARIANT_FIELDS: &'static str = "), ";

pub const VARIANT_CLOSE: &'static str = ", ) }, ";

pub const USIZE: &'static str = "usize";

/// Why the derive writes no layout for an item.
#[derive(Clone, Copy, Debug, PartialEq, Eq, Structural)]
pub enum LayoutError {
    /// The enum has more variants than a layout can tell apart.
    TooManyVariants,
    /// The struct is not listed as one variant.
    NotOneVariant,
}

/// The name under which a field is listed: its own, or its position.
pub open spec fn field_name(index: nat, field: FieldModel) -> Seq<char> {
    match field.ident {
        Some(ident) => ident,
        None => decimal(index),
    }
}

/// The layout of one field, with the comma that follows it.
pub open spec fn field_layout_text(index: nat, field: FieldModel) -> Seq<char> {
    FIELD_OPEN@ + string_literal(field_name(index, field)) + FIELD_TYPE@ + field.ty + FIELD_CLOSE@
}

/// The layouts of the first `n` fields, in their order.
pub open spec fn field_layouts(fields: Seq<FieldModel>, n: nat) -> Seq<char>
    decreases n,
{
    if n == 0 {
        Seq::empty()
    } else {
        field_layouts(fields, (n - 1) as nat) + field_layout_text(
            (n - 1) as nat,
            fields[n - 1],
        )
    }
}

/// The layout of a list of fields under a name.
pub open spec fn fields_layout(ident: Seq<char>, fields: Seq<FieldModel>) -> Seq<char> {
    FIELDS_OPEN@ + ident + FIELDS_LIST@ + field_layouts(fields, fields.len()) + FIELDS_CLOSE@
}

/// The body of the impl for a struct.
pub open spec fn struct_body(item: ItemModel) -> Seq<char> {
    STRUCT_OPEN@ + fields_layout(item.ident, item.variants[0].fields) + STRUCT_CLOSE@
}

/// The discriminant under which a variant is listed: the one it was written
/// with, or its position.
pub open spec fn discriminant_text(index: nat, variant: VariantModel) -> Seq<char> {
    match variant.discriminant {
        Some(expr) => expr,
        None => decimal(index) + USIZE@,
    }
}

/// The layout of one variant, with the comma that follows it.
pub open spec fn variant_layout(index: nat, variant: VariantModel) -> Seq<char> {
    VARIANT_OPEN@ + discriminant_text(index, variant) + VARIANT_FIELDS@ + fields_layout(
        variant.ident,
        variant.fields,
    ) + VARIANT_CLOSE@
}

/// The layouts of the first `n` variants, in their order.
pub open spec fn variant_layouts(variants: Seq<VariantModel>, n: nat) -> Seq<char>
    decreases n,
{
    if n == 0 {
        Seq::empty()
    } else {
        variant_layouts(variants, (n - 1) as nat) + variant_layout(
            (n - 1) as nat,
            variants[n - 1],
        )
    }
}

/// The body of the impl for an enum.
pub open spec fn enum_body(item: ItemModel) -> Seq<char> {
    ENUM_OPEN@ + item.ident + ENUM_LIST@ + variant_layouts(item.variants, item.variants.len())
        + ENUM_CLOSE@
}

/// The body of the impl for a struct, which is listed as one variant.
pub open spec fn struct_layout(item: ItemModel) -> Result<Seq<char>, LayoutError> {
    if item.variants.len() == 1 {
        Ok(struct_body(item))
    } else {
        Err(LayoutError::NotOneVariant)
    }
}

/// The body of the impl for an enum, which has no more variants than a
/// layout can tell apart.
pub open spec fn enum_layout(item: ItemModel) -> Result<Seq<char>, LayoutError> {
    if item.variants.len() > MAX_VARIANTS {
        Err(LayoutError::TooManyVariants)
    } else {
        Ok(enum_body(item))
    }
}

/// The body of the impl for an item.
pub open spec fn layout_body(item: ItemModel) -> Result<Seq<char>, LayoutError> {
    if item.is_enum {
        enum_layout(item)
    } else {
        struct_layout(item)
    }
}

/// A body or the reason why there is none, the body as its characters.
pub open spec fn body_of(written: Result<String, LayoutError>) -> Result<Seq<char>, LayoutError> {
    match written {
        Ok(body) => Ok(body@),
        Err(why) => Err(why),
    }
}

/// The impl of the layout trait with `body` between its braces; nothing
/// where the name of the trait is not read as a trait bound.
pub open spec fn layout_impl(s: synstructure::Structure, body: Seq<char>) -> Option<Seq<char>> {
    if is_trait_bound(LAYOUT_TRAIT@) {
        derived_impl(s, Bounds::Fields, LAYOUT_TRAIT@, body)
    } else {
        None
    }
}

/// What the derive hands out for an item whose body, or the reason for
/// having none, is `body`: the impl around the body, the complaint for an
/// enum with too many variants, nothing for a struct that is not listed as
/// one variant.
pub open spec fn layout_tokens(s: synstructure::Structure, body: Result<Seq<char>, LayoutError>)
    -> Option<Seq<char>> {
    match body {
        Ok(body) => layout_impl(s, body),
        Err(LayoutError::TooManyVariants) => Some(error_report(TOO_MANY_VARIANTS@)),
        Err(LayoutError::NotOneVariant) => None,
    }
}

/// What the derive writes for an item.
pub open spec fn layout_derive(s: synstructure::Structure) -> Option<Seq<char>> {
    layout_tokens(s, layout_body(item_model(s)))
}

/// Writes the layouts of `fields` behind `out`, in their order, each under
/// its name or its position.
pub fn field_layout(fields: &Vec<Field>, out: &mut String)
    ensures
        final(out)@ == old(out)@ + field_layouts(field_models(fields@), fields@.len() as nat),
{
    let ghost models = field_models(fields@);
    let ghost before = out@;
    let n = fields.len();
    let mut f: usize = 0;
    assert(out@ =~= before + field_layouts(models, 0));
    while f < n
        invariant
            f <= n,
            n == fields@.len(),
            models == field_models(fields@),
            out@ == before + field_layouts(models, f as nat),
        decreases n - f,
    {
        let field = &fields[f];
        assert(models[f as int] == field@);
        let literal = match &field.ident {
            Some(ident) => string_literal_text(ident.as_str()),
            None => {
                let position = decimal_text(f);
                string_literal_text(position.as_str())
            },
        };
        out.append(FIELD_OPEN);
        out.append(literal.as_str());
        out.append(FIELD_TYPE);
        out.append(field.ty.as_str());
        out.append(FIELD_CLOSE);
        assert(out@ =~= before + field_layouts(models, (f + 1) as nat));
        f += 1;
    }
}

/// Writes the layout of `fields` under `ident` behind `out`.
fn fields_layout_text(ident: &str, fields: &Vec<Field>, out: &mut String)
    ensures
        final(out)@ == old(out)@ + fields_layout(ident@, field_models(fields@)),
{
    let ghost before = out@;
    out.append(FIELDS_OPEN);
    out.append(ident);
    out.append(FIELDS_LIST);
    field_layout(fields, out);
    out.append(FIELDS_CLOSE);
    assert(out@ =~= before + fields_layout(ident@, field_models(fields@)));
}

/// The body of the impl for a struct: the layout of its fields under its
/// name.
pub fn storage_layout_struct(item: &Item) -> (body: Result<String, LayoutError>)
    ensures
        body_of(body) == struct_layout(item@),
{
    if item.variants.len() != 1 {
        return Err(LayoutError::NotOneVariant);
    }
    let mut body = String::from_str(STRUCT_OPEN);
    fields_layout_text(item.ident.as_str(), &item.variants[0].fields, &mut body);
    body.append(STRUCT_CLOSE);
    assert(item@.variants[0] == item.variants@[0]@);
    assert(body@ =~= struct_body(item@));
    Ok(body)
}

/// The body of the impl for an enum: the layouts of its variants in their
/// order, each under its discriminant or its position.
pub fn storage_layout_enum(item: &Item) -> (body: Result<String, LayoutError>)
    ensures
        body_of(body) == enum_layout(item@),
{
    let n = item.variants.len();
    if n > MAX_VARIANTS {
        return Err(LayoutError::TooManyVariants);
    }
    let ghost models = variant_models(item.variants@);
    let mut body = String::from_str(ENUM_OPEN);
    body.append(item.ident.as_str());
    body.append(ENUM_LIST);
    let ghost before = body@;
    let mut v: usize = 0;
    assert(body@ =~= before + variant_layouts(models, 0));
    while v < n
        invariant
            v <= n,
            n == item.variants@.len(),
            models == variant_models(item.variants@),
            before == ENUM_OPEN@ + item.ident@ + ENUM_LIST@,
            body@ == before + variant_layouts(models, v as nat),
        decreases n - v,
    {
        let ghost start = body@;
        let variant = &item.variants[v];
        assert(models[v as int] == variant@);
        body.append(VARIANT_OPEN);
        match &variant.discriminant {
            Some(expr) => {
                body.append(expr.as_str());
            },
            None => {
                let position = decimal_text(v);
                body.append(position.as_str());
                body.append(USIZE);
            },
        }
        body.append(VARIANT_FIELDS);
        fields_layout_text(variant.ident.as_str(), &variant.fields, &mut body);
        body.append(VARIANT_CLOSE);
        assert(body@ =~= start + variant_layout(v as nat, models[v as int]));
        assert(body@ =~= before + variant_layouts(models, (v + 1) as nat));
        v += 1;
    }
    body.append(ENUM_CLOSE);
    assert(body@ =~= enum_body(item@));
    Ok(body)
}

/// The body of the impl for an item: for a struct the layout of its fields,
/// for an enum the layout of its variants.
pub fn storage_layout_body(item: &Item) -> (body: Result<String, LayoutError>)
    ensures
        body_of(body) == layout_body(item@),
{
    if item.is_enum {
        storage_layout_enum(item)
    } else {
        storage_layout_struct(item)
    }
}

/// Wraps `body` in the impl of the layout trait.
fn layout_impl_text(s: synstructure::Structure, body: &str) -> (tokens: Option<String>)
    ensures
        text_of(tokens) == layout_impl(s, body@),
{
    if parses_as_trait_bound(LAYOUT_TRAIT) {
        gen_impl(s, Bounds::Fields, LAYOUT_TRAIT, body)
    } else {
        None
    }
}

/// What the derive hands out for an item, once its body is written.
pub fn storage_layout_tokens(s: synstructure::Structure, body: Result<String, LayoutError>) -> (tokens:
    Option<String>)
    ensures
        text_of(tokens) == layout_tokens(s, body_of(body)),
{
    match body {
        Ok(body) => layout_impl_text(s, body.as_str()),
        Err(LayoutError::TooManyVariants) => Some(error_report_text(&s, TOO_MANY_VARIANTS)),
        Err(LayoutError::NotOneVariant) => None,
    }
}

/// What the derive writes for an item: the impl of the layout trait whose
/// `layout` describes the item, or the complaint that an enum has too many
/// variants.
///
/// Nothing is written for a struct that is not listed as one variant, nor
/// where the text of the impl is not accepted as tokens.
pub fn storage_layout_derive(s: synstructure::Structure) -> (tokens: Option<String>)
    ensures
        text_of(tokens) == layout_derive(s),
{
    let item = read_item(&s);
    let body = storage_layout_body(&item);
    storage_layout_tokens(s, body)
}

} // verus!
