//! The item that a derive is asked for, as the derives read it.

use vstd::prelude::*;

verus! {

/// `synstructure::Structure`: an item as a derive is handed it. Nothing of
/// it is read but through the functions below.
#[verifier::external_type_specification]
#[verifier::external_body]
pub struct ExStructure<'a>(synstructure::Structure<'a>);

/// One field: its name, where it has one, and its type as written.
pub struct FieldModel {
    pub ident: Option<Seq<char>>,
    pub ty: Seq<char>,
}

/// One variant of an enum, or the whole of a struct.
pub struct VariantModel {
    pub ident: Seq<char>,
    pub discriminant: Option<Seq<char>>,
    pub fields: Seq<FieldModel>,
}

/// One generic parameter. Of a type parameter it holds the name and, where
/// the first of its bounds is a trait, the last segment of that trait's
/// path; of a lifetime or a constant it holds nothing.
pub struct GenericModel {
    pub type_ident: Option<Seq<char>>,
    pub first_bound: Option<Seq<char>>,
}

/// An item: a struct, which is listed as one variant, or an enum.
pub struct ItemModel {
    pub is_enum: bool,
    pub ident: Seq<char>,
    pub generics: Seq<GenericModel>,
    pub variants: Seq<VariantModel>,
}

/// What an item holds.
pub uninterp spec fn item_model(s: synstructure::Structure) -> ItemModel;

/// A text that may be missing, as its characters.
pub open spec fn text_of(text: Option<String>) -> Option<Seq<char>> {
    match text {
        Some(text) => Some(text@),
        None => None,
    }
}

/// One field, as it was read.
pub struct Field {
    pub ident: Option<String>,
    pub ty: String,
}

impl View for Field {
    type V = FieldModel;

    open spec fn view(&self) -> FieldModel {
        FieldModel { ident: text_of(self.ident), ty: self.ty@ }
    }
}

/// A list of fields, as the derives read it.
pub open spec fn field_models(fields: Seq<Field>) -> Seq<FieldModel> {
    Seq::new(fields.len(), |i: int| fields[i]@)
}

/// One variant, as it was read.
pub struct Variant {
    pub ident: String,
    pub discriminant: Option<String>,
    pub fields: Vec<Field>,
}

impl View for Variant {
    type V = VariantModel;

    open spec fn view(&self) -> VariantModel {
        VariantModel {
            ident: self.ident@,
            discriminant: text_of(self.discriminant),
            fields: field_models(self.fields@),
        }
    }
}

/// A list of variants, as the derives read it.
pub open spec fn variant_models(variants: Seq<Variant>) -> Seq<VariantModel> {
    Seq::new(variants.len(), |i: int| variants[i]@)
}

/// One generic parameter, as it was read.
pub struct Generic {
    pub type_ident: Option<String>,
    pub first_bound: Option<String>,
}

impl View for Generic {
    type V = GenericModel;

    open spec fn view(&self) -> GenericModel {
        GenericModel {
            type_ident: text_of(self.type_ident),
            first_bound: text_of(self.first_bound),
        }
    }
}

/// A list of generic parameters, as the derives read it.
pub open spec fn generic_models(generics: Seq<Generic>) -> Seq<GenericModel> {
    Seq::new(generics.len(), |i: int| generics[i]@)
}

/// An item, as it was read.
pub struct Item {
    pub is_enum: bool,
    pub ident: String,
    pub generics: Vec<Generic>,
    pub variants: Vec<Variant>,
}

impl View for Item {
    type V = ItemModel;

    open spec fn view(&self) -> ItemModel {
        ItemModel {
            is_enum: self.is_enum,
            ident: self.ident@,
            generics: generic_models(self.generics@),
            variants: variant_models(self.variants@),
        }
    }
}

/// Whether the item is an enum. This reads `Structure::ast` and tells the
/// variants of `syn::Data` apart; a `Structure` is never made of a union.
#[verifier::external_body]
pub(crate) fn is_enum(s: &synstructure::Structure) -> (yes: bool)
    ensures
        yes == item_model(*s).is_enum,
{
    match s.ast().data {
        syn::Data::Enum(_) => true,
        syn::Data::Struct(_) => false,
        syn::Data::Union(_) => false,
    }
}

/// The name of the item: the `ident` of `Structure::ast`, as text.
#[verifier::external_body]
pub(crate) fn item_ident(s: &synstructure::Structure) -> (name: String)
    ensures
        name@ == item_model(*s).ident,
{
    s.ast().ident.to_string()
}

/// The number of variants: the length of `Structure::variants`.
#[verifier::external_body]
pub(crate) fn variant_count(s: &synstructure::Structure) -> (n: usize)
    ensures
        n == item_model(*s).variants.len(),
{
    s.variants().len()
}

/// The name of a variant: the `ident` of `VariantInfo::ast`, as text.
#[verifier::external_body]
pub(crate) fn variant_ident(s: &synstructure::Structure, v: usize) -> (name: String)
    requires
        v < item_model(*s).variants.len(),
    ensures
        name@ == item_model(*s).variants[v as int].ident,
{
    s.variants()[v].ast().ident.to_string()
}

/// The discriminant that a variant was written with, if any: the expression
/// in the `discriminant` of `VariantInfo::ast`, printed as tokens.
#[verifier::external_body]
pub(crate) fn variant_discriminant(s: &synstructure::Structure, v: usize) -> (expr: Option<String>)
    requires
        v < item_model(*s).variants.len(),
    ensures
        text_of(expr) == item_model(*s).variants[v as int].discriminant,
{
    let written = s.variants()[v].ast().discriminant.as_ref();
    written.map(|pair| quote::ToTokens::to_token_stream(&pair.1).to_string())
}

/// The number of fields of a variant: the length of the `fields` of
/// `VariantInfo::ast`.
#[verifier::external_body]
pub(crate) fn field_count(s: &synstructure::Structure, v: usize) -> (n: usize)
    requires
        v < item_model(*s).variants.len(),
    ensures
        n == item_model(*s).variants[v as int].fields.len(),
{
    s.variants()[v].ast().fields.len()
}

/// The name of a field, if it has one: the `ident` of the `syn::Field`, as
/// text.
#[verifier::external_body]
pub(crate) fn field_ident(s: &synstructure::Structure, v: usize, f: usize) -> (name: Option<String>)
    requires
        v < item_model(*s).variants.len(),
        f < item_model(*s).variants[v as int].fields.len(),
    ensures
        text_of(name) == item_model(*s).variants[v as int].fields[f as int].ident,
{
    let field = s.variants()[v].ast().fields.iter().nth(f).unwrap();
    field.ident.as_ref().map(|ident| ident.to_string())
}

/// The type of a field: the `ty` of the `syn::Field`, printed as tokens.
#[verifier::external_body]
pub(crate) fn field_type(s: &synstructure::Structure, v: usize, f: usize) -> (ty: String)
    requires
        v < item_model(*s).variants.len(),
        f < item_model(*s).variants[v as int].fields.len(),
    ensures
        ty@ == item_model(*s).variants[v as int].fields[f as int].ty,
{
    let field = s.variants()[v].ast().fields.iter().nth(f).unwrap();
    quote::ToTokens::to_token_stream(&field.ty).to_string()
}

/// The number of generic parameters: the length of the `params` of the
/// item's `syn::Generics`.
#[verifier::external_body]
pub(crate) fn generic_count(s: &synstructure::Structure) -> (n: usize)
    ensures
        n == item_model(*s).generics.len(),
{
    s.ast().generics.params.len()
}

/// The name of a generic parameter, if it is a type parameter. This tells the
/// variants of `syn::GenericParam` apart.
#[verifier::external_body]
pub(crate) fn type_param_ident(s: &synstructure::Structure, g: usize) -> (name: Option<String>)
    requires
        g < item_model(*s).generics.len(),
    ensures
        text_of(name) == item_model(*s).generics[g as int].type_ident,
{
    match &s.ast().generics.params[g] {
        syn::GenericParam::Type(param) => Some(param.ident.to_string()),
        syn::GenericParam::Lifetime(_) => None,
        syn::GenericParam::Const(_) => None,
    }
}

/// The last path segment of the first bound of a type parameter, where that
/// bound is a trait. This tells the variants of `syn::GenericParam` and of
/// `syn::TypeParamBound` apart.
#[verifier::external_body]
pub(crate) fn first_bound(s: &synstructure::Structure, g: usize) -> (name: Option<String>)
    requires
        g < item_model(*s).generics.len(),
    ensures
        text_of(name) == item_model(*s).generics[g as int].first_bound,
{
    match &s.ast().generics.params[g] {
        syn::GenericParam::Type(param) => match param.bounds.first() {
            Some(syn::TypeParamBound::Trait(bound)) => {
                bound.path.segments.last().map(|segment| segment.ident.to_string())
            },
            Some(syn::TypeParamBound::Lifetime(_)) => None,
            None => None,
        },
        syn::GenericParam::Lifetime(_) => None,
        syn::GenericParam::Const(_) => None,
    }
}

/// Reads the fields of variant `v`.
fn read_fields(s: &synstructure::Structure, v: usize) -> (fields: Vec<Field>)
    requires
        v < item_model(*s).variants.len(),
    ensures
        field_models(fields@) == item_model(*s).variants[v as int].fields,
{
    let ghost model = item_model(*s).variants[v as int].fields;
    let n = field_count(s, v);
    let mut fields: Vec<Field> = Vec::new();
    let mut f: usize = 0;
    while f < n
        invariant
            f <= n,
            n == model.len(),
            v < item_model(*s).variants.len(),
            model == item_model(*s).variants[v as int].fields,
            fields@.len() == f,
            forall|i: int| 0 <= i < f ==> (#[trigger] fields@[i])@ == model[i],
        decreases n - f,
    {
        let field = Field { ident: field_ident(s, v, f), ty: field_type(s, v, f) };
        fields.push(field);
        f += 1;
    }
    assert(field_models(fields@) =~= model);
    fields
}

/// Reads the variants.
fn read_variants(s: &synstructure::Structure) -> (variants: Vec<Variant>)
    ensures
        variant_models(variants@) == item_model(*s).variants,
{
    let ghost model = item_model(*s).variants;
    let n = variant_count(s);
    let mut variants: Vec<Variant> = Vec::new();
    let mut v: usize = 0;
    while v < n
        invariant
            v <= n,
            n == model.len(),
            model == item_model(*s).variants,
            variants@.len() == v,
            forall|i: int| 0 <= i < v ==> (#[trigger] variants@[i])@ == model[i],
        decreases n - v,
    {
        let variant = Variant {
            ident: variant_ident(s, v),
            discriminant: variant_discriminant(s, v),
            fields: read_fields(s, v),
        };
        variants.push(variant);
        v += 1;
    }
    assert(variant_models(variants@) =~= model);
    variants
}

/// Reads the generic parameters.
fn read_generics(s: &synstructure::Structure) -> (generics: Vec<Generic>)
    ensures
        generic_models(generics@) == item_model(*s).generics,
{
    let ghost model = item_model(*s).generics;
    let n = generic_count(s);
    let mut generics: Vec<Generic> = Vec::new();
    let mut g: usize = 0;
    while g < n
        invariant
            g <= n,
            n == model.len(),
            model == item_model(*s).generics,
            generics@.len() == g,
            forall|i: int| 0 <= i < g ==> (#[trigger] generics@[i])@ == model[i],
        decreases n - g,
    {
        let generic = Generic { type_ident: type_param_ident(s, g), first_bound: first_bound(s, g) };
        generics.push(generic);
        g += 1;
    }
    assert(generic_models(generics@) =~= model);
    generics
}

/// Reads an item: its name, its generic parameters, and its variants with
/// their fields, each in the order in which it was written.
pub fn read_item(s: &synstructure::Structure) -> (item: Item)
    ensures
        item@ == item_model(*s),
{
    Item {
        is_enum: is_enum(s),
        ident: item_ident(s),
        generics: read_generics(s),
        variants: read_variants(s),
    }
}

} // verus!
