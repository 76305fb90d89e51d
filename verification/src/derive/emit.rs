//! What the derives hand to the crates that print and wrap their code.

use crate::derive::item::text_of;
use vstd::prelude::*;

verus! {

/// Which bounds the generated impl puts on the item's generics.
#[derive(Clone, Copy, Debug, PartialEq, Eq, Structural)]
pub enum Bounds {
    /// One bound for each field type that mentions a type parameter.
    Fields,
    /// None.
    Nothing,
}

/// Whether a text is one trait bound.
pub uninterp spec fn is_trait_bound(text: Seq<char>) -> bool;

/// A text as a string literal.
pub uninterp spec fn string_literal(text: Seq<char>) -> Seq<char>;

/// The tokens that make the compiler fail with a message.
pub uninterp spec fn error_report(message: Seq<char>) -> Seq<char>;

/// The impl of the trait `bound` for an item, with `body` between its
/// braces, wrapped in a constant without a name; nothing where the text of
/// the impl is no sequence of tokens.
pub uninterp spec fn derived_impl(
    s: synstructure::Structure,
    bounds: Bounds,
    bound: Seq<char>,
    body: Seq<char>,
) -> Option<Seq<char>>;

/// Whether `text` is one trait bound: whether `syn::parse_str` reads all of
/// it as a `syn::TraitBound`.
#[verifier::external_body]
pub(crate) fn parses_as_trait_bound(text: &str) -> (yes: bool)
    ensures
        yes == is_trait_bound(text@),
{
    syn::parse_str::<syn::TraitBound>(text).is_ok()
}

/// `text` as a string literal: what `proc_macro2::Literal::string` prints.
#[verifier::external_body]
pub(crate) fn string_literal_text(text: &str) -> (literal: String)
    ensures
        literal@ == string_literal(text@),
{
    proc_macro2::Literal::string(text).to_string()
}

/// The tokens that report `message` as a compile error at the item: what
/// `syn::Error::new` and `syn::Error::to_compile_error` give, printed. The
/// text depends on the message alone; the item gives the place.
#[verifier::external_body]
pub(crate) fn error_report_text(s: &synstructure::Structure, message: &str) -> (tokens: String)
    ensures
        tokens@ == error_report(message@),
{
    let span = syn::spanned::Spanned::span(s.ast());
    syn::Error::new(span, message).to_compile_error().to_string()
}

/// The impl that `synstructure::Structure::gen_impl` writes for the item,
/// printed. The item takes the bounds asked for (`Structure::add_bounds`)
/// and wraps the impl in a constant without a name
/// (`Structure::underscore_const`). The impl is handed over as `gen impl`,
/// the bound, `for @Self` and the body in braces; where that text is no
/// sequence of tokens nothing is generated.
#[verifier::external_body]
pub(crate) fn gen_impl(
    mut s: synstructure::Structure,
    bounds: Bounds,
    bound: &str,
    body: &str,
) -> (tokens: Option<String>)
    requires
        is_trait_bound(bound@),
    ensures
        text_of(tokens) == derived_impl(s, bounds, bound@, body@),
{
    let mode = match bounds {
        Bounds::Fields => synstructure::AddBounds::Fields,
        Bounds::Nothing => synstructure::AddBounds::None,
    };
    s.add_bounds(mode).underscore_const(true);
    let text = format!("gen impl {}\nfor @Self {{\n{}\n}}", bound, body);
    let cfg: proc_macro2::TokenStream = text.parse().ok()?;
    Some(s.gen_impl(cfg).to_string())
}

} // verus!
