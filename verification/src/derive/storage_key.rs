//! The derive that gives an item its storage key.

use crate::derive::emit::{derived_impl, gen_impl, is_trait_bound, parses_as_trait_bound, Bounds};
use crate::derive::item::{
    generic_models, item_model, read_item, text_of, Generic, GenericModel, Item,
};
use vstd::prelude::*;
use vstd::string::StringExecFns;

verus! {

/// The trait that the derive implements.
pub const KEY_TRAIT: &'static str = "::ink::storage::traits::StorageKey";

/// The bound by which a type parameter is known as the salt.
pub const SALT_BOUND: &'static str = "StorageKey";

/// The salt of an item that names none.
pub const NO_SALT: &'static str = "()";

// The pieces of the generated code, between which the salt is written.
pub const KEY_OPEN: &'static str = "const KEY: ::ink::primitives::Key = < ";

pub const KEY_CLOSE: &'static str = " as ::ink::storage::traits::StorageKey>::KEY;";

/// Whether a generic parameter is a salt: a type parameter whose first bound
/// is a trait named as the salt bound.
pub open spec fn is_salt(param: GenericModel) -> bool {
    param.type_ident.is_some() && param.first_bound == Some(SALT_BOUND@)
}

/// The first salt among the first `n` generic parameters.
pub open spec fn salt_among(generics: Seq<GenericModel>, n: nat) -> Option<Seq<char>>
    decreases n,
{
    if n == 0 {
        None
    } else if salt_among(generics, (n - 1) as nat).is_some() {
        salt_among(generics, (n - 1) as nat)
    } else if is_salt(generics[n - 1]) {
        generics[n - 1].type_ident
    } else {
        None
    }
}

/// The type whose key the item takes: its first salt, or the unit type.
pub open spec fn salt_text(generics: Seq<GenericModel>) -> Seq<char> {
    match salt_among(generics, generics.len()) {
        Some(ident) => ident,
        None => NO_SALT@,
    }
}

/// The body of the impl.
pub open spec fn key_body(generics: Seq<GenericModel>) -> Seq<char> {
    KEY_OPEN@ + salt_text(generics) + KEY_CLOSE@
}

/// The impl of the key trait with `body` between its braces; nothing where
/// the name of the trait is not read as a trait bound.
pub open spec fn key_impl(s: synstructure::Structure, body: Seq<char>) -> Option<Seq<char>> {
    if is_trait_bound(KEY_TRAIT@) {
        derived_impl(s, Bounds::Nothing, KEY_TRAIT@, body)
    } else {
        None
    }
}

/// What the derive writes for an item.
pub open spec fn key_derive(s: synstructure::Structure) -> Option<Seq<char>> {
    key_impl(s, key_body(item_model(s).generics))
}

/// A salt that is found among the first parameters is the one found among
/// all of them.
proof fn salt_stays(generics: Seq<GenericModel>, found: nat, n: nat)
    requires
        found <= n,
        salt_among(generics, found).is_some(),
    ensures
        salt_among(generics, n) == salt_among(generics, found),
    decreases n - found,
{
    if found < n {
        salt_stays(generics, found, (n - 1) as nat);
    }
}

/// The name of the first generic parameter that is a salt.
pub fn find_storage_key_salt(generics: &Vec<Generic>) -> (salt: Option<&String>)
    ensures
        match salt {
            Some(ident) => salt_among(generic_models(generics@), generics@.len() as nat) == Some(
                ident@,
            ),
            None => salt_among(generic_models(generics@), generics@.len() as nat).is_none(),
        },
{
    let ghost models = generic_models(generics@);
    let n = generics.len();
    let wanted = String::from_str(SALT_BOUND);
    let mut g: usize = 0;
    while g < n
        invariant
            g <= n,
            n == generics@.len(),
            models == generic_models(generics@),
            wanted@ == SALT_BOUND@,
            salt_among(models, g as nat).is_none(),
        decreases n - g,
    {
        let generic = &generics[g];
        assert(models[g as int] == generic@);
        if let Some(ident) = &generic.type_ident {
            if let Some(bound) = &generic.first_bound {
                if bound.eq(&wanted) {
                    proof {
                        salt_stays(models, (g + 1) as nat, n as nat);
                    }
                    return Some(ident);
                }
            }
        }
        g += 1;
    }
    None
}

/// The body of the impl: the key of the item is that of its first salt, or
/// of the unit type where it has none.
pub fn storage_key_body(item: &Item) -> (body: String)
    ensures
        body@ == key_body(item@.generics),
{
    let mut body = String::from_str(KEY_OPEN);
    match find_storage_key_salt(&item.generics) {
        Some(ident) => {
            body.append(ident.as_str());
        },
        None => {
            body.append(NO_SALT);
        },
    }
    body.append(KEY_CLOSE);
    assert(body@ =~= key_body(item@.generics));
    body
}

/// What the derive writes for an item: the impl of the key trait whose key
/// is that of the item's salt.
///
/// Nothing is written where the text of the impl is not accepted as tokens.
pub fn storage_key_derive(s: synstructure::Structure) -> (tokens: Option<String>)
    ensures
        text_of(tokens) == key_derive(s),
{
    let item = read_item(&s);
    let body = storage_key_body(&item);
    if parses_as_trait_bound(KEY_TRAIT) {
        gen_impl(s, Bounds::Nothing, KEY_TRAIT, body.as_str())
    } else {
        None
    }
}

} // verus!
