use hostcall::derive::item::{Field, Item, Variant};
use hostcall::derive::storage_layout::{
    storage_layout_body, storage_layout_derive, storage_layout_enum, storage_layout_struct,
    LayoutError,
};

/// The code that the derive writes for an item, as its tokens print.
fn expand(item: &str) -> String {
    let parsed = syn::parse_str::<syn::DeriveInput>(item).expect("the item is a struct or an enum");
    storage_layout_derive(synstructure::Structure::new(&parsed)).expect("the derive writes an impl")
}

/// A text as its tokens print.
fn tokens(text: &str) -> String {
    text.parse::<proc_macro2::TokenStream>().expect("the text is a sequence of tokens").to_string()
}

/// The tokens of a text one by one, whatever stands between them.
fn spelling(text: &str) -> Vec<String> {
    let stream = text.parse::<proc_macro2::TokenStream>().expect("the text is a sequence of tokens");
    let mut spelled = Vec::new();
    spell(stream, &mut spelled);
    spelled
}

fn spell(stream: proc_macro2::TokenStream, spelled: &mut Vec<String>) {
    for tree in stream {
        match tree {
            proc_macro2::TokenTree::Group(group) => {
                spelled.push(format!("{:?}", group.delimiter()));
                spell(group.stream(), spelled);
                spelled.push(String::from("end"));
            }
            other => spelled.push(other.to_string()),
        }
    }
}

#[test]
fn storage_layout_unit_struct_works() {
    let item = r#"
        struct UnitStruct;
    "#;
    let expected = r#"
        const _: () = {
            impl ::ink::storage::traits::StorageLayout for UnitStruct {
                fn layout(__key: &::ink::primitives::Key) -> ::ink::metadata::layout::Layout {
                    ::ink::metadata::layout::Layout::Struct(
                        ::ink::metadata::layout::StructLayout::new(::core::stringify!(UnitStruct), [])
                    )
                }
            }
        };
    "#;
    assert_eq!(expand(item), tokens(expected));
}

#[test]
fn tuple_struct_works() {
    let item = r#"
        struct TupleStruct(bool, u32, i64);
    "#;
    let expected = r#"
        const _: () = {
            impl ::ink::storage::traits::StorageLayout for TupleStruct {
                fn layout(__key: &::ink::primitives::Key) -> ::ink::metadata::layout::Layout {
                    ::ink::metadata::layout::Layout::Struct(
                        ::ink::metadata::layout::StructLayout::new(
                            ::core::stringify!(TupleStruct),
                            [
                                ::ink::metadata::layout::FieldLayout::new(
                                    "0",
                                    <bool as ::ink::storage::traits::StorageLayout>::layout(__key),
                                ),
                                ::ink::metadata::layout::FieldLayout::new(
                                    "1",
                                    <u32 as ::ink::storage::traits::StorageLayout>::layout(__key),
                                ),
                                ::ink::metadata::layout::FieldLayout::new(
                                    "2",
                                    <i64 as ::ink::storage::traits::StorageLayout>::layout(__key),
                                ),
                            ]
                        )
                    )
                }
            }
        };
    "#;
    assert_eq!(expand(item), tokens(expected));
}

#[test]
fn named_fields_struct_works() {
    let item = r#"
        struct NamedFieldsStruct {
            a: bool,
            b: u32,
            c: i64,
        }
    "#;
    let expected = r#"
        const _: () = {
            impl ::ink::storage::traits::StorageLayout for NamedFieldsStruct {
                fn layout(__key: &::ink::primitives::Key) -> ::ink::metadata::layout::Layout {
                    ::ink::metadata::layout::Layout::Struct(
                        ::ink::metadata::layout::StructLayout::new(
                            ::core::stringify!(NamedFieldsStruct),
                            [
                                ::ink::metadata::layout::FieldLayout::new(
                                    "a",
                                    <bool as ::ink::storage::traits::StorageLayout>::layout(__key),
                                ),
                                ::ink::metadata::layout::FieldLayout::new(
                                    "b",
                                    <u32 as ::ink::storage::traits::StorageLayout>::layout(__key),
                                ),
                                ::ink::metadata::layout::FieldLayout::new(
                                    "c",
                                    <i64 as ::ink::storage::traits::StorageLayout>::layout(__key),
                                ),
                            ]
                        )
                    )
                }
            }
        };
    "#;
    assert_eq!(expand(item), tokens(expected));
}

#[test]
fn clike_enum_works() {
    let item = r#"
        enum ClikeEnum { A, B, C }
    "#;
    let expected = r#"
        const _: () = {
            impl ::ink::storage::traits::StorageLayout for ClikeEnum {
                fn layout(__key: &::ink::primitives::Key) -> ::ink::metadata::layout::Layout {
                    ::ink::metadata::layout::Layout::Enum(
                        ::ink::metadata::layout::EnumLayout::new(
                            ::core::stringify!(ClikeEnum),
                            ::ink::metadata::layout::LayoutKey::from(__key),
                            [
                                {
                                    (
                                        ::ink::metadata::layout::Discriminant::from(0usize),
                                        ::ink::metadata::layout::StructLayout::new(
                                            ::core::stringify!(A), []
                                        ),
                                    )
                                },
                                {
                                    (
                                        ::ink::metadata::layout::Discriminant::from(1usize),
                                        ::ink::metadata::layout::StructLayout::new(
                                            ::core::stringify!(B), []
                                        ),
                                    )
                                },
                                {
                                    (
                                        ::ink::metadata::layout::Discriminant::from(2usize),
                                        ::ink::metadata::layout::StructLayout::new(
                                            ::core::stringify!(C), []
                                        ),
                                    )
                                },
                            ]
                        )
                    )
                }
            }
        };
    "#;
    assert_eq!(expand(item), tokens(expected));
}

#[test]
fn mixed_enum_works() {
    let item = r#"
        enum MixedEnum {
            A,
            B(bool, u32, i64),
            C{
                a: bool,
                b: u32,
                c: i64,
            }
        }
    "#;
    let expected = r#"
        const _: () = {
            impl ::ink::storage::traits::StorageLayout for MixedEnum {
                fn layout(__key: &::ink::primitives::Key) -> ::ink::metadata::layout::Layout {
                    ::ink::metadata::layout::Layout::Enum(
                        ::ink::metadata::layout::EnumLayout::new(
                            ::core::stringify!(MixedEnum),
                            ::ink::metadata::layout::LayoutKey::from(__key),
                            [
                                {
                                    (
                                        ::ink::metadata::layout::Discriminant::from(0usize),
                                        ::ink::metadata::layout::StructLayout::new(
                                            ::core::stringify!(A), []
                                        ),
                                    )
                                },
                                {
                                    (
                                        ::ink::metadata::layout::Discriminant::from(1usize),
                                        ::ink::metadata::layout::StructLayout::new(
                                            ::core::stringify!(B),
                                            [
                                                ::ink::metadata::layout::FieldLayout::new(
                                                    "0",
                                                    <bool as ::ink::storage::traits::StorageLayout>::layout(__key),
                                                ),
                                                ::ink::metadata::layout::FieldLayout::new(
                                                    "1",
                                                    <u32 as ::ink::storage::traits::StorageLayout>::layout(__key),
                                                ),
                                                ::ink::metadata::layout::FieldLayout::new(
                                                    "2",
                                                    <i64 as ::ink::storage::traits::StorageLayout>::layout(__key),
                                                ),
                                            ]
                                        ),
                                    )
                                },
                                {
                                    (
                                        ::ink::metadata::layout::Discriminant::from(2usize),
                                        ::ink::metadata::layout::StructLayout::new(
                                            ::core::stringify!(C),
                                            [
                                                ::ink::metadata::layout::FieldLayout::new(
                                                    "a",
                                                    <bool as ::ink::storage::traits::StorageLayout>::layout(__key),
                                                ),
                                                ::ink::metadata::layout::FieldLayout::new(
                                                    "b",
                                                    <u32 as ::ink::storage::traits::StorageLayout>::layout(__key),
                                                ),
                                                ::ink::metadata::layout::FieldLayout::new(
                                                    "c",
                                                    <i64 as ::ink::storage::traits::StorageLayout>::layout(__key),
                                                ),
                                            ]
                                        ),
                                    )
                                },
                            ]
                        )
                    )
                }
            }
        };
    "#;
    assert_eq!(expand(item), tokens(expected));
}
#[test]
fn written_discriminants_are_kept() {
    let item = r#"
        enum Sparse { A = 3, B, C = 1 + 6 }
    "#;
    let expected = r#"
        const _: () = {
            impl ::ink::storage::traits::StorageLayout for Sparse {
                fn layout(__key: &::ink::primitives::Key) -> ::ink::metadata::layout::Layout {
                    ::ink::metadata::layout::Layout::Enum(
                        ::ink::metadata::layout::EnumLayout::new(
                            ::core::stringify!(Sparse),
                            ::ink::metadata::layout::LayoutKey::from(__key),
                            [
                                {
                                    (
                                        ::ink::metadata::layout::Discriminant::from(3),
                                        ::ink::metadata::layout::StructLayout::new(
                                            ::core::stringify!(A), []
                                        ),
                                    )
                                },
                                {
                                    (
                                        ::ink::metadata::layout::Discriminant::from(1usize),
                                        ::ink::metadata::layout::StructLayout::new(
                                            ::core::stringify!(B), []
                                        ),
                                    )
                                },
                                {
                                    (
                                        ::ink::metadata::layout::Discriminant::from(1 + 6),
                                        ::ink::metadata::layout::StructLayout::new(
                                            ::core::stringify!(C), []
                                        ),
                                    )
                                },
                            ]
                        )
                    )
                }
            }
        };
    "#;
    assert_eq!(expand(item), tokens(expected));
}

#[test]
fn generic_fields_are_bound() {
    let item = r#"
        struct Pair<T> { first: T, second: Vec<T> }
    "#;
    let expected = r#"
        const _: () = {
            impl<T> ::ink::storage::traits::StorageLayout for Pair<T>
            where
                T: ::ink::storage::traits::StorageLayout,
                Vec<T>: ::ink::storage::traits::StorageLayout
            {
                fn layout(__key: &::ink::primitives::Key) -> ::ink::metadata::layout::Layout {
                    ::ink::metadata::layout::Layout::Struct(
                        ::ink::metadata::layout::StructLayout::new(
                            ::core::stringify!(Pair),
                            [
                                ::ink::metadata::layout::FieldLayout::new(
                                    "first",
                                    <T as ::ink::storage::traits::StorageLayout>::layout(__key),
                                ),
                                ::ink::metadata::layout::FieldLayout::new(
                                    "second",
                                    <Vec<T> as ::ink::storage::traits::StorageLayout>::layout(__key),
                                ),
                            ]
                        )
                    )
                }
            }
        };
    "#;
    assert_eq!(spelling(&expand(item)), spelling(expected));
}

#[test]
fn positions_beyond_nine_are_spelled_in_full() {
    let item = "struct Wide(u8, u8, u8, u8, u8, u8, u8, u8, u8, u8, u8, u8);";
    let written = expand(item);
    assert!(written.contains(&tokens("\"9\", <u8 as")));
    assert!(written.contains(&tokens("\"10\", <u8 as")));
    assert!(written.contains(&tokens("\"11\", <u8 as")));
    assert!(!written.contains("\"12\""));
}

/// An enum with `n` variants that hold nothing.
fn enum_of(n: usize) -> String {
    let mut item = String::from("enum Many {");
    let mut i: usize = 0;
    while i < n {
        item.push_str(&format!(" V{},", i));
        i += 1;
    }
    item.push_str(" }");
    item
}

#[test]
fn enum_with_as_many_variants_as_a_layout_tells_apart() {
    let written = expand(&enum_of(256));
    assert!(written.contains(&tokens("Discriminant::from(0usize)")));
    assert!(written.contains(&tokens("Discriminant::from(255usize)")));
    assert!(written.contains(&tokens("::core::stringify!(V255)")));
    assert!(!written.contains("256usize"));
}

#[test]
fn enum_with_too_many_variants_is_refused() {
    let expected = r#"
        compile_error! { "Currently only enums with at most 256 variants are supported." }
    "#;
    assert_eq!(expand(&enum_of(257)), tokens(expected));
}

fn field(ident: Option<&str>, ty: &str) -> Field {
    Field { ident: ident.map(String::from), ty: String::from(ty) }
}

fn variant(ident: &str, discriminant: Option<&str>, fields: Vec<Field>) -> Variant {
    Variant { ident: String::from(ident), discriminant: discriminant.map(String::from), fields }
}

fn item(is_enum: bool, ident: &str, variants: Vec<Variant>) -> Item {
    Item { is_enum, ident: String::from(ident), generics: Vec::new(), variants }
}

#[test]
fn struct_body_lists_fields_by_name_or_position() {
    let fields = vec![field(Some("a"), "bool"), field(None, "u32")];
    let written = storage_layout_struct(&item(false, "S", vec![variant("S", None, fields)]));
    let expected = r#"
        fn layout(__key: &::ink::primitives::Key) -> ::ink::metadata::layout::Layout {
            ::ink::metadata::layout::Layout::Struct(
                ::ink::metadata::layout::StructLayout::new(
                    ::core::stringify!(S),
                    [
                        ::ink::metadata::layout::FieldLayout::new(
                            "a",
                            <bool as ::ink::storage::traits::StorageLayout>::layout(__key),
                        ),
                        ::ink::metadata::layout::FieldLayout::new(
                            "1",
                            <u32 as ::ink::storage::traits::StorageLayout>::layout(__key),
                        ),
                    ]
                )
            )
        }
    "#;
    assert_eq!(spelling(&written.expect("a struct of one variant has a layout")), spelling(expected));
}

#[test]
fn enum_body_lists_variants_by_discriminant_or_position() {
    let variants = vec![
        variant("A", None, Vec::new()),
        variant("B", Some("7"), vec![field(None, "u8")]),
        variant("C", None, Vec::new()),
    ];
    let written = storage_layout_enum(&item(true, "E", variants));
    let expected = r#"
        fn layout(__key: &::ink::primitives::Key) -> ::ink::metadata::layout::Layout {
            ::ink::metadata::layout::Layout::Enum(
                ::ink::metadata::layout::EnumLayout::new(
                    ::core::stringify!(E),
                    ::ink::metadata::layout::LayoutKey::from(__key),
                    [
                        {
                            (
                                ::ink::metadata::layout::Discriminant::from(0usize),
                                ::ink::metadata::layout::StructLayout::new(::core::stringify!(A), []),
                            )
                        },
                        {
                            (
                                ::ink::metadata::layout::Discriminant::from(7),
                                ::ink::metadata::layout::StructLayout::new(
                                    ::core::stringify!(B),
                                    [
                                        ::ink::metadata::layout::FieldLayout::new(
                                            "0",
                                            <u8 as ::ink::storage::traits::StorageLayout>::layout(__key),
                                        ),
                                    ]
                                ),
                            )
                        },
                        {
                            (
                                ::ink::metadata::layout::Discriminant::from(2usize),
                                ::ink::metadata::layout::StructLayout::new(::core::stringify!(C), []),
                            )
                        },
                    ]
                )
            )
        }
    "#;
    assert_eq!(spelling(&written.expect("a small enum has a layout")), spelling(expected));
}

#[test]
fn names_are_written_as_string_literals() {
    let fields = vec![field(Some("r#type"), "u8")];
    let written = storage_layout_struct(&item(false, "S", vec![variant("S", None, fields)]))
        .expect("a struct of one variant has a layout");
    assert!(written.contains("\"r#type\""));
}

#[test]
fn body_of_an_enum_with_too_many_variants_is_refused() {
    let mut variants = Vec::new();
    let mut i: usize = 0;
    while i < 257 {
        variants.push(variant("V", None, Vec::new()));
        i += 1;
    }
    let many = item(true, "Many", variants);
    assert_eq!(storage_layout_enum(&many).err(), Some(LayoutError::TooManyVariants));
    assert_eq!(storage_layout_body(&many).err(), Some(LayoutError::TooManyVariants));
}

#[test]
fn body_of_an_enum_with_the_most_variants_is_written() {
    let mut variants = Vec::new();
    let mut i: usize = 0;
    while i < 256 {
        variants.push(variant("V", None, Vec::new()));
        i += 1;
    }
    assert!(storage_layout_body(&item(true, "Most", variants)).is_ok());
}

#[test]
fn body_of_an_enum_without_variants_is_written() {
    let written = storage_layout_body(&item(true, "Never", Vec::new()));
    let expected = r#"
        fn layout(__key: &::ink::primitives::Key) -> ::ink::metadata::layout::Layout {
            ::ink::metadata::layout::Layout::Enum(
                ::ink::metadata::layout::EnumLayout::new(
                    ::core::stringify!(Never),
                    ::ink::metadata::layout::LayoutKey::from(__key),
                    []
                )
            )
        }
    "#;
    assert_eq!(spelling(&written.expect("an empty enum has a layout")), spelling(expected));
}

#[test]
fn body_of_a_struct_that_is_not_one_variant_is_refused() {
    let none = item(false, "S", Vec::new());
    assert_eq!(storage_layout_struct(&none).err(), Some(LayoutError::NotOneVariant));
    let two = item(false, "S", vec![variant("S", None, Vec::new()), variant("S", None, Vec::new())]);
    assert_eq!(storage_layout_body(&two).err(), Some(LayoutError::NotOneVariant));
}
