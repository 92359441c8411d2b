use bointer::{Attribute, Declaration, DeriveError, Fields, Shape, Token, Variant};

fn word(text: &str) -> Token {
    Token::Ident(text.to_string())
}

fn attribute(name: &str, value: Vec<Token>) -> Attribute {
    Attribute { name: Some(name.to_string()), value }
}

fn repr(what: &str) -> Attribute {
    attribute("repr", vec![word(what)])
}

fn types(list: &[&str]) -> Vec<String> {
    list.iter().map(|text| text.to_string()).collect()
}

fn variant(name: &str, contents: Fields) -> Variant {
    Variant { name: name.to_string(), contents }
}

fn transparent(shape: Shape) -> Declaration {
    Declaration { attributes: vec![repr("transparent")], shape }
}

#[test]
fn tuple_struct_gives_its_first_field() {
    let decl = transparent(Shape::Struct(Fields::Tuple(types(&["usize"]))));
    assert_eq!(bointer::generate::derive(decl), Ok("usize".to_string()));
}

#[test]
fn named_struct_gives_its_first_field() {
    let decl = transparent(Shape::Struct(Fields::Named(types(&["Vec<T>", "PhantomData<U>"]))));
    assert_eq!(bointer::generate::derive(decl), Ok("Vec<T>".to_string()));
}

#[test]
fn enum_gives_the_first_field_of_its_first_variant() {
    let tuple = transparent(Shape::Enum(vec![
        variant("Only", Fields::Tuple(types(&["u32", "()"]))),
        variant("Never", Fields::Unit),
    ]));
    assert_eq!(bointer::generate::derive(tuple), Ok("u32".to_string()));

    let named = transparent(Shape::Enum(vec![variant("Only", Fields::Named(types(&["i64"])))]));
    assert_eq!(bointer::generate::derive(named), Ok("i64".to_string()));
}

#[test]
fn declaration_without_repr_is_rejected() {
    let none = Declaration {
        attributes: vec![],
        shape: Shape::Struct(Fields::Tuple(types(&["usize"]))),
    };
    assert_eq!(bointer::generate::derive(none), Err(DeriveError::MissingRepr));

    let others = Declaration {
        attributes: vec![
            attribute("derive", vec![word("Clone")]),
            attribute("transparent", vec![]),
            Attribute { name: None, value: vec![word("transparent")] },
        ],
        shape: Shape::Struct(Fields::Tuple(types(&["usize"]))),
    };
    assert_eq!(bointer::generate::derive(others), Err(DeriveError::MissingRepr));
}

#[test]
fn repr_c_is_rejected() {
    let decl = Declaration {
        attributes: vec![repr("C")],
        shape: Shape::Struct(Fields::Tuple(types(&["usize"]))),
    };
    assert_eq!(
        bointer::generate::derive(decl),
        Err(DeriveError::NotTransparent { attribute: 0 })
    );
}

#[test]
fn repr_must_be_transparent_alone() {
    let shape = Shape::Struct(Fields::Tuple(types(&["usize"])));
    let values = vec![
        vec![],
        vec![Token::Other],
        vec![word("packed")],
        vec![word("Transparent")],
        vec![word("transparent"), Token::Other, word("C")],
        vec![word("transparent"), word("transparent")],
    ];
    for value in values {
        let decl = Declaration {
            attributes: vec![attribute("derive", vec![word("Debug")]), attribute("repr", value)],
            shape: shape.clone(),
        };
        assert_eq!(
            bointer::generate::derive(decl),
            Err(DeriveError::NotTransparent { attribute: 1 })
        );
    }
}

#[test]
fn only_the_first_repr_counts() {
    let shape = Shape::Struct(Fields::Tuple(types(&["usize"])));
    let c_first = Declaration {
        attributes: vec![repr("C"), repr("transparent")],
        shape: shape.clone(),
    };
    assert_eq!(
        bointer::generate::derive(c_first),
        Err(DeriveError::NotTransparent { attribute: 0 })
    );
    let transparent_first = Declaration {
        attributes: vec![attribute("doc", vec![Token::Other]), repr("transparent"), repr("C")],
        shape,
    };
    assert_eq!(bointer::generate::derive(transparent_first), Ok("usize".to_string()));
}

#[test]
fn struct_without_fields_is_rejected() {
    for fields in [Fields::Unit, Fields::Tuple(vec![]), Fields::Named(vec![])] {
        let decl = transparent(Shape::Struct(fields));
        assert_eq!(bointer::generate::derive(decl), Err(DeriveError::NoFields));
    }
}

#[test]
fn enum_without_variants_is_rejected() {
    let decl = transparent(Shape::Enum(vec![]));
    assert_eq!(bointer::generate::derive(decl), Err(DeriveError::NoVariants));
}

#[test]
fn enum_whose_first_variant_is_empty_is_rejected() {
    for fields in [Fields::Unit, Fields::Tuple(vec![]), Fields::Named(vec![])] {
        let decl = transparent(Shape::Enum(vec![
            variant("Empty", fields),
            variant("Full", Fields::Tuple(types(&["u8"]))),
        ]));
        assert_eq!(bointer::generate::derive(decl), Err(DeriveError::NoVariantFields));
    }
}

#[test]
fn union_is_rejected() {
    let decl = transparent(Shape::Other);
    assert_eq!(bointer::generate::derive(decl), Err(DeriveError::Unsupported));
}

#[test]
fn attributes_are_judged_before_the_shape() {
    let missing = Declaration { attributes: vec![], shape: Shape::Other };
    assert_eq!(bointer::generate::derive(missing), Err(DeriveError::MissingRepr));
    let wrong = Declaration { attributes: vec![repr("C")], shape: Shape::Enum(vec![]) };
    assert_eq!(
        bointer::generate::derive(wrong),
        Err(DeriveError::NotTransparent { attribute: 0 })
    );
}

#[test]
fn first_repr_is_found() {
    assert_eq!(bointer::generate::first_repr(&vec![]), None);
    assert_eq!(bointer::generate::first_repr(&vec![repr("C")]), Some(0));
    let list = vec![
        attribute("derive", vec![]),
        Attribute { name: None, value: vec![] },
        repr("transparent"),
        repr("C"),
    ];
    assert_eq!(bointer::generate::first_repr(&list), Some(2));
    assert!(list[2].names_repr());
    assert!(!list[0].names_repr());
    assert!(!list[1].names_repr());
    assert!(list[2].asks_transparent());
    assert!(!list[3].asks_transparent());
}

#[test]
fn first_type_of_fields() {
    assert_eq!(Fields::Unit.first_type(), None);
    assert_eq!(Fields::Tuple(vec![]).first_type(), None);
    assert_eq!(Fields::Tuple(types(&["a", "b"])).first_type(), Some(&"a".to_string()));
    assert_eq!(Fields::Named(types(&["b", "a"])).first_type(), Some(&"b".to_string()));
}

#[test]
fn inner_type_of_shapes() {
    assert_eq!(
        bointer::generate::inner_type_of(&Shape::Struct(Fields::Named(types(&["T"])))),
        Ok("T".to_string())
    );
    assert_eq!(
        bointer::generate::inner_type_of(&Shape::Other),
        Err(DeriveError::Unsupported)
    );
}

#[test]
fn each_rule_has_its_own_message() {
    let errors = [
        DeriveError::MissingRepr,
        DeriveError::NotTransparent { attribute: 0 },
        DeriveError::NoFields,
        DeriveError::NoVariants,
        DeriveError::NoVariantFields,
        DeriveError::Unsupported,
    ];
    let expected = [
        "requires explicit transparent-representation declaration",
        "must declare transparent representation",
        "must have at least one field",
        "must have at least one variant",
        "variant must have at least one field",
        "only structs or enums are supported",
    ];
    for (i, error) in errors.iter().enumerate() {
        assert_eq!(error.message(), expected[i]);
        for (j, other) in errors.iter().enumerate() {
            assert_eq!(error.message() == other.message(), i == j);
        }
    }
    assert_eq!(
        DeriveError::NotTransparent { attribute: 3 }.message(),
        DeriveError::NotTransparent { attribute: 0 }.message()
    );
}
