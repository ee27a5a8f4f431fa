use ink_event_ir::{
    Attribute, AttributeArgKind, AttributeFrag, ErrorKind, Field, GenericParam, InkEventDefinition,
    ItemEnum, ItemStruct, Span, Variant, Visibility,
};

fn span(lo: u32) -> Span {
    Span { lo, hi: lo + 1 }
}

fn ink_at(lo: u32, kinds: &[AttributeArgKind]) -> Attribute {
    let args = kinds
        .iter()
        .enumerate()
        .map(|(i, k)| AttributeFrag { kind: *k, span: span(lo + 1 + i as u32) })
        .collect();
    Attribute::Ink { args, span: span(lo) }
}

fn ink(kinds: &[AttributeArgKind]) -> Attribute {
    ink_at(100, kinds)
}

fn other(path: &str) -> Attribute {
    Attribute::Other { path: path.to_string(), tokens: String::new(), span: span(900) }
}

fn field(name: &str, ty: &str, attrs: Vec<Attribute>) -> Field {
    Field {
        attrs,
        vis: Visibility::Inherited,
        ident: Some(name.to_string()),
        ty: ty.to_string(),
        span: span(500),
    }
}

fn event_struct(attrs: Vec<Attribute>, fields: Vec<Field>) -> ItemStruct {
    ItemStruct {
        attrs,
        vis: Visibility::Public,
        ident: "MyEvent".to_string(),
        generics: Vec::new(),
        fields,
        span: span(10),
    }
}

/// `pub struct MyEvent { #[ink(topic)] field_1: i32, field_2: bool }`
fn my_event(attrs: Vec<Attribute>) -> ItemStruct {
    event_struct(
        attrs,
        vec![
            field("field_1", "i32", vec![ink(&[AttributeArgKind::Topic])]),
            field("field_2", "bool", vec![]),
        ],
    )
}

fn assert_try_from_fails(item_struct: ItemStruct, expected: &str) {
    assert_eq!(
        InkEventDefinition::try_from_struct(item_struct).map_err(|err| err.message()),
        Err(expected.to_string())
    )
}

#[test]
fn simple_try_from_works() {
    let item_struct = my_event(vec![ink(&[AttributeArgKind::Event])]);
    assert!(InkEventDefinition::try_from_struct(item_struct).is_ok());
}

#[test]
fn conflicting_struct_attributes_fails() {
    assert_try_from_fails(
        my_event(vec![
            ink(&[AttributeArgKind::Event]),
            ink(&[AttributeArgKind::Storage]),
        ]),
        "encountered conflicting ink! attribute argument",
    )
}

#[test]
fn duplicate_struct_attributes_fails() {
    assert_try_from_fails(
        my_event(vec![
            ink(&[AttributeArgKind::Event]),
            ink(&[AttributeArgKind::Event]),
        ]),
        "encountered duplicate ink! attribute",
    )
}

#[test]
fn wrong_first_struct_attribute_fails() {
    assert_try_from_fails(
        my_event(vec![
            ink(&[AttributeArgKind::Storage]),
            ink(&[AttributeArgKind::Event]),
        ]),
        "unexpected first ink! attribute argument",
    )
}

#[test]
fn missing_storage_attribute_fails() {
    assert_try_from_fails(
        my_event(vec![]),
        "encountered unexpected empty expanded ink! attribute arguments",
    )
}

#[test]
fn generic_event_fails() {
    let mut item = event_struct(
        vec![ink(&[AttributeArgKind::Event])],
        vec![
            field("field_1", "T", vec![ink(&[AttributeArgKind::Topic])]),
            field("field_2", "bool", vec![]),
        ],
    );
    item.ident = "GenericEvent".to_string();
    item.generics = vec![GenericParam { name: "T".to_string(), span: span(20) }];
    assert_try_from_fails(item, "generic ink! event structs are not supported")
}

#[test]
fn non_pub_event_struct() {
    let mut item = my_event(vec![ink(&[AttributeArgKind::Event])]);
    item.ident = "PrivateEvent".to_string();
    item.vis = Visibility::Inherited;
    assert_try_from_fails(item, "non `pub` ink! event structs are not supported")
}

#[test]
fn duplicate_field_attributes_fails() {
    let item = event_struct(
        vec![ink(&[AttributeArgKind::Event])],
        vec![
            field(
                "field_1",
                "i32",
                vec![
                    ink(&[AttributeArgKind::Topic]),
                    ink(&[AttributeArgKind::Topic]),
                ],
            ),
            field("field_2", "bool", vec![]),
        ],
    );
    assert_try_from_fails(item, "encountered duplicate ink! attribute")
}

#[test]
fn invalid_field_attributes_fails() {
    let item = event_struct(
        vec![ink(&[AttributeArgKind::Event])],
        vec![
            field("field_1", "i32", vec![ink(&[AttributeArgKind::Message])]),
            field("field_2", "bool", vec![]),
        ],
    );
    assert_try_from_fails(
        item,
        "first optional ink! attribute of an event field must be #[ink(topic)]",
    )
}

#[test]
fn conflicting_field_attributes_fails() {
    let item = event_struct(
        vec![ink(&[AttributeArgKind::Event])],
        vec![
            field(
                "field_1",
                "i32",
                vec![
                    ink(&[AttributeArgKind::Topic]),
                    ink(&[AttributeArgKind::Payable]),
                ],
            ),
            field("field_2", "bool", vec![]),
        ],
    );
    assert_try_from_fails(item, "encountered conflicting ink! attribute for event field")
}

#[test]
fn event_fields_iter_works() {
    let expected_fields: Vec<(bool, &str, &str)> = vec![
        (true, "field_1", "i32"),
        (false, "field_2", "u64"),
        (true, "field_3", "[u8; 32]"),
    ];
    let event_def = InkEventDefinition::try_from_struct(event_struct(
        vec![ink(&[AttributeArgKind::Event])],
        vec![
            field("field_1", "i32", vec![ink(&[AttributeArgKind::Topic])]),
            field("field_2", "u64", vec![]),
            field("field_3", "[u8; 32]", vec![ink(&[AttributeArgKind::Topic])]),
        ],
    ))
    .unwrap();
    let variants = event_def.variants();
    let fields = variants[0].fields();
    let mut fields_iter = fields.into_iter();
    for (is_topic, ident, ty) in expected_fields {
        let field = fields_iter.next().unwrap();
        assert_eq!(field.is_topic, is_topic);
        assert_eq!(field.ident(), Some(&ident.to_string()));
        assert_eq!(field.ty(), &ty.to_string());
    }
}

#[test]
fn anonymous_event_works() {
    fn assert_anonymous_event(event: ItemStruct) {
        match InkEventDefinition::try_from_struct(event) {
            Ok(event) => {
                assert!(event.anonymous);
            }
            Err(_) => panic!("encountered unexpected invalid anonymous event"),
        }
    }
    assert_anonymous_event(my_event(vec![
        ink(&[AttributeArgKind::Event]),
        ink(&[AttributeArgKind::Anonymous]),
    ]));
    assert_anonymous_event(my_event(vec![ink(&[
        AttributeArgKind::Event,
        AttributeArgKind::Anonymous,
    ])]));
}

fn variant(name: &str, fields: Vec<Field>) -> Variant {
    Variant { attrs: Vec::new(), ident: name.to_string(), fields, span: span(300) }
}

fn event_enum(attrs: Vec<Attribute>, variants: Vec<Variant>) -> ItemEnum {
    ItemEnum {
        attrs,
        vis: Visibility::Public,
        ident: "MyEvents".to_string(),
        generics: Vec::new(),
        variants,
        span: span(10),
    }
}

fn topic_field(name: &str) -> Field {
    field(name, "u32", vec![ink(&[AttributeArgKind::Topic])])
}

#[test]
fn max_len_topics_is_the_largest_not_the_sum() {
    let item = event_enum(
        vec![ink(&[AttributeArgKind::Event])],
        vec![
            variant("A", vec![topic_field("a"), field("b", "bool", vec![])]),
            variant("B", vec![field("c", "bool", vec![])]),
            variant("C", vec![topic_field("d"), topic_field("e")]),
        ],
    );
    let def = InkEventDefinition::try_from(item).unwrap();
    assert_eq!(def.max_len_topics(), 2);
}

#[test]
fn max_len_topics_without_variants_or_topics_is_zero() {
    let def = InkEventDefinition::try_from(event_enum(vec![ink(&[AttributeArgKind::Event])], vec![]))
        .unwrap();
    assert_eq!(def.max_len_topics(), 0);
    let def = InkEventDefinition::try_from(event_enum(
        vec![ink(&[AttributeArgKind::Event])],
        vec![variant("A", vec![field("b", "bool", vec![])])],
    ))
    .unwrap();
    assert_eq!(def.max_len_topics(), 0);
}

#[test]
fn simple_struct_scenario() {
    let def = InkEventDefinition::try_from_struct(my_event(vec![ink(&[AttributeArgKind::Event])]))
        .unwrap();
    assert!(!def.anonymous);
    let variants = def.variants();
    assert_eq!(variants.len(), 1);
    assert_eq!(variants[0].ident(), "MyEvent");
    assert_eq!(variants[0].index(), 0);
    let fields = variants[0].fields();
    assert_eq!(fields.len(), 2);
    assert!(fields[0].is_topic);
    assert!(!fields[1].is_topic);
    assert_eq!(def.ident(), "MyEvent");
    assert_eq!(def.max_len_topics(), 1);
}

#[test]
fn storage_after_event_is_conflicting() {
    let err = InkEventDefinition::try_from_struct(my_event(vec![
        ink_at(100, &[AttributeArgKind::Event]),
        ink_at(200, &[AttributeArgKind::Storage]),
    ]))
    .unwrap_err();
    assert_eq!(err.kind, ErrorKind::ConflictingAnnotationArgument);
    assert_eq!(err.span, span(201));
}

#[test]
fn storage_before_event_is_wrong_first() {
    let err = InkEventDefinition::try_from_struct(my_event(vec![
        ink_at(100, &[AttributeArgKind::Storage]),
        ink_at(200, &[AttributeArgKind::Event]),
    ]))
    .unwrap_err();
    assert_eq!(err.kind, ErrorKind::UnexpectedFirstAttributeArgument);
    assert_eq!(err.span, span(101));
    assert_eq!(err.context, Some(span(10)));
}

#[test]
fn combined_and_separate_anonymous_agree() {
    let combined = InkEventDefinition::try_from_struct(my_event(vec![ink(&[
        AttributeArgKind::Event,
        AttributeArgKind::Anonymous,
    ])]))
    .unwrap();
    let separate = InkEventDefinition::try_from_struct(my_event(vec![
        ink(&[AttributeArgKind::Event]),
        ink(&[AttributeArgKind::Anonymous]),
    ]))
    .unwrap();
    assert!(combined.anonymous);
    assert_eq!(combined, separate);
}

#[test]
fn duplicate_reports_both_places() {
    let err = InkEventDefinition::try_from_struct(my_event(vec![
        ink_at(100, &[AttributeArgKind::Event]),
        ink_at(200, &[AttributeArgKind::Anonymous, AttributeArgKind::Event]),
    ]))
    .unwrap_err();
    assert_eq!(err.kind, ErrorKind::DuplicateAnnotation);
    assert_eq!(err.span, span(202));
    assert_eq!(err.first_seen, Some(span(101)));
    assert_eq!(err.context, Some(span(10)));
}

#[test]
fn generic_refused_only_after_attributes_pass() {
    let mut item = my_event(vec![ink(&[AttributeArgKind::Storage])]);
    item.generics = vec![GenericParam { name: "T".to_string(), span: span(20) }];
    let err = InkEventDefinition::try_from_struct(item).unwrap_err();
    assert_eq!(err.kind, ErrorKind::UnexpectedFirstAttributeArgument);

    let mut item = my_event(vec![ink(&[AttributeArgKind::Event])]);
    item.generics = vec![GenericParam { name: "T".to_string(), span: span(20) }];
    let err = InkEventDefinition::try_from_struct(item).unwrap_err();
    assert_eq!(err.kind, ErrorKind::GenericNotSupported);
    assert_eq!(err.span, span(20));
}

#[test]
fn restricted_visibility_is_refused_at_its_place() {
    let mut item = my_event(vec![ink(&[AttributeArgKind::Event])]);
    item.vis = Visibility::Restricted(span(5));
    let err = InkEventDefinition::try_from_struct(item).unwrap_err();
    assert_eq!(err.kind, ErrorKind::NonPublicNotSupported);
    assert_eq!(err.span, span(5));
    let mut item = my_event(vec![ink(&[AttributeArgKind::Event])]);
    item.vis = Visibility::Inherited;
    let err = InkEventDefinition::try_from_struct(item).unwrap_err();
    assert_eq!(err.span, span(10));
}

#[test]
fn field_error_in_later_variant_is_reported() {
    let bad = Field {
        span: span(700),
        ..field("x", "u8", vec![ink(&[AttributeArgKind::Payable])])
    };
    let item = event_enum(
        vec![ink(&[AttributeArgKind::Event])],
        vec![variant("A", vec![topic_field("a")]), variant("B", vec![bad])],
    );
    let err = InkEventDefinition::try_from(item).unwrap_err();
    assert_eq!(err.kind, ErrorKind::InvalidFirstFieldAttribute);
    assert_eq!(err.span, span(700));
}

#[test]
fn empty_ink_attribute_on_field_fails() {
    let item = event_struct(
        vec![ink(&[AttributeArgKind::Event])],
        vec![Field { span: span(600), ..field("a", "u8", vec![ink(&[])]) }],
    );
    let err = InkEventDefinition::try_from_struct(item).unwrap_err();
    assert_eq!(err.kind, ErrorKind::EmptyExpandedAttributes);
    assert_eq!(err.context, Some(span(600)));
}

#[test]
fn other_attributes_are_kept() {
    let def = InkEventDefinition::try_from_struct(event_struct(
        vec![other("doc"), ink(&[AttributeArgKind::Event]), other("derive")],
        vec![field("a", "u8", vec![other("allow"), ink(&[AttributeArgKind::Topic])])],
    ))
    .unwrap();
    assert_eq!(def.attrs(), &vec![other("doc"), other("derive")]);
    let variants = def.variants();
    let fields = variants[0].fields();
    assert_eq!(fields[0].attrs(), vec![&other("allow")]);
    assert_eq!(fields[0].span(), span(500));
    assert_eq!(fields[0].vis(), Visibility::Inherited);
    assert!(fields[0].is_topic);
}

#[test]
fn variants_carry_their_index() {
    let def = InkEventDefinition::try_from(event_enum(
        vec![ink(&[AttributeArgKind::Event])],
        vec![variant("A", vec![]), variant("B", vec![]), variant("C", vec![])],
    ))
    .unwrap();
    let names: Vec<(usize, String)> =
        def.variants().iter().map(|v| (v.index(), v.ident().clone())).collect();
    assert_eq!(
        names,
        vec![(0, "A".to_string()), (1, "B".to_string()), (2, "C".to_string())]
    );
}

#[test]
fn checking_twice_gives_the_same_outcome() {
    let ok = my_event(vec![ink(&[AttributeArgKind::Event])]);
    assert_eq!(
        InkEventDefinition::try_from_struct(ok.clone()),
        InkEventDefinition::try_from_struct(ok)
    );
    let bad = my_event(vec![ink(&[AttributeArgKind::Storage])]);
    assert_eq!(
        InkEventDefinition::try_from_struct(bad.clone()),
        InkEventDefinition::try_from_struct(bad)
    );
}

#[test]
fn new_checks_shape_and_fields() {
    let item = event_enum(vec![], vec![variant("A", vec![topic_field("a")])]);
    let def = InkEventDefinition::new(item, true).unwrap();
    assert!(def.anonymous);
    let item = event_enum(
        vec![],
        vec![variant(
            "A",
            vec![field(
                "a",
                "u8",
                vec![ink(&[AttributeArgKind::Topic, AttributeArgKind::Payable])],
            )],
        )],
    );
    let err = InkEventDefinition::new(item, false).unwrap_err();
    assert_eq!(err.kind, ErrorKind::ConflictingFieldAttribute);

    let mut item = event_enum(vec![], vec![]);
    item.generics = vec![GenericParam { name: "T".to_string(), span: span(20) }];
    item.vis = Visibility::Inherited;
    let err = InkEventDefinition::new(item, false).unwrap_err();
    assert_eq!(err.message(), "generic ink! event structs are not supported");
    assert_eq!(err.span, span(20));

    let mut item = event_enum(vec![], vec![]);
    item.vis = Visibility::Inherited;
    let err = InkEventDefinition::new(item, false).unwrap_err();
    assert_eq!(err.message(), "non `pub` ink! event structs are not supported");
    assert_eq!(err.span, span(10));
}

#[test]
fn topic_after_empty_ink_attribute_is_a_topic() {
    let def = InkEventDefinition::try_from_struct(event_struct(
        vec![ink(&[AttributeArgKind::Event])],
        vec![
            field("a", "u8", vec![ink(&[]), ink(&[AttributeArgKind::Topic])]),
            field("b", "u8", vec![other("doc")]),
        ],
    ))
    .unwrap();
    let variants = def.variants();
    let fields = variants[0].fields();
    assert!(fields[0].is_topic());
    assert!(!fields[1].is_topic());
    assert_eq!(def.max_len_topics(), 1);
}

#[test]
fn error_messages() {
    assert_eq!(
        ErrorKind::GenericNotSupported.message(),
        "generic ink! event structs are not supported"
    );
    assert_eq!(
        ErrorKind::ConflictingFieldAttribute.message(),
        "encountered conflicting ink! attribute for event field"
    );
}

#[test]
fn argument_kinds_by_name() {
    assert_eq!(
        AttributeArgKind::from_name(&"event".to_string()),
        Some(AttributeArgKind::Event)
    );
    assert_eq!(
        AttributeArgKind::from_name(&"anonymous".to_string()),
        Some(AttributeArgKind::Anonymous)
    );
    assert_eq!(
        AttributeArgKind::from_name(&"topic".to_string()),
        Some(AttributeArgKind::Topic)
    );
    assert_eq!(
        AttributeArgKind::from_name(&"impl".to_string()),
        Some(AttributeArgKind::Implementation)
    );
    assert_eq!(
        AttributeArgKind::from_name(&"handle_status".to_string()),
        Some(AttributeArgKind::HandleStatus)
    );
    assert_eq!(AttributeArgKind::from_name(&"events".to_string()), None);
    assert_eq!(AttributeArgKind::from_name(&String::new()), None);
}
