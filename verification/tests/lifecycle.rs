use egelm::lifecycle::{
    derive_children, extract_first_matching_generic_type, extract_generic_type, generate_action_code, inspect_type, Action,
    DeriveError, DeriveTarget, FieldDef, GenericArgument, LifecycleWrapper, PathArguments, PathSegment, StructFields, TypeExpr,
};

fn convert(ty: &syn::Type) -> TypeExpr {
    match ty {
        syn::Type::Path(p) => TypeExpr::Path(
            p.path
                .segments
                .iter()
                .map(|s| PathSegment {
                    ident: s.ident.to_string(),
                    arguments: match &s.arguments {
                        syn::PathArguments::None => PathArguments::Empty,
                        syn::PathArguments::AngleBracketed(a) => PathArguments::AngleBracketed(
                            a.args
                                .iter()
                                .map(|g| match g {
                                    syn::GenericArgument::Type(t) => GenericArgument::Type(convert(t)),
                                    _ => GenericArgument::Other,
                                })
                                .collect(),
                        ),
                        syn::PathArguments::Parenthesized(_) => PathArguments::Parenthesized,
                    },
                })
                .collect(),
        ),
        syn::Type::Reference(r) => TypeExpr::Reference { mutable: r.mutability.is_some(), elem: Box::new(convert(&r.elem)) },
        syn::Type::Slice(s) => TypeExpr::Slice(Box::new(convert(&s.elem))),
        syn::Type::Array(a) => TypeExpr::Array(Box::new(convert(&a.elem))),
        syn::Type::Paren(p) => TypeExpr::Paren(Box::new(convert(&p.elem))),
        syn::Type::Group(g) => TypeExpr::Group(Box::new(convert(&g.elem))),
        _ => TypeExpr::Other,
    }
}

fn parse_type(source: &str) -> TypeExpr {
    convert(&syn::parse_str::<syn::Type>(source).unwrap())
}

fn field(name: &str, ty: &str) -> FieldDef {
    FieldDef { name: Some(name.to_owned()), ty: parse_type(ty) }
}

#[test]
fn recognizes_managed_widget_types() {
    assert_eq!(inspect_type(&parse_type("Managed<Child>")), Some(LifecycleWrapper::Direct));
    assert_eq!(inspect_type(&parse_type("egelm::window::Managed<Child>")), Some(LifecycleWrapper::Direct));
}

#[test]
fn recognizes_option_managed_types() {
    assert_eq!(
        inspect_type(&parse_type("Option<Managed<Child>>")),
        Some(LifecycleWrapper::Option(Box::new(LifecycleWrapper::Direct)))
    );
    assert_eq!(
        inspect_type(&parse_type("std::option::Option<egelm::window::Managed<Child>>")),
        Some(LifecycleWrapper::Option(Box::new(LifecycleWrapper::Direct)))
    );
}

#[test]
fn recognizes_vec_and_collection_types() {
    assert_eq!(
        inspect_type(&parse_type("Vec<Managed<Child>>")),
        Some(LifecycleWrapper::Sequence(Box::new(LifecycleWrapper::Direct)))
    );
    assert_eq!(
        inspect_type(&parse_type("std::collections::HashMap<String, Managed<Child>>")),
        Some(LifecycleWrapper::MapValues(Box::new(LifecycleWrapper::Direct)))
    );
    assert_eq!(
        inspect_type(&parse_type("BTreeMap<u32, Managed<Child>>")),
        Some(LifecycleWrapper::MapValues(Box::new(LifecycleWrapper::Direct)))
    );
    assert_eq!(
        inspect_type(&parse_type("[Managed<Child>; 4]")),
        Some(LifecycleWrapper::Sequence(Box::new(LifecycleWrapper::Direct)))
    );
}

#[test]
fn recognizes_reference_types() {
    assert_eq!(
        inspect_type(&parse_type("&'a mut Managed<Child>")),
        Some(LifecycleWrapper::DerefMut(Box::new(LifecycleWrapper::Direct)))
    );
    assert_eq!(inspect_type(&parse_type("&'a Managed<Child>")), Some(LifecycleWrapper::ImmutableRef));
    assert_eq!(
        inspect_type(&parse_type("&'a mut [Managed<Child>]")),
        Some(LifecycleWrapper::DerefMut(Box::new(LifecycleWrapper::Sequence(Box::new(LifecycleWrapper::Direct)))))
    );
    assert_eq!(inspect_type(&parse_type("&'a [Managed<Child>]")), Some(LifecycleWrapper::ImmutableRef));
    assert_eq!(inspect_type(&parse_type("&'a Option<Managed<Child>>")), Some(LifecycleWrapper::ImmutableRef));
    assert_eq!(
        inspect_type(&parse_type("&'a mut Option<Managed<Child>>")),
        Some(LifecycleWrapper::DerefMut(Box::new(LifecycleWrapper::Option(Box::new(LifecycleWrapper::Direct)))))
    );
}

#[test]
fn recognizes_nested_combinations() {
    assert_eq!(
        inspect_type(&parse_type("Option<Vec<Managed<Child>>>")),
        Some(LifecycleWrapper::Option(Box::new(LifecycleWrapper::Sequence(Box::new(LifecycleWrapper::Direct)))))
    );
    assert_eq!(
        inspect_type(&parse_type("HashMap<String, Option<Managed<Child>>>")),
        Some(LifecycleWrapper::MapValues(Box::new(LifecycleWrapper::Option(Box::new(LifecycleWrapper::Direct)))))
    );
    assert_eq!(
        inspect_type(&parse_type("Box<Managed<Child>>")),
        Some(LifecycleWrapper::DerefMut(Box::new(LifecycleWrapper::Direct)))
    );
}

#[test]
fn rejects_non_managed_and_malformed_types() {
    assert_eq!(inspect_type(&parse_type("Child")), None);
    assert_eq!(inspect_type(&parse_type("String")), None);
    assert_eq!(inspect_type(&parse_type("Option<String>")), None);
    assert_eq!(inspect_type(&parse_type("Vec<u32>")), None);
    assert_eq!(inspect_type(&parse_type("HashMap<String, i32>")), None);
    assert_eq!(inspect_type(&parse_type("Managed<'static>")), None);
    assert_eq!(inspect_type(&parse_type("&str")), None);
}

#[test]
fn maps_with_one_type_argument_use_it_for_values() {
    assert_eq!(
        inspect_type(&parse_type("HashMap<Managed<Child>>")),
        Some(LifecycleWrapper::MapValues(Box::new(LifecycleWrapper::Direct)))
    );
    assert_eq!(inspect_type(&parse_type("HashMap<u8>")), None);
    assert_eq!(inspect_type(&parse_type("HashMap")), None);
    assert_eq!(
        inspect_type(&parse_type("(VecDeque<LinkedList<Managed<C>>>)")),
        Some(LifecycleWrapper::Sequence(Box::new(LifecycleWrapper::Sequence(Box::new(LifecycleWrapper::Direct)))))
    );
}

#[test]
fn generic_arguments_are_found_by_type_position() {
    let args = match parse_type("HashMap<'a, String, Managed<Child>>") {
        TypeExpr::Path(mut segs) => segs.pop().unwrap().arguments,
        _ => unreachable!(),
    };
    assert!(matches!(extract_generic_type(&args, 0), Some(TypeExpr::Path(s)) if s[0].ident == "String"));
    assert!(matches!(extract_generic_type(&args, 1), Some(TypeExpr::Path(s)) if s[0].ident == "Managed"));
    assert!(extract_generic_type(&args, 2).is_none());
    assert!(matches!(extract_first_matching_generic_type(&args), Some(TypeExpr::Path(s)) if s[0].ident == "Managed"));
    assert!(extract_first_matching_generic_type(&PathArguments::Empty).is_none());
}

#[test]
fn action_code_walks_each_wrapper() {
    let direct = LifecycleWrapper::Direct;
    assert_eq!(generate_action_code(&direct, "self.child", Action::Init, 0).as_deref(), Some("self.child.init();"));
    let option = LifecycleWrapper::Option(Box::new(LifecycleWrapper::Direct));
    assert_eq!(
        generate_action_code(&option, "self.child", Action::Shutdown, 0).as_deref(),
        Some("if let Some(_child_0) = (self.child).as_mut() { _child_0.shutdown(); }")
    );
    let nested = LifecycleWrapper::MapValues(Box::new(LifecycleWrapper::Sequence(Box::new(LifecycleWrapper::Direct))));
    assert_eq!(
        generate_action_code(&nested, "self.all", Action::Tick, 3).as_deref(),
        Some("for _child_3 in (self.all).values_mut() { for _child_4 in (_child_3).iter_mut() { _child_4.update_route_error(); } }")
    );
    let boxed = LifecycleWrapper::DerefMut(Box::new(LifecycleWrapper::Direct));
    assert_eq!(generate_action_code(&boxed, "self.b", Action::Init, 0).as_deref(), Some("(self.b).init();"));
    assert_eq!(generate_action_code(&LifecycleWrapper::ImmutableRef, "self.r", Action::Init, 0), None);
    assert_eq!(Action::Tick.method_ident(), "update_route_error");
}

#[test]
fn derive_writes_the_three_lifecycle_methods() {
    let target = DeriveTarget::Struct(StructFields::Named(vec![
        field("single", "Managed<Child>"),
        field("count", "u32"),
        field("shared", "&'a Managed<Child>"),
        field("optional", "Option<Managed<Child>>"),
    ]));
    assert_eq!(
        derive_children(&target).unwrap(),
        "fn tick_children_auto(&mut self) { self.single.update_route_error(); \
         if let Some(_child_0) = (self.optional).as_mut() { _child_0.update_route_error(); } } \
         fn init_children_auto(&mut self) { self.single.init(); \
         if let Some(_child_0) = (self.optional).as_mut() { _child_0.init(); } } \
         fn shutdown_children_auto(&mut self) { self.single.shutdown(); \
         if let Some(_child_0) = (self.optional).as_mut() { _child_0.shutdown(); } }"
    );
}

#[test]
fn derive_gives_tuple_structs_empty_hooks_and_refuses_enums() {
    assert_eq!(derive_children(&DeriveTarget::Struct(StructFields::Unnamed)).unwrap(), "fn tick_children_auto(&mut self) { } fn init_children_auto(&mut self) { } fn shutdown_children_auto(&mut self) { }");
    assert_eq!(derive_children(&DeriveTarget::Struct(StructFields::Unit)).unwrap(), "fn tick_children_auto(&mut self) { } fn init_children_auto(&mut self) { } fn shutdown_children_auto(&mut self) { }");
    assert_eq!(
        derive_children(&DeriveTarget::Struct(StructFields::Named(vec![]))).unwrap(),
        "fn tick_children_auto(&mut self) { } fn init_children_auto(&mut self) { } fn shutdown_children_auto(&mut self) { }"
    );
    let err = derive_children(&DeriveTarget::Enum).unwrap_err();
    assert_eq!(err, DeriveError::NotAStruct);
    assert_eq!(err.message(), "`Widget` can only be derived on structs");
    assert!(derive_children(&DeriveTarget::Union).is_err());
}
