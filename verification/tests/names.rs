use substruct::naming::{
    create_accessor_name, create_requirement_name, join_field_trait_name, join_field_type_name,
    join_requirement_name,
};
use substruct::{
    create_field_trait_name, create_field_type_name, has_capability, has_field, knows_field,
    lookup_alias, lookup_field_type, meets_requirement, parse_substruct_child,
    parse_substruct_root_macro, parse_substruct_use, render, FieldDecl, FnDecl, Item, ItemKind,
    Member, Param, Path, Selection, TypeDecl,
};

fn s(text: &str) -> String {
    text.to_string()
}

fn query() -> TypeDecl {
    TypeDecl {
        ident: s("Query"),
        kind: ItemKind::Struct,
        fields: vec![
            FieldDecl { ident: Some(s("name")), ty: s("String") },
            FieldDecl { ident: Some(s("age")), ty: s("i32") },
            FieldDecl { ident: Some(s("home_town")), ty: s("Option<String>") },
        ],
    }
}

fn select(root: &str, fields: &[&str]) -> Selection {
    Selection {
        root: Path::from_ident(root),
        fields: fields.iter().map(|field| Path::from_ident(field)).collect(),
    }
}

fn empty(ident: &str) -> TypeDecl {
    TypeDecl { ident: s(ident), kind: ItemKind::Struct, fields: vec![] }
}

/// Whether `target` meets the requirement at the head of `adapted` among the
/// declarations in `scope`.
fn meets(scope: &Vec<Item>, target: &str, adapted: &[Item]) -> bool {
    match &adapted[0] {
        Item::Requirement { bounds, .. } => meets_requirement(scope, target, bounds),
        _ => panic!("Expected requirement"),
    }
}

fn get_name() -> FnDecl {
    FnDecl {
        ident: s("get_name"),
        inputs: vec![Param { pat: s("query"), ty: s("_") }],
        output: Some(s("String")),
        block: s("{ query.name().clone() }"),
    }
}

#[test]
fn capability_name_is_root_and_pascal_field() {
    assert_eq!(create_field_trait_name("Query", "name"), "__Query__Name");
    assert_eq!(create_field_trait_name("Query", "home_town"), "__Query__HomeTown");
    assert_eq!(create_field_trait_name("http_request", "bodyLength"), "__http_request__BodyLength");
}

#[test]
fn alias_name_is_capability_name_and_suffix() {
    assert_eq!(create_field_type_name("Query", "name"), "__Query__Name__Type");
    assert_eq!(create_field_type_name("Query", "home_town"), "__Query__HomeTown__Type");
}

#[test]
fn accessor_name_is_snake_field() {
    assert_eq!(create_accessor_name("name"), "name");
    assert_eq!(create_accessor_name("firstName"), "first_name");
    assert_eq!(create_accessor_name("HTTPRequest"), "http_request");
}

#[test]
fn requirement_name_is_pascal_function_and_suffix() {
    assert_eq!(create_requirement_name("get_name"), "GetNameInput");
    assert_eq!(create_requirement_name("print"), "PrintInput");
}

#[test]
fn names_are_derived_the_same_way_every_time() {
    for field in ["name", "home_town", "x1", "URL"] {
        assert_eq!(
            create_field_trait_name("Query", field),
            create_field_trait_name("Query", field)
        );
        assert_eq!(
            create_field_type_name("Query", field),
            format!("{}__Type", create_field_trait_name("Query", field))
        );
    }
}

#[test]
fn names_collide_where_pascal_forms_do() {
    assert_eq!(
        create_field_trait_name("Query", "home_town"),
        create_field_trait_name("Query", "homeTown")
    );
    assert_ne!(
        create_field_trait_name("Query", "home_town"),
        create_field_trait_name("Query", "hometown")
    );
    assert_ne!(
        create_field_trait_name("Query", "name"),
        create_field_trait_name("Other", "name")
    );
}

#[test]
fn lookup_finds_the_first_alias_of_a_name() {
    let scope = vec![
        Item::Capability { name: s("A"), method: s("a"), ty: s("u8") },
        Item::Alias { name: s("A"), ty: s("u8") },
        Item::Alias { name: s("B"), ty: s("u16") },
        Item::Alias { name: s("A"), ty: s("u32") },
    ];
    assert_eq!(lookup_alias(&scope, "A"), Some(s("u8")));
    assert_eq!(lookup_alias(&scope, "B"), Some(s("u16")));
    assert_eq!(lookup_alias(&scope, "C"), None);
    assert_eq!(lookup_alias(&[].to_vec(), "A"), None);
}

#[test]
fn lookup_goes_by_the_alias_of_the_field() {
    let scope = parse_substruct_root_macro(&query()).unwrap();
    assert_eq!(lookup_field_type(&scope, "Query", "name"), Some(s("String")));
    assert_eq!(lookup_field_type(&scope, "Query", "age"), Some(s("i32")));
    assert_eq!(lookup_field_type(&scope, "Query", "home_town"), Some(s("Option<String>")));
    assert_eq!(lookup_field_type(&scope, "Query", "email"), None);
    assert_eq!(lookup_field_type(&scope, "Other", "name"), None);
    // the capability's own name is no alias
    assert_eq!(lookup_alias(&scope, "__Query__Name"), None);
}

#[test]
fn child_members_resolve_to_the_types_of_the_root() {
    let scope = parse_substruct_root_macro(&query()).unwrap();
    let child =
        parse_substruct_child(&scope, &select("Query", &["home_town", "name"]), &empty("Part"))
            .unwrap();
    let members = match &child[0] {
        Item::Struct { members, .. } => members.clone(),
        _ => panic!("Expected struct"),
    };
    assert_eq!(
        members,
        vec![
            Member { ident: s("home_town"), ty: s("__Query__HomeTown__Type") },
            Member { ident: s("name"), ty: s("__Query__Name__Type") },
        ]
    );
    let types: Vec<Option<String>> =
        members.iter().map(|member| lookup_alias(&scope, &member.ty)).collect();
    assert_eq!(types, vec![Some(s("Option<String>")), Some(s("String"))]);
}

#[test]
fn fields_are_found_by_root_and_declared_name() {
    let scope = parse_substruct_root_macro(&query()).unwrap();
    assert!(has_field(&scope, "Query", "name"));
    assert!(has_field(&scope, "Query", "home_town"));
    assert!(!has_field(&scope, "Query", "homeTown"));
    assert!(!has_field(&scope, "Query", "HomeTown"));
    assert!(!has_field(&scope, "Query", "email"));
    assert!(!has_field(&scope, "Other", "name"));
    assert!(!has_field(&vec![], "Query", "name"));
    // the alias goes by the form in Pascal case, the field by its own name
    assert_eq!(lookup_field_type(&scope, "Query", "homeTown"), Some(s("Option<String>")));
    assert!(knows_field(&scope, "Query", "home_town"));
    assert!(!knows_field(&scope, "Query", "homeTown"));
    assert!(!knows_field(&scope, "Query", "email"));
    assert!(!knows_field(&scope, "Other", "name"));
    assert!(!knows_field(&vec![], "Query", "name"));
}

#[test]
fn field_is_not_known_without_its_alias_or_without_its_accessor() {
    let accessor = Item::Accessor {
        capability: s("__Query__Name"),
        target: s("Query"),
        method: s("name"),
        ty: s("String"),
        field: s("name"),
    };
    let alias = Item::Alias { name: s("__Query__Name__Type"), ty: s("String") };
    assert!(has_field(&vec![accessor.clone()], "Query", "name"));
    assert!(!knows_field(&vec![accessor.clone()], "Query", "name"));
    assert!(!has_field(&vec![alias.clone()], "Query", "name"));
    assert!(!knows_field(&vec![alias.clone()], "Query", "name"));
    assert!(knows_field(&vec![alias, accessor], "Query", "name"));
}

#[test]
fn names_are_joined_from_the_converted_text() {
    assert_eq!(join_field_trait_name("Query", "Name"), "__Query__Name");
    assert_eq!(join_field_trait_name("", ""), "____");
    assert_eq!(join_field_trait_name("a_b", "not converted"), "__a_b__not converted");
    assert_eq!(join_field_type_name("Query", "Name"), "__Query__Name__Type");
    assert_eq!(join_field_type_name("", ""), "______Type");
    assert_eq!(join_requirement_name("GetName"), "GetNameInput");
    assert_eq!(join_requirement_name(""), "Input");
}

#[test]
fn capabilities_are_found_by_type_and_name() {
    let scope = parse_substruct_root_macro(&query()).unwrap();
    assert!(has_capability(&scope, "Query", "__Query__Name"));
    assert!(has_capability(&scope, "Query", "__Query__HomeTown"));
    assert!(!has_capability(&scope, "Query", "__Query__Email"));
    assert!(!has_capability(&scope, "Part", "__Query__Name"));
    assert!(!has_capability(&scope, "Query", "__Query__Name__Type"));
    assert!(!has_capability(&vec![], "Query", "__Query__Name"));
    assert!(meets_requirement(&scope, "Query", &vec![]));
    assert!(meets_requirement(&vec![], "Query", &vec![]));
    assert!(!meets_requirement(&vec![], "Query", &vec![s("__Query__Name")]));
}

#[test]
fn root_meets_the_requirement_of_its_fields() {
    let scope = parse_substruct_root_macro(&query()).unwrap();
    let adapted = parse_substruct_use(&select("Query", &["name", "age"]), &get_name()).unwrap();
    assert!(meets(&scope, "Query", &adapted));
    let adapted = parse_substruct_use(&select("Query", &["name", "email"]), &get_name()).unwrap();
    assert!(!meets(&scope, "Query", &adapted));
}

#[test]
fn child_meets_the_requirement_of_fields_it_has() {
    let scope = parse_substruct_root_macro(&query()).unwrap();
    let child =
        parse_substruct_child(&scope, &select("Query", &["name", "age"]), &empty("Part")).unwrap();
    let adapted = parse_substruct_use(&select("Query", &["age"]), &get_name()).unwrap();
    assert!(meets(&child, "Part", &adapted));
    assert!(!meets(&child, "Query", &adapted));
    let adapted = parse_substruct_use(&select("Query", &["home_town"]), &get_name()).unwrap();
    assert!(!meets(&child, "Part", &adapted));
    let adapted = parse_substruct_use(&select("Other", &["age"]), &get_name()).unwrap();
    assert!(!meets(&child, "Part", &adapted));
}

#[test]
fn hand_written_type_meets_the_requirement_by_its_capabilities() {
    let scope = vec![Item::Accessor {
        capability: s("__Query__Name"),
        target: s("Guest"),
        method: s("name"),
        ty: s("String"),
        field: s("label"),
    }];
    let adapted = parse_substruct_use(&select("Query", &["name"]), &get_name()).unwrap();
    assert!(meets(&scope, "Guest", &adapted));
}

#[test]
fn every_declaration_has_its_text() {
    let bounds = vec![s("A"), s("B"), s("C")];
    let items = vec![
        Item::Capability { name: s("Cap"), method: s("get"), ty: s("u8") },
        Item::Accessor {
            capability: s("Cap"),
            target: s("S"),
            method: s("get"),
            ty: s("u8"),
            field: s("f"),
        },
        Item::Alias { name: s("Ty"), ty: s("u8") },
        Item::Struct {
            name: s("S"),
            members: vec![Member { ident: s("f"), ty: s("Ty") }, Member { ident: s("g"), ty: s("u8") }],
        },
        Item::Requirement { name: s("Req"), bounds: bounds.clone() },
        Item::Blanket { requirement: s("Req"), bounds },
        Item::Function {
            name: s("run"),
            param: s("it"),
            requirement: s("Req"),
            output: Some(s("u8")),
            block: s("{ *it.get() }"),
        },
        Item::Function {
            name: s("idle"),
            param: s("_"),
            requirement: s("Req"),
            output: None,
            block: s("{}"),
        },
    ];
    let lines = [
        "trait Cap { fn get(&self) -> & u8; }\n",
        "impl Cap for S { fn get(&self) -> & u8 { &self.f } }\n",
        "type Ty = u8;\n",
        "struct S { f: Ty, g: u8, }\n",
        "trait Req: A + B + C {}\n",
        "impl<T: A + B + C> Req for T {}\n",
        "fn run(it: impl Req) -> u8 { *it.get() }\n",
        "fn idle(_: impl Req) {}\n",
    ];
    for (item, line) in items.iter().zip(lines) {
        assert_eq!(render(&vec![item.clone()]), line);
    }
    assert_eq!(render(&items), lines.concat());
    assert_eq!(render(&vec![]), "");
    assert_eq!(
        render(&vec![Item::Requirement { name: s("One"), bounds: vec![s("A")] }]),
        "trait One: A {}\n"
    );
}
