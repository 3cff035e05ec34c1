use modx::{classify, declaration_text, parse_args, plan, props, resource, store, wants_default};
use modx::{Declaration, Field, MacroError, Role};

fn field(vis: &str, name: &str, ty: &str) -> Field {
    Field { attrs: vec![], vis: vis.to_string(), name: name.to_string(), ty: ty.to_string() }
}

fn decl(name: &str, fields: Vec<Field>) -> Declaration {
    Declaration {
        attrs: vec![],
        vis: String::new(),
        name: name.to_string(),
        generics: String::new(),
        fields,
        is_struct: true,
    }
}

fn tokens(ts: &[&str]) -> Vec<String> {
    ts.iter().map(|t| t.to_string()).collect()
}

#[test]
fn plain_field_defaults_to_zero() {
    let d = decl("S", vec![field("", "count", "i64")]);
    let text = store(&d).unwrap();
    let expected = "#[derive(Copy, Clone, PartialEq)]\n\
struct S {\n    count: Signal<i64>,\n}\n\
impl S {\n    pub fn count(&self) -> i64 {\n        self.count.read().clone()\n    }\n}\n\
impl S {\n    pub fn new() -> S {\n        let mut default_struct = S {\n            count: use_signal(|| i64::default()),\n        };\n        default_struct\n    }\n}\n";
    assert_eq!(text, expected);
}

#[test]
fn props_field_comes_from_constructor() {
    let d = decl("S", vec![field("", "name", "String"), field("", "age", "u8")]);
    let tagged = props(&tokens(&["age"]), &d).unwrap();
    assert_eq!(tagged.fields[1].name, "_modx_reserved_props_age");
    assert_eq!(tagged.fields[0].name, "name");
    let text = store(&tagged).unwrap();
    assert!(text.contains("struct SProps {\n    age: u8,\n}\n"));
    assert!(text.contains("pub fn new(props: SProps) -> S {"));
    assert!(text.contains("            age: use_signal(|| props.age),\n"));
    assert!(text.contains("            name: use_signal(|| String::default()),\n"));
    assert!(text.contains("    age: Signal<u8>,\n"));
    assert!(text.contains("pub fn age(&self) -> u8 {\n        self.age.read().clone()"));
    assert!(text.contains("pub fn name(&self) -> String {"));
}

#[test]
fn resource_field_is_wired_to_its_method() {
    let d = decl("S", vec![field("", "data", "Result<T, E>")]);
    let tagged = resource(&tokens(&["data"]), &d).unwrap();
    let e = plan(&tagged).unwrap();
    assert_eq!(e.cells[0].role, Role::Resource);
    assert_eq!(e.cells[0].name, "data");
    assert!(e.props_name.is_none());
    let text = store(&tagged).unwrap();
    assert!(text.contains("    data: Resource<Result<T, E>>,\n"));
    assert!(text.contains(
        "            data: use_resource(move || async move { unsafe { std::mem::zeroed() } }),\n"
    ));
    assert!(text.contains(
        "        default_struct.data = use_resource(move || async move { default_struct.data().await });\n"
    ));
    assert!(!text.contains("pub fn data(&self)"));
    assert!(text.contains("pub fn new() -> S {"));
}

#[test]
fn untagged_fields_are_all_signals() {
    let d = decl("T", vec![field("pub", "a", "u8"), field("", "b", "Vec<u8>"), field("", "c", "bool")]);
    let e = plan(&d).unwrap();
    assert_eq!(e.cells.len(), 3);
    for c in &e.cells {
        assert_eq!(c.role, Role::Signal);
    }
    assert!(e.props_name.is_none());
    let text = store(&d).unwrap();
    assert!(text.contains("    pub a: Signal<u8>,\n"));
    assert!(text.contains("            b: use_signal(|| Vec::<u8>::default()),\n"));
}

#[test]
fn both_tagging_passes_stack_in_either_order() {
    let d = decl("M", vec![field("", "price", "usize"), field("", "url", "String"), field("", "n", "u8")]);
    let a = store(&props(&tokens(&["price"]), &resource(&tokens(&["url"]), &d).unwrap()).unwrap()).unwrap();
    let b = store(&resource(&tokens(&["url"]), &props(&tokens(&["price"]), &d).unwrap()).unwrap()).unwrap();
    assert_eq!(a, b);
    assert!(a.contains("    url: Resource<String>,\n"));
    assert!(a.contains("struct MProps {\n    price: usize,\n}\n"));
}

#[test]
fn tagging_keeps_attributes_in_order() {
    let mut d = decl("S", vec![field("", "x", "u8")]);
    d.attrs = vec!["#[modx::store]".to_string(), "#[doc = \"a store\"]".to_string()];
    d.vis = "pub".to_string();
    let tagged = props(&tokens(&["x", ","]), &d).unwrap();
    assert_eq!(tagged.attrs, d.attrs);
    let text = declaration_text(&tagged);
    assert_eq!(
        text,
        "#[modx::store]\n#[doc = \"a store\"]\npub struct S {\n    _modx_reserved_props_x: u8,\n}\n"
    );
}

#[test]
fn props_struct_has_declaration_visibility() {
    let mut d = decl("P", vec![field("pub", "x", "u8")]);
    d.vis = "pub".to_string();
    let text = store(&props(&tokens(&["x"]), &d).unwrap()).unwrap();
    assert!(text.contains("#[derive(Debug)]\npub struct PProps {\n    pub x: u8,\n}\n"));
    assert!(text.contains("#[derive(Copy, Clone, PartialEq)]\npub struct P {\n    pub x: Signal<u8>,\n}\n"));
}

#[test]
fn accessor_is_independent_of_other_fields() {
    let one = store(&decl("S", vec![field("", "x", "u8")])).unwrap();
    let many = store(&decl("S", vec![field("", "y", "i32"), field("", "x", "u8"), field("", "z", "bool")])).unwrap();
    let acc = "impl S {\n    pub fn x(&self) -> u8 {\n        self.x.read().clone()\n    }\n}\n";
    assert!(one.contains(acc));
    assert!(many.contains(acc));
}

#[test]
fn unmatched_argument_is_ignored() {
    let d = decl("S", vec![field("", "x", "u8")]);
    let tagged = resource(&tokens(&["nothere"]), &d).unwrap();
    assert_eq!(tagged.fields[0].name, "x");
}

#[test]
fn arguments_are_deduplicated_in_order() {
    let names = parse_args(&tokens(&["b", ",", "a", ",", "b", ","])).unwrap();
    assert_eq!(names, vec!["b".to_string(), "a".to_string()]);
    assert!(parse_args(&tokens(&[])).unwrap().is_empty());
}

#[test]
fn malformed_arguments_are_refused() {
    assert!(matches!(parse_args(&tokens(&[","])), Err(MacroError::BadArguments)));
    assert!(matches!(parse_args(&tokens(&["a", "b"])), Err(MacroError::BadArguments)));
    assert!(matches!(parse_args(&tokens(&["a", ",", ","])), Err(MacroError::BadArguments)));
    assert!(matches!(parse_args(&tokens(&["struct"])), Err(MacroError::BadArguments)));
    assert!(matches!(parse_args(&tokens(&["1"])), Err(MacroError::BadArguments)));
    let d = decl("S", vec![field("", "x", "u8")]);
    assert!(matches!(props(&tokens(&["x", "x"]), &d), Err(MacroError::BadArguments)));
}

#[test]
fn non_struct_is_refused() {
    let mut d = decl("E", vec![]);
    d.is_struct = false;
    assert!(matches!(store(&d), Err(MacroError::NotAStruct)));
    assert!(matches!(resource(&tokens(&["x"]), &d), Err(MacroError::NotAStruct)));
    assert!(matches!(props(&tokens(&[]), &d), Err(MacroError::NotAStruct)));
    assert_eq!(MacroError::NotAStruct.message(), "Only structs are supported for this macro");
}

#[test]
fn unlexable_attribute_is_refused() {
    let mut d = decl("S", vec![field("", "x", "u8")]);
    d.attrs = vec!["#[ok]".to_string(), "#[doc = \"open".to_string(), "#[(]".to_string()];
    match resource(&tokens(&["x"]), &d) {
        Err(MacroError::BadAttribute(a)) => assert_eq!(a, "#[doc = \"open"),
        other => panic!("unexpected: {:?}", other),
    }
}

#[test]
fn unparsable_type_is_refused() {
    let d = decl("S", vec![field("", "ok", "u8"), field("", "x", "Vec<")]);
    match store(&d) {
        Err(MacroError::BadType(t)) => assert_eq!(t, "Signal<Vec<>"),
        other => panic!("unexpected: {:?}", other),
    }
    let e = MacroError::BadType("Signal<Vec<>".to_string());
    assert_eq!(e.message(), "not a valid type: Signal<Vec<>");
}

#[test]
fn markers_are_read_and_stripped() {
    assert_eq!(classify("_modx_reserved_resource_url"), (Role::Resource, "url".to_string()));
    assert_eq!(classify("_modx_reserved_props_age"), (Role::Props, "age".to_string()));
    assert_eq!(classify("_modx_reserved_other"), (Role::Signal, "_modx_reserved_other".to_string()));
    assert_eq!(classify("plain"), (Role::Signal, "plain".to_string()));
}

#[test]
fn generic_types_get_turbofish_in_defaults() {
    let d = decl("S", vec![field("", "m", "HashMap<String, Vec<u8>>")]);
    let text = store(&d).unwrap();
    assert!(text.contains("use_signal(|| HashMap::<String, Vec::<u8>>::default())"));
    assert!(text.contains("    m: Signal<HashMap<String, Vec<u8>>>,\n"));
}

#[test]
fn store_keeps_declaration_attributes() {
    let mut d = decl("S", vec![field("", "x", "u8")]);
    d.attrs = vec!["#[a]".to_string(), "#[doc = \"store\"]".to_string()];
    let text = store(&d).unwrap();
    assert!(text.starts_with("#[a]\n#[doc = \"store\"]\n#[derive(Copy, Clone, PartialEq)]\nstruct S {\n"));
}

#[test]
fn field_attributes_survive_both_passes() {
    let mut d = decl("S", vec![field("", "x", "u8"), field("pub", "y", "String")]);
    d.fields[0].attrs = vec!["#[doc = \"the x\"]".to_string()];
    d.fields[1].attrs = vec!["#[a]".to_string(), "#[b]".to_string()];
    let tagged = props(&tokens(&["y"]), &d).unwrap();
    assert_eq!(tagged.fields[1].attrs, d.fields[1].attrs);
    assert_eq!(
        declaration_text(&tagged),
        "struct S {\n    #[doc = \"the x\"]\n    x: u8,\n    #[a]\n    #[b]\n    pub _modx_reserved_props_y: String,\n}\n"
    );
    let text = store(&tagged).unwrap();
    assert!(text.contains("    #[doc = \"the x\"]\n    x: Signal<u8>,\n    #[a]\n    #[b]\n    pub y: Signal<String>,\n"));
    assert!(text.contains("struct SProps {\n    y: String,\n}\n"));
}

#[test]
fn tagging_keeps_generics() {
    let mut d = decl("W", vec![field("", "v", "T")]);
    d.generics = "<T: Clone> where T: Default".to_string();
    let tagged = resource(&tokens(&["v"]), &d).unwrap();
    assert_eq!(tagged.generics, d.generics);
    assert_eq!(
        declaration_text(&tagged),
        "struct W<T: Clone> where T: Default {\n    _modx_reserved_resource_v: T,\n}\n"
    );
}

#[test]
fn default_is_requested_by_name() {
    assert!(wants_default(&tokens(&["default"])));
    assert!(wants_default(&tokens(&["x", "default"])));
    assert!(!wants_default(&tokens(&["Default", "x"])));
    assert!(!wants_default(&tokens(&[])));
}

#[test]
fn empty_argument_list_changes_nothing() {
    let mut d = decl("S", vec![field("pub", "x", "u8")]);
    d.attrs = vec!["#[a]".to_string()];
    let tagged = resource(&tokens(&[]), &d).unwrap();
    assert_eq!(declaration_text(&tagged), declaration_text(&d));
    assert_eq!(tagged.fields[0].name, "x");
    d.attrs = vec!["#[(]".to_string()];
    match props(&tokens(&[]), &d) {
        Err(MacroError::BadAttribute(a)) => assert_eq!(a, "#[(]"),
        other => panic!("unexpected: {:?}", other),
    }
}
