use modx::{modx, Declaration, Field, MacroError};

fn decl(fields: Vec<(&str, &str)>) -> Declaration {
    Declaration {
        attrs: vec![],
        vis: "pub".to_string(),
        name: "Legacy".to_string(),
        generics: String::new(),
        fields: fields
            .into_iter()
            .map(|(n, t)| Field {
                attrs: vec![],
                vis: String::new(),
                name: n.to_string(),
                ty: t.to_string(),
            })
            .collect(),
        is_struct: true,
    }
}

#[test]
fn single_pass_wraps_every_field_and_takes_cells() {
    let text = modx(&decl(vec![("a", "u8"), ("b", "Vec<u8>")]), false).unwrap();
    let expected = "#[derive(Copy, Clone, PartialEq)]\n\
pub struct Legacy {\n    a: Signal<u8>,\n    b: Signal<Vec<u8>>,\n}\n\
impl Legacy {\n    pub fn a(&self) -> u8 {\n        self.a.read().clone()\n    }\n}\n\
impl Legacy {\n    pub fn b(&self) -> Vec<u8> {\n        self.b.read().clone()\n    }\n}\n\
impl Legacy {\n    pub fn new(a: Signal<u8>, b: Signal<Vec<u8>>, ) -> Legacy {\n        Legacy {\n            a,\n            b,\n        }\n    }\n}\n";
    assert_eq!(text, expected);
}

#[test]
fn single_pass_default_fills_from_type_defaults() {
    let text = modx(&decl(vec![("a", "u8"), ("b", "Vec<u8>")]), true).unwrap();
    assert!(text.ends_with(
        "impl Default for Legacy {\n    fn default() -> Self {\n        Legacy {\n            a: use_signal(|| u8::default()),\n            b: use_signal(|| Vec::<u8>::default()),\n        }\n    }\n}\n"
    ));
}

#[test]
fn single_pass_ignores_markers() {
    let text = modx(&decl(vec![("_modx_reserved_props_x", "u8")]), false).unwrap();
    assert!(text.contains("    _modx_reserved_props_x: Signal<u8>,\n"));
    assert!(!text.contains("LegacyProps"));
}

#[test]
fn single_pass_refuses_non_struct_and_bad_type() {
    let mut d = decl(vec![]);
    d.is_struct = false;
    assert!(matches!(modx(&d, true), Err(MacroError::NotAStruct)));
    match modx(&decl(vec![("x", "u8 u8")]), false) {
        Err(MacroError::BadType(t)) => assert_eq!(t, "Signal<u8 u8>"),
        other => panic!("unexpected: {:?}", other),
    }
}
