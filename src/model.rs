use vstd::prelude::*;

verus! {

/// The character sequences of a list of strings.
pub open spec fn texts(v: Seq<String>) -> Seq<Seq<char>> {
    v.map_values(|s: String| s@)
}

/// A copy of each text.
pub fn copy_texts(v: &Vec<String>) -> (r: Vec<String>)
    ensures
        texts(r@) == texts(v@),
{
    let mut r: Vec<String> = Vec::new();
    let mut i: usize = 0;
    while i < v.len()
        invariant
            i <= v.len(),
            r@.len() == i,
            forall|j: int| 0 <= j < i ==> #[trigger] r@[j]@ == v@[j]@,
        decreases v.len() - i,
    {
        r.push(String::from_str(v[i].as_str()));
        i = i + 1;
    }
    assert(texts(r@) =~= texts(v@));
    r
}

/// The part a field plays in a reactive store.
#[derive(PartialEq, Eq, Structural, Clone, Copy, Debug)]
pub enum Role {
    /// A cell that starts from the field type's default value.
    Signal,
    /// A cell filled by an asynchronous method of the store.
    Resource,
    /// A cell that starts from a value handed to the constructor.
    Props,
}

/// One named field of a structure declaration, as source text.
#[derive(Debug)]
pub struct Field {
    /// The attributes written above the field, each as its own source text.
    pub attrs: Vec<String>,
    /// The field's visibility (`pub`, `pub(crate)`, or empty).
    pub vis: String,
    pub name: String,
    /// The field's type, as printed source text.
    pub ty: String,
}

/// A structure declaration, as the passes see it.
#[derive(Debug)]
pub struct Declaration {
    /// The attributes written above the declaration, each as its own source text.
    pub attrs: Vec<String>,
    pub vis: String,
    pub name: String,
    /// The generic parameters and where clause, as source text; empty when there are none.
    pub generics: String,
    pub fields: Vec<Field>,
    /// False when the item is an enumeration, a union, or a structure without named fields.
    pub is_struct: bool,
}

/// A field as the contracts see it: its texts as character sequences.
pub struct FieldModel {
    pub attrs: Seq<Seq<char>>,
    pub vis: Seq<char>,
    pub name: Seq<char>,
    pub ty: Seq<char>,
}

/// A declaration as the contracts see it.
pub struct DeclModel {
    pub attrs: Seq<Seq<char>>,
    pub vis: Seq<char>,
    pub name: Seq<char>,
    pub generics: Seq<char>,
    pub fields: Seq<FieldModel>,
    pub is_struct: bool,
}

impl View for Field {
    type V = FieldModel;

    open spec fn view(&self) -> FieldModel {
        FieldModel { attrs: texts(self.attrs@), vis: self.vis@, name: self.name@, ty: self.ty@ }
    }
}

impl View for Declaration {
    type V = DeclModel;

    open spec fn view(&self) -> DeclModel {
        DeclModel {
            attrs: texts(self.attrs@),
            vis: self.vis@,
            name: self.name@,
            generics: self.generics@,
            fields: self.fields@.map_values(|f: Field| f@),
            is_struct: self.is_struct,
        }
    }
}

/// Why a pass produced no output for a declaration.
#[derive(Debug)]
pub enum MacroError {
    /// The annotated item is not a structure with named fields.
    NotAStruct,
    /// The directive's argument list has a comma out of place, or a token that
    /// was refused as an identifier.
    BadArguments,
    /// The lexer refused an attribute above the declaration; carries its text.
    BadAttribute(String),
    /// The parser refused a rewritten type; carries its text.
    BadType(String),
}

/// An error as the contracts see it.
pub enum Failure {
    NotAStruct,
    BadArguments,
    BadAttribute(Seq<char>),
    BadType(Seq<char>),
}

impl View for MacroError {
    type V = Failure;

    open spec fn view(&self) -> Failure {
        match self {
            MacroError::NotAStruct => Failure::NotAStruct,
            MacroError::BadArguments => Failure::BadArguments,
            MacroError::BadAttribute(a) => Failure::BadAttribute(a@),
            MacroError::BadType(t) => Failure::BadType(t@),
        }
    }
}

impl MacroError {
    /// The diagnostic message a compiler shows for this error.
    pub fn message(&self) -> (r: String)
        ensures
            r@ == match self@ {
                Failure::NotAStruct => "Only structs are supported for this macro"@,
                Failure::BadArguments => "expected a comma-separated list of identifiers"@,
                Failure::BadAttribute(a) => "A bad proc_macro_attr was found: "@ + a,
                Failure::BadType(t) => "not a valid type: "@ + t,
            },
    {
        match self {
            MacroError::NotAStruct => String::from_str("Only structs are supported for this macro"),
            MacroError::BadArguments => String::from_str("expected a comma-separated list of identifiers"),
            MacroError::BadAttribute(a) => String::from_str("A bad proc_macro_attr was found: ").concat(a.as_str()),
            MacroError::BadType(t) => String::from_str("not a valid type: ").concat(t.as_str()),
        }
    }
}

} // verus!
