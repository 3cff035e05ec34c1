use vstd::prelude::*;
use crate::args::{commas_in_place, contains_name, dedup, idents_of, parse_args, well_formed_args};
use crate::model::{copy_texts, texts, DeclModel, Declaration, Failure, Field, FieldModel, MacroError};
use crate::text::{join, lexes, lexes_as_tokens};

verus! {

/// The marker that a field name carries once it is to be filled asynchronously.
pub const RESOURCE_MARKER: &'static str = "_modx_reserved_resource_";

/// The marker that a field name carries once it is to be supplied to the constructor.
pub const PROPS_MARKER: &'static str = "_modx_reserved_props_";

/// A field renamed with `marker` when the names list it.
pub open spec fn tag_field(f: FieldModel, names: Seq<Seq<char>>, marker: Seq<char>) -> FieldModel {
    if names.contains(f.name) {
        FieldModel { attrs: f.attrs, vis: f.vis, name: marker + f.name, ty: f.ty }
    } else {
        f
    }
}

/// The declaration with each field that the names list renamed with `marker`.
pub open spec fn tag_decl(d: DeclModel, names: Seq<Seq<char>>, marker: Seq<char>) -> DeclModel {
    DeclModel {
        attrs: d.attrs,
        vis: d.vis,
        name: d.name,
        generics: d.generics,
        fields: d.fields.map_values(|f: FieldModel| tag_field(f, names, marker)),
        is_struct: d.is_struct,
    }
}

/// Whether every attribute lexes.
pub open spec fn all_lex(attrs: Seq<Seq<char>>) -> bool {
    forall|i: int| 0 <= i < attrs.len() ==> lexes_as_tokens(#[trigger] attrs[i])
}

/// Whether `a` is an attribute that the lexer may have refused, all those before it
/// having been accepted.
pub open spec fn first_refused(attrs: Seq<Seq<char>>, a: Seq<char>) -> bool {
    exists|k: int|
        0 <= k < attrs.len() && attrs[k] == a && forall|j: int| 0 <= j < k ==> lexes_as_tokens(#[trigger] attrs[j])
}

/// What a tagging pass with `marker` may give for argument tokens `ts` and a
/// declaration `d`. On success: the declaration with each field that the list names
/// renamed. A list whose commas are out of place is refused first; a declaration
/// that is not a structure is refused before its attributes are lexed.
pub open spec fn tag_outcome(
    ts: Seq<Seq<char>>,
    d: DeclModel,
    marker: Seq<char>,
    r: Result<DeclModel, Failure>,
) -> bool {
    &&& !commas_in_place(ts) ==> r == Err::<DeclModel, Failure>(Failure::BadArguments)
    &&& match r {
        Ok(t) => {
            &&& well_formed_args(ts)
            &&& d.is_struct
            &&& all_lex(d.attrs)
            &&& t == tag_decl(d, dedup(idents_of(ts)), marker)
        },
        Err(Failure::BadArguments) => ts.len() > 0,
        Err(Failure::NotAStruct) => well_formed_args(ts) && !d.is_struct,
        Err(Failure::BadAttribute(a)) => well_formed_args(ts) && d.is_struct && first_refused(d.attrs, a),
        Err(Failure::BadType(_)) => false,
    }
}

/// The model of a tagging result.
pub open spec fn decl_result(r: Result<Declaration, MacroError>) -> Result<DeclModel, Failure> {
    match r {
        Ok(d) => Ok(d@),
        Err(e) => Err(e@),
    }
}

/// The first attribute that the lexer refuses, if any.
fn find_bad_attr(attrs: &Vec<String>) -> (r: Option<String>)
    ensures
        match r {
            Some(a) => first_refused(texts(attrs@), a@),
            None => all_lex(texts(attrs@)),
        },
{
    let ghost all = texts(attrs@);
    let mut i: usize = 0;
    while i < attrs.len()
        invariant
            i <= attrs.len(),
            all == texts(attrs@),
            forall|j: int| 0 <= j < i ==> lexes_as_tokens(#[trigger] all[j]),
        decreases attrs.len() - i,
    {
        if !lexes(attrs[i].as_str()) {
            let a = String::from_str(attrs[i].as_str());
            assert(all[i as int] == a@);
            assert(first_refused(all, a@)) by {
                assert(0 <= i < all.len() && all[i as int] == a@ && forall|j: int|
                    0 <= j < i ==> lexes_as_tokens(#[trigger] all[j]));
            }
            return Some(a);
        }
        i = i + 1;
    }
    None
}

/// A copy of a field, renamed with `marker` when `names` lists it.
fn tag_one(f: &Field, names: &Vec<String>, marker: &str) -> (r: Field)
    ensures
        r@ == tag_field(f@, texts(names@), marker@),
{
    let name = if contains_name(names, f.name.as_str()) {
        join(marker, f.name.as_str())
    } else {
        String::from_str(f.name.as_str())
    };
    Field {
        attrs: copy_texts(&f.attrs),
        vis: String::from_str(f.vis.as_str()),
        name,
        ty: String::from_str(f.ty.as_str()),
    }
}

/// The declaration with each field that `names` lists renamed with `marker`.
fn tag_fields(decl: &Declaration, names: &Vec<String>, marker: &str) -> (r: Declaration)
    ensures
        r@ == tag_decl(decl@, texts(names@), marker@),
{
    let ghost ns = texts(names@);
    let mut fields: Vec<Field> = Vec::new();
    let mut i: usize = 0;
    while i < decl.fields.len()
        invariant
            i <= decl.fields.len(),
            ns == texts(names@),
            fields@.len() == i,
            forall|j: int|
                0 <= j < i ==> #[trigger] fields@[j]@ == tag_field(decl@.fields[j], ns, marker@),
        decreases decl.fields.len() - i,
    {
        fields.push(tag_one(&decl.fields[i], names, marker));
        i = i + 1;
    }
    let r = Declaration {
        attrs: copy_texts(&decl.attrs),
        vis: String::from_str(decl.vis.as_str()),
        name: String::from_str(decl.name.as_str()),
        generics: String::from_str(decl.generics.as_str()),
        fields,
        is_struct: decl.is_struct,
    };
    assert(r@.fields =~= tag_decl(decl@, ns, marker@).fields);
    r
}

/// Parses the argument list, then marks the fields it names with `marker`.
fn tag_pass_exec(args: &Vec<String>, decl: &Declaration, marker: &str) -> (r: Result<Declaration, MacroError>)
    ensures
        tag_outcome(texts(args@), decl@, marker@, decl_result(r)),
{
    let names = match parse_args(args) {
        Ok(names) => names,
        Err(e) => {
            return Err(e);
        },
    };
    if !decl.is_struct {
        return Err(MacroError::NotAStruct);
    }
    match find_bad_attr(&decl.attrs) {
        Some(a) => Err(MacroError::BadAttribute(a)),
        None => Ok(tag_fields(decl, &names, marker)),
    }
}

/// Marks the fields that the argument list names as filled by an asynchronous
/// method of the store. Everything else about the declaration, its attributes
/// and generics and each field's attributes included, is kept as it is.
pub fn resource(args: &Vec<String>, decl: &Declaration) -> (r: Result<Declaration, MacroError>)
    ensures
        tag_outcome(texts(args@), decl@, RESOURCE_MARKER@, decl_result(r)),
{
    tag_pass_exec(args, decl, RESOURCE_MARKER)
}

/// Marks the fields that the argument list names as supplied to the constructor.
/// Everything else about the declaration, its attributes and generics and each
/// field's attributes included, is kept as it is.
pub fn props(args: &Vec<String>, decl: &Declaration) -> (r: Result<Declaration, MacroError>)
    ensures
        tag_outcome(texts(args@), decl@, PROPS_MARKER@, decl_result(r)),
{
    tag_pass_exec(args, decl, PROPS_MARKER)
}

} // verus!
