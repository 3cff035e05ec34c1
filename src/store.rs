use vstd::prelude::*;
use crate::model::{copy_texts, texts, DeclModel, Declaration, Failure, FieldModel, MacroError, Role};
use crate::tagging::{PROPS_MARKER, RESOURCE_MARKER};
use crate::text::{drop_chars, is_type, join, parses_as_type, starts_with, turbofish, turbofish_of};

verus! {

/// The role a field name announces: a marker prefix, or none for a plain signal.
pub open spec fn role_of(name: Seq<char>) -> Role {
    if RESOURCE_MARKER@.is_prefix_of(name) {
        Role::Resource
    } else if PROPS_MARKER@.is_prefix_of(name) {
        Role::Props
    } else {
        Role::Signal
    }
}

/// The field name with its marker, if any, removed.
pub open spec fn base_name(name: Seq<char>) -> Seq<char> {
    match role_of(name) {
        Role::Resource => name.skip(RESOURCE_MARKER@.len() as int),
        Role::Props => name.skip(PROPS_MARKER@.len() as int),
        Role::Signal => name,
    }
}

/// The type of the cell that holds a value of type `ty` in the given role.
pub open spec fn cell_type(role: Role, ty: Seq<char>) -> Seq<char> {
    match role {
        Role::Resource => "Resource<"@ + ty + ">"@,
        _ => "Signal<"@ + ty + ">"@,
    }
}

/// A field of the generated store.
pub struct Cell {
    /// The attributes written above the field.
    pub attrs: Vec<String>,
    pub vis: String,
    /// The field's name, without any marker.
    pub name: String,
    pub role: Role,
    /// The type of the value the cell holds.
    pub ty: String,
}

/// A cell as the contracts see it.
pub struct CellModel {
    pub attrs: Seq<Seq<char>>,
    pub vis: Seq<char>,
    pub name: Seq<char>,
    pub role: Role,
    pub ty: Seq<char>,
}

impl View for Cell {
    type V = CellModel;

    open spec fn view(&self) -> CellModel {
        CellModel { attrs: texts(self.attrs@), vis: self.vis@, name: self.name@, role: self.role, ty: self.ty@ }
    }
}

/// Everything the consuming pass generates for one declaration.
pub struct Expansion {
    /// The attributes written above the declaration, kept above the store.
    pub attrs: Vec<String>,
    pub vis: String,
    pub name: String,
    pub cells: Vec<Cell>,
    /// The name of the generated construction structure, when some field is a prop.
    pub props_name: Option<String>,
}

/// A planned store as the contracts see it.
pub struct ExpansionModel {
    pub attrs: Seq<Seq<char>>,
    pub vis: Seq<char>,
    pub name: Seq<char>,
    pub cells: Seq<CellModel>,
    pub props_name: Option<Seq<char>>,
}

impl View for Expansion {
    type V = ExpansionModel;

    open spec fn view(&self) -> ExpansionModel {
        ExpansionModel {
            attrs: texts(self.attrs@),
            vis: self.vis@,
            name: self.name@,
            cells: self.cells@.map_values(|c: Cell| c@),
            props_name: match self.props_name {
                Some(p) => Some(p@),
                None => None,
            },
        }
    }
}

/// The cell that a declared field becomes.
pub open spec fn cell_of(f: FieldModel) -> CellModel {
    CellModel { attrs: f.attrs, vis: f.vis, name: base_name(f.name), role: role_of(f.name), ty: f.ty }
}

/// The cell a field becomes when roles are read from markers, or a plain signal
/// under the field's own name when they are not.
pub open spec fn cell_with(f: FieldModel, by_marker: bool) -> CellModel {
    if by_marker {
        cell_of(f)
    } else {
        CellModel { attrs: f.attrs, vis: f.vis, name: f.name, role: Role::Signal, ty: f.ty }
    }
}

/// Whether some cell is a prop.
pub open spec fn has_props(cs: Seq<CellModel>) -> bool {
    exists|i: int| 0 <= i < cs.len() && (#[trigger] cs[i]).role == Role::Props
}

/// The name of the construction structure of the store `name`.
pub open spec fn props_struct_name(name: Seq<char>) -> Seq<char> {
    name + "Props"@
}

/// The store generated for a declaration, with roles read from markers or every
/// field a signal.
pub open spec fn expansion_of(d: DeclModel, by_marker: bool) -> ExpansionModel {
    let cells = d.fields.map_values(|f: FieldModel| cell_with(f, by_marker));
    ExpansionModel {
        attrs: d.attrs,
        vis: d.vis,
        name: d.name,
        cells,
        props_name: if has_props(cells) {
            Some(props_struct_name(d.name))
        } else {
            None
        },
    }
}

/// Whether both rewritten types of a field parse: its cell type, and its type
/// in expression position.
pub open spec fn field_types_parse(f: FieldModel, by_marker: bool) -> bool {
    &&& parses_as_type(cell_type(cell_with(f, by_marker).role, f.ty))
    &&& parses_as_type(turbofish_of(f.ty))
}

/// Whether every rewritten type of the store parses.
pub open spec fn types_parse(d: DeclModel, by_marker: bool) -> bool {
    &&& forall|i: int| 0 <= i < d.fields.len() ==> field_types_parse(#[trigger] d.fields[i], by_marker)
    &&& expansion_of(d, by_marker).props_name is Some ==> parses_as_type(props_struct_name(d.name))
}

/// Whether `t` is one of the rewritten types that are checked for a declaration,
/// every one checked before it having parsed. Each field's cell type is checked,
/// then its type in expression position; the construction structure's name last.
pub open spec fn checked_text(d: DeclModel, by_marker: bool, t: Seq<char>) -> bool {
    ||| exists|i: int|
        0 <= i < d.fields.len() && (forall|j: int| 0 <= j < i ==> field_types_parse(#[trigger] d.fields[j], by_marker))
            && (t == cell_type(cell_with(#[trigger] d.fields[i], by_marker).role, d.fields[i].ty)
            || (parses_as_type(cell_type(cell_with(d.fields[i], by_marker).role, d.fields[i].ty)) && t
            == turbofish_of(d.fields[i].ty)))
    ||| {
        &&& forall|j: int| 0 <= j < d.fields.len() ==> field_types_parse(#[trigger] d.fields[j], by_marker)
        &&& expansion_of(d, by_marker).props_name is Some
        &&& t == props_struct_name(d.name)
    }
}

/// Whether `f` is an error that planning may give for a declaration: a
/// declaration that is not a structure, or a rewritten type that the parser
/// refused.
pub open spec fn plan_error(d: DeclModel, by_marker: bool, f: Failure) -> bool {
    match f {
        Failure::NotAStruct => !d.is_struct,
        Failure::BadType(t) => d.is_struct && checked_text(d, by_marker, t),
        _ => false,
    }
}

/// The role a field name announces, and the name without its marker.
pub fn classify(name: &str) -> (r: (Role, String))
    ensures
        r.0 == role_of(name@),
        r.1@ == base_name(name@),
{
    if starts_with(name, RESOURCE_MARKER) {
        let k = RESOURCE_MARKER.unicode_len();
        (Role::Resource, drop_chars(name, k))
    } else if starts_with(name, PROPS_MARKER) {
        let k = PROPS_MARKER.unicode_len();
        (Role::Props, drop_chars(name, k))
    } else {
        (Role::Signal, String::from_str(name))
    }
}

/// The type of the cell that holds a value of type `ty` in the given role.
pub fn cell_type_text(role: Role, ty: &str) -> (r: String)
    ensures
        r@ == cell_type(role, ty@),
{
    match role {
        Role::Resource => join("Resource<", ty).concat(">"),
        _ => join("Signal<", ty).concat(">"),
    }
}

/// Classifies every field, checks that each rewritten type parses, and settles
/// whether a construction structure is needed.
pub fn plan(decl: &Declaration) -> (r: Result<Expansion, MacroError>)
    ensures
        !decl@.is_struct ==> r matches Err(MacroError::NotAStruct),
        r matches Ok(e) ==> e@ == expansion_of(decl@, true) && types_parse(decl@, true),
        r matches Err(e) ==> plan_error(decl@, true, e@),
{
    plan_by(decl, true)
}

/// Builds the cells of a declaration, with roles read from markers or every field
/// a signal, and checks that each rewritten type parses.
pub fn plan_by(decl: &Declaration, by_marker: bool) -> (r: Result<Expansion, MacroError>)
    ensures
        !decl@.is_struct ==> r matches Err(MacroError::NotAStruct),
        r matches Ok(e) ==> e@ == expansion_of(decl@, by_marker) && types_parse(decl@, by_marker),
        r matches Err(e) ==> plan_error(decl@, by_marker, e@),
{
    if !decl.is_struct {
        return Err(MacroError::NotAStruct);
    }
    let ghost d = decl@;
    let ghost fs = decl@.fields;
    let ghost want = fs.map_values(|f: FieldModel| cell_with(f, by_marker));
    let mut cells: Vec<Cell> = Vec::new();
    let mut any_props = false;
    let mut i: usize = 0;
    while i < decl.fields.len()
        invariant
            i <= decl.fields.len(),
            decl.is_struct,
            d == decl@,
            fs == decl@.fields,
            want == fs.map_values(|f: FieldModel| cell_with(f, by_marker)),
            forall|j: int| 0 <= j < i ==> field_types_parse(#[trigger] fs[j], by_marker),
            cells@.len() == i,
            forall|j: int| 0 <= j < i ==> #[trigger] cells@[j]@ == want[j],
            any_props == exists|j: int| 0 <= j < i && want[j].role == Role::Props,
        decreases decl.fields.len() - i,
    {
        let f = &decl.fields[i];
        assert(fs[i as int] == f@);
        let (role, name) = if by_marker {
            classify(f.name.as_str())
        } else {
            (Role::Signal, String::from_str(f.name.as_str()))
        };
        let wrapped = cell_type_text(role, f.ty.as_str());
        if !is_type(wrapped.as_str()) {
            assert(checked_text(d, by_marker, wrapped@)) by {
                assert(0 <= i < d.fields.len() && (forall|j: int|
                    0 <= j < i ==> field_types_parse(#[trigger] d.fields[j], by_marker)) && wrapped@
                    == cell_type(cell_with(d.fields[i as int], by_marker).role, d.fields[i as int].ty));
            }
            return Err(MacroError::BadType(wrapped));
        }
        let expr_ty = turbofish(f.ty.as_str());
        if !is_type(expr_ty.as_str()) {
            assert(checked_text(d, by_marker, expr_ty@)) by {
                assert(0 <= i < d.fields.len() && (forall|j: int|
                    0 <= j < i ==> field_types_parse(#[trigger] d.fields[j], by_marker))
                    && parses_as_type(cell_type(cell_with(d.fields[i as int], by_marker).role, d.fields[i as int].ty))
                    && expr_ty@ == turbofish_of(d.fields[i as int].ty));
            }
            return Err(MacroError::BadType(expr_ty));
        }
        assert(want[i as int] == cell_with(f@, by_marker));
        let ghost was = any_props;
        if role == Role::Props {
            any_props = true;
        }
        assert(any_props == exists|j: int| 0 <= j < i + 1 && want[j].role == Role::Props) by {
            if was {
                let j = choose|j: int| 0 <= j < i && want[j].role == Role::Props;
                assert(0 <= j < i + 1 && want[j].role == Role::Props);
            }
            if role == Role::Props {
                assert(want[i as int].role == Role::Props);
            }
        }
        cells.push(
            Cell {
                attrs: copy_texts(&f.attrs),
                vis: String::from_str(f.vis.as_str()),
                name,
                role,
                ty: String::from_str(f.ty.as_str()),
            },
        );
        i = i + 1;
    }
    let ghost got = cells@.map_values(|c: Cell| c@);
    assert(got =~= want);
    assert(any_props == has_props(want)) by {
        if any_props {
            let j = choose|j: int| 0 <= j < i && want[j].role == Role::Props;
            assert(want[j].role == Role::Props);
        }
    }
    let props_name = if any_props {
        let p = join(decl.name.as_str(), "Props");
        if !is_type(p.as_str()) {
            return Err(MacroError::BadType(p));
        }
        Some(p)
    } else {
        None
    };
    Ok(
        Expansion {
            attrs: copy_texts(&decl.attrs),
            vis: String::from_str(decl.vis.as_str()),
            name: String::from_str(decl.name.as_str()),
            cells,
            props_name,
        },
    )
}

} // verus!

verus! {

/// Rewrites a declaration into a reactive store: the declaration's attributes,
/// the structure with each field in its cell and copy, clone and equality derived,
/// a read accessor per signal and prop, the construction structure when some
/// field is a prop, and the constructor.
pub fn store(decl: &Declaration) -> (r: Result<String, MacroError>)
    ensures
        !decl@.is_struct ==> r matches Err(MacroError::NotAStruct),
        r matches Ok(t) ==> t@ == crate::emit::expansion_text(expansion_of(decl@, true)) && types_parse(
            decl@,
            true,
        ),
        r matches Err(e) ==> plan_error(decl@, true, e@),
{
    match plan(decl) {
        Ok(e) => Ok(crate::emit::render(&e)),
        Err(e) => Err(e),
    }
}

/// The single-pass variant: every field becomes a signal under its own name,
/// markers are not read, and the constructor takes each cell already built.
/// With `with_default`, a `Default` implementation fills every cell from its
/// type's default value.
pub fn modx(decl: &Declaration, with_default: bool) -> (r: Result<String, MacroError>)
    ensures
        !decl@.is_struct ==> r matches Err(MacroError::NotAStruct),
        r matches Ok(t) ==> t@ == crate::emit::single_pass_text(expansion_of(decl@, false), with_default)
            && types_parse(decl@, false),
        r matches Err(e) ==> plan_error(decl@, false, e@),
{
    match plan_by(decl, false) {
        Ok(e) => Ok(crate::emit::render_single_pass(&e, with_default)),
        Err(e) => Err(e),
    }
}

} // verus!
