use vstd::prelude::*;
use crate::model::{texts, DeclModel, Declaration, FieldModel, Role};
use crate::store::{cell_type, cell_type_text, Cell, CellModel, Expansion, ExpansionModel};
use crate::text::{turbofish, turbofish_of};

verus! {

/// The kinds of text generated once per field.
#[derive(PartialEq, Eq, Structural, Clone, Copy)]
pub enum Piece {
    /// The field's line in the rewritten structure.
    Field,
    /// The read accessor, for signals and props.
    Accessor,
    /// The field's line in the construction structure, for props.
    PropsField,
    /// The field's initializer in the constructor.
    Init,
    /// The reassignment that wires a resource to its method, after construction.
    Rewire,
    /// The cell's parameter of the single-pass constructor.
    Param,
    /// The cell's line in the single-pass constructor's structure literal.
    Move,
}

/// A visibility followed by a space, or nothing when there is none.
pub open spec fn vis_text(v: Seq<char>) -> Seq<char> {
    if v.len() == 0 {
        Seq::empty()
    } else {
        v + " "@
    }
}

/// Each text on its own line, after `indent`.
pub open spec fn lines_text(s: Seq<Seq<char>>, indent: Seq<char>) -> Seq<char> {
    s.map_values(|a: Seq<char>| indent + a + "\n"@).flatten_alt()
}

/// The expression that first fills a cell in the constructor.
pub open spec fn init_expr(c: CellModel) -> Seq<char> {
    match c.role {
        Role::Signal => "use_signal(|| "@ + turbofish_of(c.ty) + "::default())"@,
        Role::Props => "use_signal(|| props."@ + c.name + ")"@,
        Role::Resource => "use_resource(move || async move { unsafe { std::mem::zeroed() } })"@,
    }
}

/// The text of one kind generated for one cell of the store `store`.
pub open spec fn piece_text(kind: Piece, store: Seq<char>, vis: Seq<char>, c: CellModel) -> Seq<char> {
    match kind {
        Piece::Field => lines_text(c.attrs, "    "@) + "    "@ + vis_text(c.vis) + c.name + ": "@ + cell_type(c.role, c.ty) + ",\n"@,
        Piece::Accessor => if c.role == Role::Resource {
            Seq::empty()
        } else {
            "impl "@ + store + " {\n    pub fn "@ + c.name + "(&self) -> "@ + c.ty
                + " {\n        self."@ + c.name + ".read().clone()\n    }\n}\n"@
        },
        Piece::PropsField => if c.role == Role::Props {
            "    "@ + vis_text(vis) + c.name + ": "@ + c.ty + ",\n"@
        } else {
            Seq::empty()
        },
        Piece::Init => "            "@ + c.name + ": "@ + init_expr(c) + ",\n"@,
        Piece::Rewire => if c.role == Role::Resource {
            "        default_struct."@ + c.name + " = use_resource(move || async move { default_struct."@
                + c.name + "().await });\n"@
        } else {
            Seq::empty()
        },
        Piece::Param => c.name + ": "@ + cell_type(c.role, c.ty) + ", "@,
        Piece::Move => "            "@ + c.name + ",\n"@,
    }
}

/// The text of one kind for every cell, in order.
pub open spec fn pieces_text(kind: Piece, store: Seq<char>, vis: Seq<char>, cs: Seq<CellModel>) -> Seq<char> {
    cs.map_values(|c: CellModel| piece_text(kind, store, vis, c)).flatten_alt()
}

/// The rewritten structure: every field held in its cell.
pub open spec fn struct_text(e: ExpansionModel) -> Seq<char> {
    lines_text(e.attrs, ""@) + "#[derive(Copy, Clone, PartialEq)]\n"@ + vis_text(e.vis) + "struct "@ + e.name + " {\n"@ + pieces_text(
        Piece::Field,
        e.name,
        e.vis,
        e.cells,
    ) + "}\n"@
}

/// The construction structure, when some field is a prop.
pub open spec fn props_struct_text(e: ExpansionModel) -> Seq<char> {
    match e.props_name {
        Some(p) => "#[derive(Debug)]\n"@ + vis_text(e.vis) + "struct "@ + p + " {\n"@ + pieces_text(
            Piece::PropsField,
            e.name,
            e.vis,
            e.cells,
        ) + "}\n"@,
        None => Seq::empty(),
    }
}

/// The constructor's parameter list.
pub open spec fn params_text(e: ExpansionModel) -> Seq<char> {
    match e.props_name {
        Some(p) => "props: "@ + p,
        None => Seq::empty(),
    }
}

/// The constructor: fills every cell, then wires each resource to its method.
pub open spec fn ctor_text(e: ExpansionModel) -> Seq<char> {
    "impl "@ + e.name + " {\n    pub fn new("@ + params_text(e) + ") -> "@ + e.name
        + " {\n        let mut default_struct = "@ + e.name + " {\n"@ + pieces_text(
        Piece::Init,
        e.name,
        e.vis,
        e.cells,
    ) + "        };\n"@ + pieces_text(Piece::Rewire, e.name, e.vis, e.cells)
        + "        default_struct\n    }\n}\n"@
}

/// All the source text the consuming pass generates.
pub open spec fn expansion_text(e: ExpansionModel) -> Seq<char> {
    struct_text(e) + pieces_text(Piece::Accessor, e.name, e.vis, e.cells) + props_struct_text(e)
        + ctor_text(e)
}

/// The single-pass constructor, which takes every cell already built.
pub open spec fn wrapped_ctor_text(e: ExpansionModel) -> Seq<char> {
    "impl "@ + e.name + " {\n    pub fn new("@ + pieces_text(Piece::Param, e.name, e.vis, e.cells)
        + ") -> "@ + e.name + " {\n        "@ + e.name + " {\n"@ + pieces_text(
        Piece::Move,
        e.name,
        e.vis,
        e.cells,
    ) + "        }\n    }\n}\n"@
}

/// The `Default` implementation that fills every cell from its type's default.
pub open spec fn default_impl_text(e: ExpansionModel) -> Seq<char> {
    "impl Default for "@ + e.name + " {\n    fn default() -> Self {\n        "@ + e.name + " {\n"@
        + pieces_text(Piece::Init, e.name, e.vis, e.cells) + "        }\n    }\n}\n"@
}

/// All the source text the single-pass variant generates.
pub open spec fn single_pass_text(e: ExpansionModel, with_default: bool) -> Seq<char> {
    struct_text(e) + pieces_text(Piece::Accessor, e.name, e.vis, e.cells) + wrapped_ctor_text(e) + if with_default {
        default_impl_text(e)
    } else {
        Seq::empty()
    }
}

/// One field of a declaration, as a line of source.
pub open spec fn field_text(f: FieldModel) -> Seq<char> {
    lines_text(f.attrs, "    "@) + "    "@ + vis_text(f.vis) + f.name + ": "@ + f.ty + ",\n"@
}

/// A declaration as source text: its attributes, each on a line, then the structure.
pub open spec fn decl_text(d: DeclModel) -> Seq<char> {
    lines_text(d.attrs, ""@) + vis_text(d.vis) + "struct "@ + d.name + d.generics + " {\n"@ + d.fields.map_values(|f: FieldModel| field_text(f)).flatten_alt()
        + "}\n"@
}

/// Flattening one more element appends it.
pub proof fn lemma_flatten_take(s: Seq<Seq<char>>, i: int)
    requires
        0 <= i < s.len(),
    ensures
        s.take(i + 1).flatten_alt() == s.take(i).flatten_alt() + s[i],
{
    assert(s.take(i + 1).drop_last() =~= s.take(i));
}

/// Each text on its own line, after `indent`.
pub fn lines_exec(v: &Vec<String>, indent: &str) -> (r: String)
    ensures
        r@ == lines_text(texts(v@), indent@),
{
    let ghost ls = texts(v@).map_values(|a: Seq<char>| indent@ + a + "\n"@);
    let mut r = String::new();
    let mut i: usize = 0;
    while i < v.len()
        invariant
            i <= v.len(),
            ls == texts(v@).map_values(|a: Seq<char>| indent@ + a + "\n"@),
            r@ == ls.take(i as int).flatten_alt(),
        decreases v.len() - i,
    {
        proof {
            lemma_flatten_take(ls, i as int);
        }
        r.append(indent);
        r.append(v[i].as_str());
        r.append("\n");
        i = i + 1;
    }
    assert(ls.take(i as int) =~= ls);
    r
}

/// A visibility followed by a space, or nothing when there is none.
fn vis_exec(v: &str) -> (r: String)
    ensures
        r@ == vis_text(v@),
{
    if v.unicode_len() == 0 {
        String::new()
    } else {
        String::from_str(v).concat(" ")
    }
}

/// The expression that first fills a cell in the constructor.
pub fn init_expr_exec(c: &Cell) -> (r: String)
    ensures
        r@ == init_expr(c@),
{
    match c.role {
        Role::Signal => String::from_str("use_signal(|| ").concat(turbofish(c.ty.as_str()).as_str()).concat(
            "::default())",
        ),
        Role::Props => String::from_str("use_signal(|| props.").concat(c.name.as_str()).concat(")"),
        Role::Resource => String::from_str(
            "use_resource(move || async move { unsafe { std::mem::zeroed() } })",
        ),
    }
}

/// The text of one kind generated for one cell of the store `store`.
pub fn piece_exec(kind: Piece, store: &str, vis: &str, c: &Cell) -> (r: String)
    ensures
        r@ == piece_text(kind, store@, vis@, c@),
{
    match kind {
        Piece::Field => lines_exec(&c.attrs, "    ").concat("    ").concat(vis_exec(c.vis.as_str()).as_str()).concat(
            c.name.as_str(),
        ).concat(": ").concat(cell_type_text(c.role, c.ty.as_str()).as_str()).concat(",\n"),
        Piece::Accessor => if c.role == Role::Resource {
            String::new()
        } else {
            String::from_str("impl ").concat(store).concat(" {\n    pub fn ").concat(
                c.name.as_str(),
            ).concat("(&self) -> ").concat(c.ty.as_str()).concat(" {\n        self.").concat(
                c.name.as_str(),
            ).concat(".read().clone()\n    }\n}\n")
        },
        Piece::PropsField => if c.role == Role::Props {
            String::from_str("    ").concat(vis_exec(vis).as_str()).concat(c.name.as_str()).concat(
                ": ",
            ).concat(c.ty.as_str()).concat(",\n")
        } else {
            String::new()
        },
        Piece::Init => String::from_str("            ").concat(c.name.as_str()).concat(": ").concat(
            init_expr_exec(c).as_str(),
        ).concat(",\n"),
        Piece::Rewire => if c.role == Role::Resource {
            String::from_str("        default_struct.").concat(c.name.as_str()).concat(
                " = use_resource(move || async move { default_struct.",
            ).concat(c.name.as_str()).concat("().await });\n")
        } else {
            String::new()
        },
        Piece::Param => String::from_str(c.name.as_str()).concat(": ").concat(
            cell_type_text(c.role, c.ty.as_str()).as_str(),
        ).concat(", "),
        Piece::Move => String::from_str("            ").concat(c.name.as_str()).concat(",\n"),
    }
}

/// The text of one kind for every cell, in order.
pub fn pieces_exec(kind: Piece, store: &str, vis: &str, cells: &Vec<Cell>) -> (r: String)
    ensures
        r@ == pieces_text(kind, store@, vis@, cells@.map_values(|c: Cell| c@)),
{
    let ghost cs = cells@.map_values(|c: Cell| c@);
    let ghost ps = cs.map_values(|c: CellModel| piece_text(kind, store@, vis@, c));
    let mut r = String::new();
    let mut i: usize = 0;
    while i < cells.len()
        invariant
            i <= cells.len(),
            cs == cells@.map_values(|c: Cell| c@),
            ps == cs.map_values(|c: CellModel| piece_text(kind, store@, vis@, c)),
            r@ == ps.take(i as int).flatten_alt(),
        decreases cells.len() - i,
    {
        proof {
            lemma_flatten_take(ps, i as int);
        }
        let p = piece_exec(kind, store, vis, &cells[i]);
        r.append(p.as_str());
        i = i + 1;
    }
    assert(ps.take(i as int) =~= ps);
    r
}

/// All the source text generated for a planned store.
#[verifier::rlimit(40)]
pub fn render(e: &Expansion) -> (r: String)
    ensures
        r@ == expansion_text(e@),
{
    let name = e.name.as_str();
    let vis = e.vis.as_str();
    let mut r = lines_exec(&e.attrs, "");
    r.append("#[derive(Copy, Clone, PartialEq)]\n");
    r.append(vis_exec(vis).as_str());
    r.append("struct ");
    r.append(name);
    r.append(" {\n");
    r.append(pieces_exec(Piece::Field, name, vis, &e.cells).as_str());
    r.append("}\n");
    r.append(pieces_exec(Piece::Accessor, name, vis, &e.cells).as_str());
    let mut params = String::new();
    match &e.props_name {
        Some(p) => {
            r.append("#[derive(Debug)]\n");
            r.append(vis_exec(vis).as_str());
            r.append("struct ");
            r.append(p.as_str());
            r.append(" {\n");
            r.append(pieces_exec(Piece::PropsField, name, vis, &e.cells).as_str());
            r.append("}\n");
            params.append("props: ");
            params.append(p.as_str());
        },
        None => {},
    }
    r.append("impl ");
    r.append(name);
    r.append(" {\n    pub fn new(");
    r.append(params.as_str());
    r.append(") -> ");
    r.append(name);
    r.append(" {\n        let mut default_struct = ");
    r.append(name);
    r.append(" {\n");
    r.append(pieces_exec(Piece::Init, name, vis, &e.cells).as_str());
    r.append("        };\n");
    r.append(pieces_exec(Piece::Rewire, name, vis, &e.cells).as_str());
    r.append("        default_struct\n    }\n}\n");
    r
}

/// All the source text the single-pass variant generates for a planned store.
#[verifier::rlimit(40)]
pub fn render_single_pass(e: &Expansion, with_default: bool) -> (r: String)
    ensures
        r@ == single_pass_text(e@, with_default),
{
    let name = e.name.as_str();
    let vis = e.vis.as_str();
    let mut r = lines_exec(&e.attrs, "");
    r.append("#[derive(Copy, Clone, PartialEq)]\n");
    r.append(vis_exec(vis).as_str());
    r.append("struct ");
    r.append(name);
    r.append(" {\n");
    r.append(pieces_exec(Piece::Field, name, vis, &e.cells).as_str());
    r.append("}\n");
    r.append(pieces_exec(Piece::Accessor, name, vis, &e.cells).as_str());
    r.append("impl ");
    r.append(name);
    r.append(" {\n    pub fn new(");
    r.append(pieces_exec(Piece::Param, name, vis, &e.cells).as_str());
    r.append(") -> ");
    r.append(name);
    r.append(" {\n        ");
    r.append(name);
    r.append(" {\n");
    r.append(pieces_exec(Piece::Move, name, vis, &e.cells).as_str());
    r.append("        }\n    }\n}\n");
    if with_default {
        r.append("impl Default for ");
        r.append(name);
        r.append(" {\n    fn default() -> Self {\n        ");
        r.append(name);
        r.append(" {\n");
        r.append(pieces_exec(Piece::Init, name, vis, &e.cells).as_str());
        r.append("        }\n    }\n}\n");
    }
    r
}

/// A declaration as source text, attributes first.
pub fn declaration_text(d: &Declaration) -> (r: String)
    ensures
        r@ == decl_text(d@),
{
    let ghost lines = d@.fields.map_values(|f: FieldModel| field_text(f));
    let mut r = lines_exec(&d.attrs, "");
    r.append(vis_exec(d.vis.as_str()).as_str());
    r.append("struct ");
    r.append(d.name.as_str());
    r.append(d.generics.as_str());
    r.append(" {\n");
    let mut j: usize = 0;
    while j < d.fields.len()
        invariant
            j <= d.fields.len(),
            lines == d@.fields.map_values(|f: FieldModel| field_text(f)),
            r@ == lines_text(d@.attrs, ""@) + vis_text(d@.vis) + "struct "@ + d@.name + d@.generics + " {\n"@
                + lines.take(j as int).flatten_alt(),
        decreases d.fields.len() - j,
    {
        proof {
            lemma_flatten_take(lines, j as int);
        }
        let f = &d.fields[j];
        r.append(lines_exec(&f.attrs, "    ").as_str());
        r.append("    ");
        r.append(vis_exec(f.vis.as_str()).as_str());
        r.append(f.name.as_str());
        r.append(": ");
        r.append(f.ty.as_str());
        r.append(",\n");
        j = j + 1;
    }
    assert(lines.take(j as int) =~= lines);
    r.append("}\n");
    r
}

} // verus!
