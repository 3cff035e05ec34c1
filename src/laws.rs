use vstd::prelude::*;
use crate::args::{dedup, idents_of, lemma_dedup};
use crate::emit::{decl_text, expansion_text, lines_text, params_text, piece_text, vis_text, Piece};
use crate::model::{DeclModel, Role};
use crate::store::{base_name, cell_of, cell_type, expansion_of, has_props, props_struct_name, role_of, CellModel};
use crate::tagging::{tag_decl, PROPS_MARKER, RESOURCE_MARKER};
use crate::text::turbofish_of;

verus! {

/// A name that carries the resource marker is a resource, under its unmarked name.
proof fn lemma_resource_marked(x: Seq<char>)
    ensures
        role_of(RESOURCE_MARKER@ + x) == Role::Resource,
        base_name(RESOURCE_MARKER@ + x) == x,
{
    let n = RESOURCE_MARKER@ + x;
    assert(n.subrange(0, RESOURCE_MARKER@.len() as int) =~= RESOURCE_MARKER@);
    assert(n.skip(RESOURCE_MARKER@.len() as int) =~= x);
}

/// A name that carries the props marker is a prop, under its unmarked name.
proof fn lemma_props_marked(x: Seq<char>)
    ensures
        role_of(PROPS_MARKER@ + x) == Role::Props,
        base_name(PROPS_MARKER@ + x) == x,
{
    let n = PROPS_MARKER@ + x;
    reveal_strlit("_modx_reserved_resource_");
    reveal_strlit("_modx_reserved_props_");
    assert(n[15] == 'p');
    assert(RESOURCE_MARKER@[15] == 'r');
    assert(n.subrange(0, PROPS_MARKER@.len() as int) =~= PROPS_MARKER@);
    assert(n.skip(PROPS_MARKER@.len() as int) =~= x);
}

/// When no field name carries a marker, the consuming pass makes every field a
/// signal under its own name, held in a `Signal` cell, with an accessor and an
/// initializer from its type's default; it generates no construction structure
/// and a constructor without parameters.
pub proof fn untagged_fields_are_signals(d: DeclModel)
    requires
        forall|i: int|
            0 <= i < d.fields.len() ==> !RESOURCE_MARKER@.is_prefix_of(#[trigger] d.fields[i].name)
                && !PROPS_MARKER@.is_prefix_of(d.fields[i].name),
    ensures
        ({
            let e = expansion_of(d, true);
            &&& e.props_name is None
            &&& e.cells.len() == d.fields.len()
            &&& forall|i: int|
                0 <= i < e.cells.len() ==> (#[trigger] e.cells[i]).role == Role::Signal && e.cells[i].name
                    == d.fields[i].name
            &&& params_text(e) == Seq::<char>::empty()
            &&& forall|i: int|
                0 <= i < e.cells.len() ==> {
                    let f = d.fields[i];
                    &&& piece_text(Piece::Field, e.name, e.vis, #[trigger] e.cells[i]) == lines_text(
                        f.attrs,
                        "    "@,
                    ) + "    "@ + vis_text(f.vis) + f.name + ": "@ + ("Signal<"@ + f.ty + ">"@) + ",\n"@
                    &&& piece_text(Piece::Accessor, e.name, e.vis, e.cells[i]) == "impl "@ + d.name
                        + " {\n    pub fn "@ + f.name + "(&self) -> "@ + f.ty + " {\n        self."@
                        + f.name + ".read().clone()\n    }\n}\n"@
                    &&& piece_text(Piece::Init, e.name, e.vis, e.cells[i]) == "            "@ + f.name
                        + ": "@ + ("use_signal(|| "@ + turbofish_of(f.ty) + "::default())"@) + ",\n"@
                    &&& piece_text(Piece::PropsField, e.name, e.vis, e.cells[i]) == Seq::<char>::empty()
                    &&& piece_text(Piece::Rewire, e.name, e.vis, e.cells[i]) == Seq::<char>::empty()
                }
        }),
{
    let e = expansion_of(d, true);
    assert forall|i: int| 0 <= i < e.cells.len() implies (#[trigger] e.cells[i]).role == Role::Signal
        && e.cells[i].name == d.fields[i].name by {
        assert(e.cells[i] == cell_of(d.fields[i]));
    }
    if has_props(e.cells) {
        let i = choose|i: int| 0 <= i < e.cells.len() && (#[trigger] e.cells[i]).role == Role::Props;
        assert(e.cells[i].role == Role::Signal);
    }
}

/// A field that the resource pass's argument list names becomes, in the consuming
/// pass, a resource under its own name, held in a `Resource` cell: it gets no
/// accessor and no place in the construction structure, and after construction
/// its cell is driven by the store's method of the same name.
pub proof fn resource_tagged_field_is_resource(ts: Seq<Seq<char>>, d: DeclModel, i: int)
    requires
        0 <= i < d.fields.len(),
        idents_of(ts).contains(d.fields[i].name),
    ensures
        ({
            let t = tag_decl(d, dedup(idents_of(ts)), RESOURCE_MARKER@);
            let f = d.fields[i];
            let c = expansion_of(t, true).cells[i];
            let e = expansion_of(t, true);
            &&& c == (CellModel { attrs: f.attrs, vis: f.vis, name: f.name, role: Role::Resource, ty: f.ty })
            &&& cell_type(c.role, c.ty) == "Resource<"@ + f.ty + ">"@
            &&& piece_text(Piece::Accessor, e.name, e.vis, c) == Seq::<char>::empty()
            &&& piece_text(Piece::PropsField, e.name, e.vis, c) == Seq::<char>::empty()
            &&& piece_text(Piece::Init, e.name, e.vis, c) == "            "@ + f.name + ": "@
                + "use_resource(move || async move { unsafe { std::mem::zeroed() } })"@ + ",\n"@
            &&& piece_text(Piece::Rewire, e.name, e.vis, c) == "        default_struct."@ + f.name
                + " = use_resource(move || async move { default_struct."@ + f.name + "().await });\n"@
        }),
{
    lemma_dedup(idents_of(ts));
    lemma_resource_marked(d.fields[i].name);
    let t = tag_decl(d, dedup(idents_of(ts)), RESOURCE_MARKER@);
    assert(expansion_of(t, true).cells[i] == cell_of(t.fields[i]));
}

/// A field that the props pass's argument list names becomes, in the consuming
/// pass, a prop under its own name, filled from the construction structure,
/// which is generated.
pub proof fn props_tagged_field_is_prop(ts: Seq<Seq<char>>, d: DeclModel, i: int)
    requires
        0 <= i < d.fields.len(),
        idents_of(ts).contains(d.fields[i].name),
    ensures
        ({
            let t = tag_decl(d, dedup(idents_of(ts)), PROPS_MARKER@);
            let f = d.fields[i];
            let e = expansion_of(t, true);
            &&& e.cells[i] == (CellModel { attrs: f.attrs, vis: f.vis, name: f.name, role: Role::Props, ty: f.ty })
            &&& e.props_name == Some(props_struct_name(d.name))
            &&& piece_text(Piece::Init, e.name, e.vis, e.cells[i]) == "            "@ + f.name + ": "@
                + ("use_signal(|| props."@ + f.name + ")"@) + ",\n"@
            &&& piece_text(Piece::Rewire, e.name, e.vis, e.cells[i]) == Seq::<char>::empty()
        }),
{
    lemma_dedup(idents_of(ts));
    lemma_props_marked(d.fields[i].name);
    let t = tag_decl(d, dedup(idents_of(ts)), PROPS_MARKER@);
    let e = expansion_of(t, true);
    assert(e.cells[i] == cell_of(t.fields[i]));
    assert(has_props(e.cells));
}

/// The consuming pass generates a construction structure exactly when some field is a prop.
pub proof fn construction_structure_iff_props(d: DeclModel)
    ensures
        expansion_of(d, true).props_name is Some <==> exists|i: int|
            0 <= i < d.fields.len() && role_of(#[trigger] d.fields[i].name) == Role::Props,
{
    let e = expansion_of(d, true);
    if has_props(e.cells) {
        let i = choose|i: int| 0 <= i < e.cells.len() && (#[trigger] e.cells[i]).role == Role::Props;
        assert(e.cells[i] == cell_of(d.fields[i]));
    }
    if exists|i: int| 0 <= i < d.fields.len() && role_of(#[trigger] d.fields[i].name) == Role::Props {
        let i = choose|i: int| 0 <= i < d.fields.len() && role_of(#[trigger] d.fields[i].name) == Role::Props;
        assert(e.cells[i] == cell_of(d.fields[i]));
    }
}

/// Tagging a field `x: T` as a prop and then consuming the declaration gives the
/// field `x: Signal<T>`, an accessor `x(&self) -> T` that returns a clone of the
/// cell's value, and a constructor that takes `<Name>Props`, which holds `x: T`.
pub proof fn props_round_trip(ts: Seq<Seq<char>>, d: DeclModel, i: int)
    requires
        0 <= i < d.fields.len(),
        idents_of(ts).contains(d.fields[i].name),
    ensures
        ({
            let e = expansion_of(tag_decl(d, dedup(idents_of(ts)), PROPS_MARKER@), true);
            let x = d.fields[i].name;
            let ty = d.fields[i].ty;
            let c = e.cells[i];
            &&& c.name == x
            &&& piece_text(Piece::Field, e.name, e.vis, c) == lines_text(d.fields[i].attrs, "    "@)
                + "    "@ + vis_text(d.fields[i].vis) + x + ": "@ + ("Signal<"@ + ty + ">"@) + ",\n"@
            &&& piece_text(Piece::Accessor, e.name, e.vis, c) == "impl "@ + d.name
                + " {\n    pub fn "@ + x + "(&self) -> "@ + ty + " {\n        self."@ + x
                + ".read().clone()\n    }\n}\n"@
            &&& e.props_name == Some(d.name + "Props"@)
            &&& params_text(e) == "props: "@ + (d.name + "Props"@)
            &&& piece_text(Piece::PropsField, e.name, e.vis, c) == "    "@ + vis_text(d.vis) + x
                + ": "@ + ty + ",\n"@
        }),
{
    props_tagged_field_is_prop(ts, d, i);
}

/// The accessor of a signal or prop reads that field's own cell, and its text
/// depends on the store's name and that field alone, whatever the other fields are.
pub proof fn accessor_depends_on_its_field_only(d1: DeclModel, d2: DeclModel, i: int, j: int)
    requires
        d1.name == d2.name,
        0 <= i < d1.fields.len(),
        0 <= j < d2.fields.len(),
        d1.fields[i] == d2.fields[j],
        role_of(d1.fields[i].name) != Role::Resource,
    ensures
        ({
            let e1 = expansion_of(d1, true);
            let e2 = expansion_of(d2, true);
            let c = cell_of(d1.fields[i]);
            &&& piece_text(Piece::Accessor, e1.name, e1.vis, e1.cells[i]) == piece_text(
                Piece::Accessor,
                e2.name,
                e2.vis,
                e2.cells[j],
            )
            &&& piece_text(Piece::Accessor, e1.name, e1.vis, e1.cells[i]) == "impl "@ + d1.name
                + " {\n    pub fn "@ + c.name + "(&self) -> "@ + c.ty + " {\n        self."@
                + c.name + ".read().clone()\n    }\n}\n"@
        }),
{
    assert(expansion_of(d1, true).cells[i] == cell_of(d1.fields[i]));
    assert(expansion_of(d2, true).cells[j] == cell_of(d2.fields[j]));
}

/// A tagging pass keeps the attributes above the declaration and above each field
/// unchanged, and its text begins with the declaration's attributes, each on its
/// own line, in their order.
pub proof fn tagging_keeps_attributes(d: DeclModel, names: Seq<Seq<char>>, marker: Seq<char>)
    ensures
        ({
            let t = tag_decl(d, names, marker);
            &&& t.attrs == d.attrs
            &&& t.fields.len() == d.fields.len()
            &&& forall|i: int| 0 <= i < d.fields.len() ==> (#[trigger] t.fields[i]).attrs == d.fields[i].attrs
            &&& lines_text(d.attrs, ""@).is_prefix_of(decl_text(t))
        }),
{
    let t = tag_decl(d, names, marker);
    let head = lines_text(d.attrs, ""@);
    assert(decl_text(t).subrange(0, head.len() as int) =~= head);
}

/// The consuming pass keeps the attributes above the declaration: its text
/// begins with them, each on its own line, in their order.
pub proof fn store_keeps_attributes(d: DeclModel)
    ensures
        lines_text(d.attrs, ""@).is_prefix_of(expansion_text(expansion_of(d, true))),
{
    let head = lines_text(d.attrs, ""@);
    assert(expansion_text(expansion_of(d, true)).subrange(0, head.len() as int) =~= head);
}

} // verus!
