//! A verified lowering pass for declarative widget trees.
//!
//! The library turns a parsed widget tree into a linear sequence of
//! imperative statements that construct, nest, decorate and wire a live
//! widget graph, together with the mapping of stored widgets to their
//! component types and an optional capability-trait fragment exposing the
//! tree's container attachment points.

use vstd::prelude::*;

pub mod ast;
pub mod container;
pub mod context;
pub mod emit;
pub mod error;
pub mod events;
pub mod laws;
pub mod registry;
pub mod rewrite;
pub mod stmt;

use crate::ast::{TypePath, WidgetKind, WidgetNode, clone_type_path};
use crate::container::{
    TraitImpl, gen_container_impl, trait_impl_spec, trait_impl_view, widget_type_of,
};
use crate::context::{CompilationContext, root_info_of};
use crate::emit::{emit, node_stmts};
use crate::error::CompileError;
use crate::events::{is_saved_exec, validate_events};
use crate::registry::{ContainerRegistry, EntryV, discs_of, has_key, register_tree, unique_keys};
use crate::stmt::{Stmt, StmtV, stmts_view};

verus! {

/// The component-type identity under which a stored widget appears in the
/// enclosing component's fields: its declared type for a Primitive widget, a
/// component handle of the declared component type for a Composed widget.
#[derive(Clone, PartialEq, Eq, Debug)]
pub enum ComponentType {
    Declared(TypePath),
    Component(TypePath),
}

/// The model of a stored widget's component-type identity.
pub enum CompTypeV {
    DeclaredV(Seq<Seq<char>>),
    ComponentV(Seq<Seq<char>>),
}

/// The model of a stored widget's component-type identity.
pub open spec fn comp_type_view(c: ComponentType) -> CompTypeV {
    match c {
        ComponentType::Declared(t) => CompTypeV::DeclaredV(t.view_segments()),
        ComponentType::Component(t) => CompTypeV::ComponentV(t.view_segments()),
    }
}

/// The model of the stored-widget mapping.
pub open spec fn saved_view(s: Seq<(String, ComponentType)>) -> Seq<(Seq<char>, CompTypeV)> {
    s.map_values(|p: (String, ComponentType)| (p.0@, comp_type_view(p.1)))
}

/// The mapping entry one node contributes: one entry when the node is
/// stored, none otherwise.
pub open spec fn saved_entry(w: WidgetNode) -> Seq<(Seq<char>, CompTypeV)> {
    if crate::ast::is_saved(w) {
        seq![
            (
                w.name@,
                match w.kind {
                    WidgetKind::Primitive => CompTypeV::DeclaredV(w.type_reference.view_segments()),
                    WidgetKind::Composed => CompTypeV::ComponentV(w.type_reference.view_segments()),
                },
            ),
        ]
    } else {
        Seq::empty()
    }
}

/// The stored-widget mapping of the whole tree, in walk order.
pub open spec fn saved_of(w: WidgetNode) -> Seq<(Seq<char>, CompTypeV)>
    decreases w,
{
    saved_entry(w) + saved_of_seq(w.children@)
}

/// The stored-widget mapping of a forest, in order.
pub open spec fn saved_of_seq(cs: Seq<WidgetNode>) -> Seq<(Seq<char>, CompTypeV)>
    decreases cs,
{
    if cs.len() == 0 {
        Seq::empty()
    } else {
        saved_of(cs[0]) + saved_of_seq(cs.drop_first())
    }
}

/// A forest's stored-widget mapping grows tree by tree.
pub proof fn lemma_saved_take(cs: Seq<WidgetNode>, i: int)
    requires
        0 <= i < cs.len(),
    ensures
        saved_of_seq(cs.take(i + 1)) == saved_of_seq(cs.take(i)) + saved_of(cs[i]),
    decreases cs.len(),
{
    if i == 0 {
        reveal_with_fuel(saved_of_seq, 2);
        assert(cs.take(1).drop_first() =~= Seq::<WidgetNode>::empty());
        assert(cs.take(1)[0] == cs[0]);
        assert(cs.take(0) =~= Seq::<WidgetNode>::empty());
        assert(saved_of_seq(cs.take(1)) =~= saved_of_seq(cs.take(0)) + saved_of(cs[0]));
    } else {
        lemma_saved_take(cs.drop_first(), i - 1);
        assert(cs.take(i + 1).drop_first() =~= cs.drop_first().take(i));
        assert(cs.take(i).drop_first() =~= cs.drop_first().take(i - 1));
        assert(cs.take(i + 1)[0] == cs[0]);
        assert(cs.take(i)[0] == cs[0]);
        assert(cs.drop_first()[i - 1] == cs[i]);
        assert(saved_of_seq(cs.take(i + 1)) =~= saved_of_seq(cs.take(i)) + saved_of(cs[i]));
    }
}

/// Collect the stored-widget mapping of the tree, in walk order: Composed
/// nodes, saved Primitive nodes and every attachment point.
pub fn collect_saved(w: &WidgetNode) -> (out: Vec<(String, ComponentType)>)
    ensures
        saved_view(out@) == saved_of(*w),
    decreases *w,
{
    let mut out: Vec<(String, ComponentType)> = Vec::new();
    if is_saved_exec(w) {
        let ct = match w.kind {
            WidgetKind::Primitive => ComponentType::Declared(clone_type_path(&w.type_reference)),
            WidgetKind::Composed => ComponentType::Component(clone_type_path(&w.type_reference)),
        };
        out.push((w.name.clone(), ct));
    }
    proof {
        assert(saved_view(out@) =~= saved_entry(*w));
    }
    let mut i: usize = 0;
    while i < w.children.len()
        invariant
            i <= w.children@.len(),
            saved_view(out@) == saved_entry(*w) + saved_of_seq(w.children@.take(i as int)),
        decreases w.children@.len() - i,
    {
        let ghost prev = out@;
        let mut rest = collect_saved(&w.children[i]);
        out.append(&mut rest);
        proof {
            lemma_saved_take(w.children@, i as int);
            assert(saved_view(out@) =~= saved_view(prev) + saved_of(w.children@[i as int]));
            assert(saved_view(out@) =~= saved_entry(*w) + saved_of_seq(
                w.children@.take(i as int + 1),
            ));
        }
        i = i + 1;
    }
    proof {
        assert(w.children@.take(w.children@.len() as int) =~= w.children@);
    }
    out
}

/// The stored-widget names that become fields beside the root field: every
/// stored name except the root's.
pub open spec fn wrap_fields(saved: Seq<(Seq<char>, CompTypeV)>, root: Seq<char>) -> Seq<Seq<char>>
    decreases saved,
{
    if saved.len() == 0 {
        Seq::empty()
    } else {
        (if saved[0].0 == root {
            Seq::<Seq<char>>::empty()
        } else {
            seq![saved[0].0]
        }) + wrap_fields(saved.drop_first(), root)
    }
}

/// The wrap fields grow entry by entry.
pub proof fn lemma_wrap_fields_take(saved: Seq<(Seq<char>, CompTypeV)>, root: Seq<char>, i: int)
    requires
        0 <= i < saved.len(),
    ensures
        wrap_fields(saved.take(i + 1), root) == wrap_fields(saved.take(i), root) + (if saved[i].0
            == root {
            Seq::<Seq<char>>::empty()
        } else {
            seq![saved[i].0]
        }),
    decreases saved.len(),
{
    if i == 0 {
        reveal_with_fuel(wrap_fields, 2);
        assert(saved.take(1).drop_first() =~= Seq::<(Seq<char>, CompTypeV)>::empty());
        assert(saved.take(1)[0] == saved[0]);
        assert(saved.take(0) =~= Seq::<(Seq<char>, CompTypeV)>::empty());
        assert(wrap_fields(saved.take(1), root) =~= wrap_fields(saved.take(0), root) + (if saved[0].0
            == root {
            Seq::<Seq<char>>::empty()
        } else {
            seq![saved[0].0]
        }));
    } else {
        lemma_wrap_fields_take(saved.drop_first(), root, i - 1);
        assert(saved.take(i + 1).drop_first() =~= saved.drop_first().take(i));
        assert(saved.take(i).drop_first() =~= saved.drop_first().take(i - 1));
        assert(saved.take(i + 1)[0] == saved[0]);
        assert(saved.take(i)[0] == saved[0]);
        assert(saved.drop_first()[i - 1] == saved[i]);
        assert(wrap_fields(saved.take(i + 1), root) =~= wrap_fields(saved.take(i), root) + (
        if saved[i].0 == root {
            Seq::<Seq<char>>::empty()
        } else {
            seq![saved[i].0]
        }));
    }
}

/// Everything the lowering of one tree produces: the linear statement
/// sequence ending in the wrap of the component state, the stored-widget
/// mapping, and the optional capability implementation.
#[derive(Debug)]
pub struct GenOutput {
    pub statements: Vec<Stmt>,
    pub saved_widgets: Vec<(String, ComponentType)>,
    pub container_impl: Option<TraitImpl>,
}

/// Lower one widget tree.
///
/// The tree is checked first: a repeated attachment-point discriminant fails
/// with `DuplicateContainerDiscriminant`; a `ReturnValue` or `ComputedReturn`
/// binding on a Composed widget fails with `UnsupportedEventShape`; named
/// attachment points without a default fail with `MissingDefaultContainer`.
/// Otherwise the tree is lowered to its statement sequence, closed by the
/// wrap of the component state into its shared handle; the given node is
/// recorded in the context as the tree's one root.
///
/// The parser never binds a foreign-target event with a return policy — the
/// callback's return value belongs to the widget the trigger fires on — so
/// such trees are outside this function's contract (`tree_wf`).
pub fn gen(component_name: &String, widget: &WidgetNode, ctx: &mut CompilationContext) -> (r:
    Result<GenOutput, CompileError>)
    requires
        old(ctx).root_view() is None,
        crate::ast::tree_wf(*widget),
    ensures
        r is Ok <==> unique_keys(discs_of(*widget)) && crate::ast::tree_events_ok(*widget) && (
        discs_of(*widget).len() == 0 || has_key(discs_of(*widget), None)),
        !unique_keys(discs_of(*widget)) ==> (r matches Err(e) && e matches
            CompileError::DuplicateContainerDiscriminant(_)),
        unique_keys(discs_of(*widget)) && !crate::ast::tree_events_ok(*widget) ==> (r matches Err(e)
            && e matches CompileError::UnsupportedEventShape { .. }),
        unique_keys(discs_of(*widget)) && crate::ast::tree_events_ok(*widget) && discs_of(
            *widget,
        ).len() > 0 && !has_key(discs_of(*widget), None) ==> (r matches Err(e) && e
            == CompileError::MissingDefaultContainer),
        r matches Ok(out) ==> stmts_view(out.statements@) == node_stmts(*widget, None) + seq![
            StmtV::WrapComponentV {
                component: component_name@,
                root_field: widget.name@,
                fields: wrap_fields(saved_of(*widget), widget.name@),
            },
        ],
        r matches Ok(out) ==> saved_view(out.saved_widgets@) == saved_of(*widget),
        r matches Ok(out) ==> final(ctx).root_view() == Some(root_info_of(*widget)),
        r matches Ok(out) ==> (match out.container_impl {
            None => discs_of(*widget).len() == 0,
            Some(t) => discs_of(*widget).len() > 0 && trait_impl_view(t) == trait_impl_spec(
                discs_of(*widget),
                widget_type_of(*widget, component_name@),
                old(ctx).generics_view(),
            ),
        }),
{
    let mut registry = ContainerRegistry::new();
    proof {
        assert(Seq::<EntryV>::empty() + discs_of(*widget) =~= discs_of(*widget));
    }
    match register_tree(&mut registry, widget) {
        Ok(()) => {},
        Err(e) => {
            return Err(e);
        },
    }
    match validate_events(widget) {
        Ok(()) => {},
        Err(e) => {
            return Err(e);
        },
    }
    let mut statements = emit(widget, None, ctx);
    let saved_widgets = collect_saved(widget);
    let container_impl = match gen_container_impl(
        &registry,
        widget,
        component_name,
        &ctx.generic_parameters,
    ) {
        Ok(o) => o,
        Err(e) => {
            return Err(e);
        },
    };
    let mut fields: Vec<String> = Vec::new();
    let mut i: usize = 0;
    while i < saved_widgets.len()
        invariant
            i <= saved_widgets@.len(),
            saved_view(saved_widgets@) == saved_of(*widget),
            crate::ast::strings_view(fields@) == wrap_fields(
                saved_view(saved_widgets@).take(i as int),
                widget.name@,
            ),
        decreases saved_widgets@.len() - i,
    {
        let ghost prev = fields@;
        let name = &saved_widgets[i].0;
        proof {
            lemma_wrap_fields_take(saved_view(saved_widgets@), widget.name@, i as int);
            assert(saved_view(saved_widgets@)[i as int].0 == saved_widgets@[i as int].0@);
        }
        if !(*name == widget.name) {
            fields.push(name.clone());
            proof {
                assert(crate::ast::strings_view(fields@) =~= wrap_fields(
                    saved_view(saved_widgets@).take(i as int + 1),
                    widget.name@,
                ));
            }
        } else {
            proof {
                assert(crate::ast::strings_view(fields@) =~= wrap_fields(
                    saved_view(saved_widgets@).take(i as int + 1),
                    widget.name@,
                ));
            }
        }
        i = i + 1;
    }
    proof {
        assert(saved_view(saved_widgets@).take(saved_view(saved_widgets@).len() as int)
            =~= saved_view(saved_widgets@));
    }
    let wrap = Stmt::WrapComponent {
        component: component_name.clone(),
        root_field: widget.name.clone(),
        fields,
    };
    statements.push(wrap);
    proof {
        assert(stmts_view(statements@) =~= node_stmts(*widget, None) + seq![
            StmtV::WrapComponentV {
                component: component_name@,
                root_field: widget.name@,
                fields: wrap_fields(saved_of(*widget), widget.name@),
            },
        ]);
    }
    Ok(GenOutput { statements, saved_widgets, container_impl })
}

} // verus!
