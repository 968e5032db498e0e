//! The tree walker and emitter.
//!
//! `emit` walks the widget tree pre-order and produces, for each node, a
//! fixed sequence of statements: construction, non-visibility property
//! setters, the children's own statements, insertion into the parent,
//! showing, the `visible` property setter, child-property setters, and event
//! wiring.  The `visible` setter comes after the show statement and after
//! every child's statements, because some toolkits reset or ignore visibility
//! set before realization.

use vstd::prelude::*;
use crate::ast::{
    Expr, WidgetKind, WidgetNode, clone_strings, clone_type_path, expr_chars, strings_view,
};
use crate::context::{CompilationContext, root_info_for, root_info_of};
use crate::events::{collect_events, event_stmts_v};
use crate::rewrite::rewrite;
use crate::stmt::{Stmt, StmtV, stmt_view, stmts_view};

verus! {

/// The model of the parent handed to `emit`: the parent widget's name and
/// kind, or nothing at the tree root.
pub open spec fn parent_view(p: Option<(&String, WidgetKind)>) -> Option<(Seq<char>, WidgetKind)> {
    match p {
        None => None,
        Some((n, k)) => Some((n@, k)),
    }
}

/// The construction statements of one node: exactly one statement.
///
/// A Primitive node with no constructor arguments takes the
/// generic-construct-then-downcast path; one with arguments takes a direct
/// typed constructor call with the arguments in declared order.  A Composed
/// node becomes a nested component: created alone at the tree root, created
/// and attached in one operation elsewhere.
pub open spec fn construct_stmts_v(w: WidgetNode, parent: Option<(Seq<char>, WidgetKind)>) -> Seq<
    StmtV,
> {
    match w.kind {
        WidgetKind::Primitive => if w.init_parameters@.len() == 0 {
            seq![
                StmtV::GenericConstructV {
                    name: w.name@,
                    typ: w.type_reference.view_segments(),
                },
            ]
        } else {
            seq![
                StmtV::TypedConstructV {
                    name: w.name@,
                    typ: w.type_reference.view_segments(),
                    params: strings_view(w.init_parameters@),
                },
            ]
        },
        WidgetKind::Composed => match parent {
            None => seq![
                StmtV::CreateComponentV {
                    name: w.name@,
                    typ: w.type_reference.view_segments(),
                    params: strings_view(w.init_parameters@),
                },
            ],
            Some((pn, pk)) => seq![
                StmtV::AddComponentV {
                    name: w.name@,
                    typ: w.type_reference.view_segments(),
                    parent: pn,
                    parent_kind: pk,
                    params: strings_view(w.init_parameters@),
                },
            ],
        },
    }
}

/// The key of the visibility property.
pub open spec fn visible_key() -> Seq<char> {
    "visible"@
}

/// The property setters of one node, filtered by whether the key is
/// `visible`, in declaration order.
pub open spec fn prop_stmts_seq(
    props: Seq<(String, Expr)>,
    wname: Seq<char>,
    wkind: WidgetKind,
    want_visible: bool,
) -> Seq<StmtV>
    decreases props,
{
    if props.len() == 0 {
        Seq::empty()
    } else {
        let head = if (props[0].0@ == visible_key()) == want_visible {
            seq![
                StmtV::SetPropertyV {
                    widget: wname,
                    widget_kind: wkind,
                    key: props[0].0@,
                    value: expr_chars(props[0].1),
                },
            ]
        } else {
            Seq::empty()
        };
        head + prop_stmts_seq(props.drop_first(), wname, wkind, want_visible)
    }
}

/// The setters of every property but `visible`, in declaration order.
pub open spec fn prop_stmts_v(w: WidgetNode) -> Seq<StmtV> {
    prop_stmts_seq(w.properties@, w.name@, w.kind, false)
}

/// The setters of the `visible` property, in declaration order.
pub open spec fn visible_stmts_v(w: WidgetNode) -> Seq<StmtV> {
    prop_stmts_seq(w.properties@, w.name@, w.kind, true)
}

/// Filtered property setters grow by at most one statement per property.
pub proof fn lemma_prop_take(
    props: Seq<(String, Expr)>,
    wname: Seq<char>,
    wkind: WidgetKind,
    want_visible: bool,
    i: int,
)
    requires
        0 <= i < props.len(),
    ensures
        prop_stmts_seq(props.take(i + 1), wname, wkind, want_visible) == prop_stmts_seq(
            props.take(i),
            wname,
            wkind,
            want_visible,
        ) + if (props[i].0@ == visible_key()) == want_visible {
            seq![
                StmtV::SetPropertyV {
                    widget: wname,
                    widget_kind: wkind,
                    key: props[i].0@,
                    value: expr_chars(props[i].1),
                },
            ]
        } else {
            Seq::<StmtV>::empty()
        },
    decreases props.len(),
{
    if i == 0 {
        reveal_with_fuel(prop_stmts_seq, 2);
        assert(props.take(1).drop_first() =~= Seq::<(String, Expr)>::empty());
        assert(props.take(1)[0] == props[0]);
        assert(props.take(0) =~= Seq::<(String, Expr)>::empty());
        assert(prop_stmts_seq(props.take(1), wname, wkind, want_visible) =~= prop_stmts_seq(
            props.take(0),
            wname,
            wkind,
            want_visible,
        ) + if (props[0].0@ == visible_key()) == want_visible {
            seq![
                StmtV::SetPropertyV {
                    widget: wname,
                    widget_kind: wkind,
                    key: props[0].0@,
                    value: expr_chars(props[0].1),
                },
            ]
        } else {
            Seq::<StmtV>::empty()
        });
    } else {
        lemma_prop_take(props.drop_first(), wname, wkind, want_visible, i - 1);
        assert(props.take(i + 1).drop_first() =~= props.drop_first().take(i));
        assert(props.take(i).drop_first() =~= props.drop_first().take(i - 1));
        assert(props.take(i + 1)[0] == props[0]);
        assert(props.take(i)[0] == props[0]);
        assert(props.drop_first()[i - 1] == props[i]);
        assert(prop_stmts_seq(props.take(i + 1), wname, wkind, want_visible) =~= prop_stmts_seq(
            props.take(i),
            wname,
            wkind,
            want_visible,
        ) + if (props[i].0@ == visible_key()) == want_visible {
            seq![
                StmtV::SetPropertyV {
                    widget: wname,
                    widget_kind: wkind,
                    key: props[i].0@,
                    value: expr_chars(props[i].1),
                },
            ]
        } else {
            Seq::<StmtV>::empty()
        });
    }
}

/// The insertion statements of one node: one statement attaching a Primitive
/// node to its parent; nothing for a Composed node, whose construction
/// statement already attaches it; nothing at the tree root, where the node's
/// identity is recorded in the compilation context instead.
pub open spec fn insert_stmts_v(w: WidgetNode, parent: Option<(Seq<char>, WidgetKind)>) -> Seq<
    StmtV,
> {
    match parent {
        None => Seq::empty(),
        Some((pn, pk)) => match w.kind {
            WidgetKind::Primitive => seq![
                StmtV::AddToParentV { child: w.name@, parent: pn, parent_kind: pk },
            ],
            WidgetKind::Composed => Seq::empty(),
        },
    }
}

/// The show statements of one node: one for a Primitive node; none for a
/// Composed node, which is shown by its own internal construction.
pub open spec fn show_stmts_v(w: WidgetNode) -> Seq<StmtV> {
    match w.kind {
        WidgetKind::Primitive => seq![StmtV::ShowV { widget: w.name@ }],
        WidgetKind::Composed => Seq::empty(),
    }
}

/// The child-property setters of one node, in declaration order; none at the
/// tree root, where no parent container exists to interpret them.
pub open spec fn child_prop_stmts_v(w: WidgetNode, parent: Option<(Seq<char>, WidgetKind)>) -> Seq<
    StmtV,
> {
    match parent {
        None => Seq::empty(),
        Some((pn, pk)) => Seq::new(
            w.child_properties@.len(),
            |k: int|
                StmtV::SetChildPropertyV {
                    parent: pn,
                    parent_kind: pk,
                    child: w.name@,
                    child_kind: w.kind,
                    key: w.child_properties@[k].0@,
                    value: expr_chars(w.child_properties@[k].1),
                },
        ),
    }
}

/// All statements of one node, in the fixed per-node order: construction,
/// non-visibility properties, the children's statements, insertion, show,
/// the `visible` property, child properties, event wiring.
pub open spec fn node_stmts(w: WidgetNode, parent: Option<(Seq<char>, WidgetKind)>) -> Seq<StmtV>
    decreases w,
{
    construct_stmts_v(w, parent) + prop_stmts_v(w) + children_stmts(w.children@, w.name@, w.kind)
        + insert_stmts_v(w, parent) + show_stmts_v(w) + visible_stmts_v(w) + child_prop_stmts_v(
        w,
        parent,
    ) + event_stmts_v(w)
}

/// The statements of a forest of children, in declaration order.
pub open spec fn children_stmts(cs: Seq<WidgetNode>, pname: Seq<char>, pkind: WidgetKind) -> Seq<
    StmtV,
>
    decreases cs,
{
    if cs.len() == 0 {
        Seq::empty()
    } else {
        node_stmts(cs[0], Some((pname, pkind))) + children_stmts(cs.drop_first(), pname, pkind)
    }
}

/// A forest's statements grow tree by tree.
pub proof fn lemma_children_take(cs: Seq<WidgetNode>, pname: Seq<char>, pkind: WidgetKind, i: int)
    requires
        0 <= i < cs.len(),
    ensures
        children_stmts(cs.take(i + 1), pname, pkind) == children_stmts(cs.take(i), pname, pkind)
            + node_stmts(cs[i], Some((pname, pkind))),
    decreases cs.len(),
{
    if i == 0 {
        reveal_with_fuel(children_stmts, 2);
        assert(cs.take(1).drop_first() =~= Seq::<WidgetNode>::empty());
        assert(cs.take(1)[0] == cs[0]);
        assert(cs.take(0) =~= Seq::<WidgetNode>::empty());
        assert(children_stmts(cs.take(1), pname, pkind) =~= children_stmts(cs.take(0), pname, pkind)
            + node_stmts(cs[0], Some((pname, pkind))));
    } else {
        lemma_children_take(cs.drop_first(), pname, pkind, i - 1);
        assert(cs.take(i + 1).drop_first() =~= cs.drop_first().take(i));
        assert(cs.take(i).drop_first() =~= cs.drop_first().take(i - 1));
        assert(cs.take(i + 1)[0] == cs[0]);
        assert(cs.take(i)[0] == cs[0]);
        assert(cs.drop_first()[i - 1] == cs[i]);
        assert(children_stmts(cs.take(i + 1), pname, pkind) =~= children_stmts(
            cs.take(i),
            pname,
            pkind,
        ) + node_stmts(cs[i], Some((pname, pkind))));
    }
}

/// Build the construction statement of one node.
pub fn gen_construct_widget(w: &WidgetNode, parent: Option<(&String, WidgetKind)>) -> (out: Vec<
    Stmt,
>)
    ensures
        stmts_view(out@) == construct_stmts_v(*w, parent_view(parent)),
        w.kind == WidgetKind::Primitive && w.init_parameters@.len() == 0 ==> stmts_view(out@)
            =~= seq![
            StmtV::GenericConstructV { name: w.name@, typ: w.type_reference.view_segments() },
        ],
        w.kind == WidgetKind::Primitive && w.init_parameters@.len() > 0 ==> stmts_view(out@)
            =~= seq![
            StmtV::TypedConstructV {
                name: w.name@,
                typ: w.type_reference.view_segments(),
                params: strings_view(w.init_parameters@),
            },
        ],
{
    let mut out: Vec<Stmt> = Vec::new();
    match w.kind {
        WidgetKind::Primitive => {
            if w.init_parameters.len() == 0 {
                out.push(
                    Stmt::GenericConstruct {
                        name: w.name.clone(),
                        typ: clone_type_path(&w.type_reference),
                    },
                );
            } else {
                out.push(
                    Stmt::TypedConstruct {
                        name: w.name.clone(),
                        typ: clone_type_path(&w.type_reference),
                        params: clone_strings(&w.init_parameters),
                    },
                );
            }
        },
        WidgetKind::Composed => {
            match parent {
                None => {
                    out.push(
                        Stmt::CreateComponent {
                            name: w.name.clone(),
                            typ: clone_type_path(&w.type_reference),
                            params: clone_strings(&w.init_parameters),
                        },
                    );
                },
                Some((pn, pk)) => {
                    out.push(
                        Stmt::AddComponent {
                            name: w.name.clone(),
                            typ: clone_type_path(&w.type_reference),
                            parent: pn.clone(),
                            parent_kind: pk,
                            params: clone_strings(&w.init_parameters),
                        },
                    );
                },
            }
        },
    }
    proof {
        assert(stmts_view(out@) =~= construct_stmts_v(*w, parent_view(parent)));
    }
    out
}

/// Build the property setters of one node, each value passed through the
/// expression rewriter: every property but `visible` in the first list, the
/// `visible` setters in the second.
pub fn gen_set_prop_calls(w: &WidgetNode) -> (r: (Vec<Stmt>, Vec<Stmt>))
    ensures
        stmts_view(r.0@) == prop_stmts_v(*w),
        stmts_view(r.1@) == visible_stmts_v(*w),
{
    let mut properties: Vec<Stmt> = Vec::new();
    let mut visible_properties: Vec<Stmt> = Vec::new();
    let vis: String = "visible".to_owned();
    let mut i: usize = 0;
    while i < w.properties.len()
        invariant
            i <= w.properties@.len(),
            vis@ == visible_key(),
            stmts_view(properties@) == prop_stmts_seq(
                w.properties@.take(i as int),
                w.name@,
                w.kind,
                false,
            ),
            stmts_view(visible_properties@) == prop_stmts_seq(
                w.properties@.take(i as int),
                w.name@,
                w.kind,
                true,
            ),
        decreases w.properties@.len() - i,
    {
        let key = &w.properties[i].0;
        let value = rewrite(&w.properties[i].1);
        let s = Stmt::SetProperty {
            widget: w.name.clone(),
            widget_kind: w.kind,
            key: key.clone(),
            value,
        };
        proof {
            assert(stmt_view(s) == StmtV::SetPropertyV {
                widget: w.name@,
                widget_kind: w.kind,
                key: w.properties@[i as int].0@,
                value: expr_chars(w.properties@[i as int].1),
            });
            lemma_prop_take(w.properties@, w.name@, w.kind, false, i as int);
            lemma_prop_take(w.properties@, w.name@, w.kind, true, i as int);
        }
        if *key == vis {
            let ghost prev = visible_properties@;
            visible_properties.push(s);
            proof {
                assert(stmts_view(visible_properties@) =~= stmts_view(prev).push(
                    stmt_view(visible_properties@[prev.len() as int]),
                ));
                assert(stmts_view(visible_properties@) =~= prop_stmts_seq(
                    w.properties@.take(i as int + 1),
                    w.name@,
                    w.kind,
                    true,
                ));
                assert(prop_stmts_seq(w.properties@.take(i as int + 1), w.name@, w.kind, false)
                    =~= prop_stmts_seq(w.properties@.take(i as int), w.name@, w.kind, false));
            }
        } else {
            let ghost prev = properties@;
            properties.push(s);
            proof {
                assert(stmts_view(properties@) =~= stmts_view(prev).push(
                    stmt_view(properties@[prev.len() as int]),
                ));
                assert(stmts_view(properties@) =~= prop_stmts_seq(
                    w.properties@.take(i as int + 1),
                    w.name@,
                    w.kind,
                    false,
                ));
                assert(prop_stmts_seq(w.properties@.take(i as int + 1), w.name@, w.kind, true)
                    =~= prop_stmts_seq(w.properties@.take(i as int), w.name@, w.kind, true));
            }
        }
        i = i + 1;
    }
    proof {
        assert(w.properties@.take(w.properties@.len() as int) =~= w.properties@);
    }
    (properties, visible_properties)
}

/// Build the child-property setters of one node, each value passed through
/// the expression rewriter.
pub fn gen_set_child_prop_calls(w: &WidgetNode, parent: Option<(&String, WidgetKind)>) -> (out: Vec<
    Stmt,
>)
    ensures
        stmts_view(out@) == child_prop_stmts_v(*w, parent_view(parent)),
{
    let mut out: Vec<Stmt> = Vec::new();
    match parent {
        None => {
            proof {
                assert(stmts_view(out@) =~= child_prop_stmts_v(*w, parent_view(parent)));
            }
        },
        Some((pn, pk)) => {
            let mut i: usize = 0;
            while i < w.child_properties.len()
                invariant
                    i <= w.child_properties@.len(),
                    parent_view(parent) == Some((pn@, pk)),
                    stmts_view(out@) == child_prop_stmts_v(*w, parent_view(parent)).take(i as int),
                decreases w.child_properties@.len() - i,
            {
                let ghost prev = out@;
                let value = rewrite(&w.child_properties[i].1);
                let s = Stmt::SetChildProperty {
                    parent: pn.clone(),
                    parent_kind: pk,
                    child: w.name.clone(),
                    child_kind: w.kind,
                    key: w.child_properties[i].0.clone(),
                    value,
                };
                out.push(s);
                proof {
                    let whole = child_prop_stmts_v(*w, parent_view(parent));
                    let lhs = stmts_view(out@);
                    let rhs = whole.take(i as int + 1);
                    assert(stmts_view(prev).len() == prev.len());
                    assert forall|k: int| 0 <= k < lhs.len() implies lhs[k] == rhs[k] by {
                        assert(lhs[k] == stmt_view(out@[k]));
                        if k < prev.len() {
                            assert(out@[k] == prev[k]);
                            assert(stmts_view(prev)[k] == stmt_view(prev[k]));
                        } else {
                            assert(out@[k] == s);
                            assert(rhs[k] == whole[i as int]);
                        }
                    }
                    assert(lhs =~= rhs);
                }
                i = i + 1;
            }
            proof {
                assert(child_prop_stmts_v(*w, parent_view(parent)).take(
                    w.child_properties@.len() as int,
                ) =~= child_prop_stmts_v(*w, parent_view(parent)));
            }
        },
    }
    out
}

/// Build the insertion statement of one node, or record the node as the
/// tree's root.  A parentless node is the root: its name, type and accessor
/// expression go into the compilation context and no insertion statement is
/// emitted.  A Primitive node with a parent is attached to it; a Composed
/// node's construction statement has already attached it.
pub fn add_child_or_record_root(
    w: &WidgetNode,
    parent: Option<(&String, WidgetKind)>,
    ctx: &mut CompilationContext,
) -> (out: Vec<Stmt>)
    requires
        parent is None ==> old(ctx).root_view() is None,
    ensures
        stmts_view(out@) == insert_stmts_v(*w, parent_view(parent)),
        parent is Some ==> *final(ctx) == *old(ctx),
        parent is None ==> final(ctx).root_view() == Some(root_info_of(*w)) && final(ctx).generics_view() == old(ctx).generics_view(),
{
    let mut out: Vec<Stmt> = Vec::new();
    match parent {
        None => {
            let info = root_info_for(w);
            ctx.record_root(info);
        },
        Some((pn, pk)) => {
            match w.kind {
                WidgetKind::Primitive => {
                    out.push(
                        Stmt::AddToParent {
                            child: w.name.clone(),
                            parent: pn.clone(),
                            parent_kind: pk,
                        },
                    );
                },
                WidgetKind::Composed => {},
            }
        },
    }
    proof {
        assert(stmts_view(out@) =~= insert_stmts_v(*w, parent_view(parent)));
    }
    out
}

/// Lower one node and its subtree to statements, in the fixed per-node
/// order.  At the single parentless call the node is recorded as the tree's
/// root; calls with a parent leave the context unchanged, so exactly one
/// root is recorded however large the tree is.
pub fn emit(w: &WidgetNode, parent: Option<(&String, WidgetKind)>, ctx: &mut CompilationContext) -> (out: Vec<
    Stmt,
>)
    requires
        parent is None ==> old(ctx).root_view() is None,
    ensures
        stmts_view(out@) == node_stmts(*w, parent_view(parent)),
        parent is Some ==> *final(ctx) == *old(ctx),
        parent is None ==> final(ctx).root_view() == Some(root_info_of(*w)) && final(ctx).generics_view() == old(ctx).generics_view(),
    decreases *w,
{
    let mut out = gen_construct_widget(w, parent);
    let (mut properties, mut visible_properties) = gen_set_prop_calls(w);
    out.append(&mut properties);
    let ghost head = construct_stmts_v(*w, parent_view(parent)) + prop_stmts_v(*w);
    proof {
        assert(stmts_view(out@) =~= head);
    }
    let mut i: usize = 0;
    while i < w.children.len()
        invariant
            i <= w.children@.len(),
            head == construct_stmts_v(*w, parent_view(parent)) + prop_stmts_v(*w),
            stmts_view(out@) == head + children_stmts(w.children@.take(i as int), w.name@, w.kind),
            *ctx == *old(ctx),
            parent is None ==> old(ctx).root_view() is None,
        decreases w.children@.len() - i,
    {
        let ghost prev = out@;
        let mut child_stmts = emit(&w.children[i], Some((&w.name, w.kind)), ctx);
        out.append(&mut child_stmts);
        proof {
            lemma_children_take(w.children@, w.name@, w.kind, i as int);
            assert(stmts_view(out@) =~= stmts_view(prev) + node_stmts(
                w.children@[i as int],
                Some((w.name@, w.kind)),
            ));
            assert(stmts_view(out@) =~= head + children_stmts(
                w.children@.take(i as int + 1),
                w.name@,
                w.kind,
            ));
        }
        i = i + 1;
    }
    proof {
        assert(w.children@.take(w.children@.len() as int) =~= w.children@);
    }
    let mut insert_stmts = add_child_or_record_root(w, parent, ctx);
    let ghost prev1 = out@;
    out.append(&mut insert_stmts);
    proof {
        assert(stmts_view(out@) =~= stmts_view(prev1) + insert_stmts_v(*w, parent_view(parent)));
    }
    match w.kind {
        WidgetKind::Primitive => {
            let ghost prev2 = out@;
            out.push(Stmt::Show { widget: w.name.clone() });
            proof {
                assert(stmts_view(out@) =~= stmts_view(prev2) + show_stmts_v(*w));
            }
        },
        WidgetKind::Composed => {
            proof {
                assert(show_stmts_v(*w) =~= Seq::<StmtV>::empty());
                assert(stmts_view(out@) + show_stmts_v(*w) =~= stmts_view(out@));
            }
        },
    }
    let ghost prev3 = out@;
    out.append(&mut visible_properties);
    proof {
        assert(stmts_view(out@) =~= stmts_view(prev3) + visible_stmts_v(*w));
    }
    let mut child_props = gen_set_child_prop_calls(w, parent);
    let ghost prev4 = out@;
    out.append(&mut child_props);
    proof {
        assert(stmts_view(out@) =~= stmts_view(prev4) + child_prop_stmts_v(
            *w,
            parent_view(parent),
        ));
    }
    let mut event_stmts = collect_events(w);
    let ghost prev5 = out@;
    out.append(&mut event_stmts);
    proof {
        assert(stmts_view(out@) =~= stmts_view(prev5) + event_stmts_v(*w));
        assert(stmts_view(out@) =~= node_stmts(*w, parent_view(parent)));
    }
    out
}

} // verus!
