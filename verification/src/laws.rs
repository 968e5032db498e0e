//! Ordering guarantees of the emitted statement sequence.

use vstd::prelude::*;
use crate::ast::{WidgetKind, WidgetNode, strings_view};
use crate::emit::{
    children_stmts, construct_stmts_v, child_prop_stmts_v, insert_stmts_v, node_stmts,
    prop_stmts_v, show_stmts_v, visible_stmts_v,
};
use crate::events::event_stmts_v;
use crate::stmt::StmtV;

verus! {

/// For every widget, the `visible` property's setter statements come
/// strictly after that widget's show statement and after all of its
/// children's statements.
///
/// In the statement sequence of any node, the children's statements occupy
/// the range from `cstart` to `cend`, the show statement (for a Primitive
/// node) stands at `show_at`, and every `visible` setter stands in the range
/// from `vstart` on — strictly after both, since `cend <= show_at < vstart`.
pub proof fn lemma_visible_after_show_and_children(
    w: WidgetNode,
    parent: Option<(Seq<char>, WidgetKind)>,
)
    ensures
        ({
            let s = node_stmts(w, parent);
            let cstart = construct_stmts_v(w, parent).len() + prop_stmts_v(w).len();
            let cend = cstart + children_stmts(w.children@, w.name@, w.kind).len();
            let show_at = cend + insert_stmts_v(w, parent).len();
            let vstart = show_at + show_stmts_v(w).len();
            let vend = vstart + visible_stmts_v(w).len();
            &&& vend <= s.len()
            &&& cend <= show_at <= vstart <= vend
            &&& w.kind == WidgetKind::Primitive ==> show_at < vstart && s[show_at as int]
                == (StmtV::ShowV { widget: w.name@ })
            &&& forall|k: int|
                vstart <= k < vend ==> s[k] == visible_stmts_v(w)[k - vstart]
            &&& forall|k: int|
                cstart <= k < cend ==> s[k] == children_stmts(w.children@, w.name@, w.kind)[k
                    - cstart]
        }),
{
    let s = node_stmts(w, parent);
    let a = construct_stmts_v(w, parent);
    let b = prop_stmts_v(w);
    let c = children_stmts(w.children@, w.name@, w.kind);
    let d = insert_stmts_v(w, parent);
    let e = show_stmts_v(w);
    let f = visible_stmts_v(w);
    let g = child_prop_stmts_v(w, parent);
    let h = event_stmts_v(w);
    assert(s == a + b + c + d + e + f + g + h);
    let cstart = a.len() + b.len();
    let cend = cstart + c.len();
    let show_at = cend + d.len();
    let vstart = show_at + e.len();
    let vend = vstart + f.len();
    assert(s.len() == vend + g.len() + h.len());
    if w.kind == WidgetKind::Primitive {
        assert(e == seq![StmtV::ShowV { widget: w.name@ }]);
        assert(s[show_at as int] == StmtV::ShowV { widget: w.name@ });
    }
    assert forall|k: int| vstart <= k < vend implies s[k] == f[k - vstart] by {
        assert(s[k] == (a + b + c + d + e + f)[k]);
    }
    assert forall|k: int| cstart <= k < cend implies s[k] == c[k - cstart] by {
        assert(s[k] == (a + b + c)[k]);
    }
}

/// A Primitive widget with no constructor arguments always opens its
/// statement sequence with the generic-construct-then-downcast statement;
/// one with arguments opens it with a direct typed constructor call carrying
/// the arguments in declared order.
pub proof fn lemma_primitive_construct_first(
    w: WidgetNode,
    parent: Option<(Seq<char>, WidgetKind)>,
)
    requires
        w.kind == WidgetKind::Primitive,
    ensures
        node_stmts(w, parent).len() > 0,
        w.init_parameters@.len() == 0 ==> node_stmts(w, parent)[0] == (StmtV::GenericConstructV {
            name: w.name@,
            typ: w.type_reference.view_segments(),
        }),
        w.init_parameters@.len() > 0 ==> node_stmts(w, parent)[0] == (StmtV::TypedConstructV {
            name: w.name@,
            typ: w.type_reference.view_segments(),
            params: strings_view(w.init_parameters@),
        }),
{
    let s = node_stmts(w, parent);
    let a = construct_stmts_v(w, parent);
    assert(a.len() == 1);
    assert(s[0] == a[0]);
}

} // verus!

