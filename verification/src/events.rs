//! The event wiring generator.
//!
//! Each event binding becomes one connect statement.  A Primitive widget is
//! wired through a toolkit signal connection and supports every binding
//! shape; a Composed widget is wired by subscribing to the child component's
//! own message stream and supports only message-feeding bindings — a
//! `ReturnValue` or `ComputedReturn` binding on a Composed widget fails
//! compilation with `UnsupportedEventShape`.

use vstd::prelude::*;
use crate::ast::{
    BindingV, ChildEvent, EventBinding, ReturnPolicy, WidgetKind, WidgetNode, binding_view,
    clone_policy, clone_strings, clone_target, flat_bindings, is_no_return, is_saved,
    node_events_ok, tree_events_ok,
};
use crate::error::CompileError;
use crate::stmt::{AccessorV, EventAccessor, Stmt, StmtV, stmt_view, stmts_view};

verus! {

/// The connect statement for one binding of a widget's own events.
pub open spec fn connect_v(
    wname: Seq<char>,
    wkind: WidgetKind,
    event_name: Seq<char>,
    b: BindingV,
    declares_clone: bool,
) -> StmtV {
    StmtV::ConnectV {
        accessor: AccessorV::WidgetV(wname),
        widget_kind: wkind,
        event_name: event_name,
        params: b.params,
        target: b.target,
        policy: b.policy,
        declares_clone: declares_clone,
    }
}

/// The connect statements for a flattened list of own-event bindings.  When
/// `save` is set, the first statement materializes the clone of the weak
/// back-reference handle; the following ones reuse it.
pub open spec fn connect_seq_v(
    bs: Seq<(Seq<char>, BindingV)>,
    wname: Seq<char>,
    wkind: WidgetKind,
    save: bool,
) -> Seq<StmtV> {
    Seq::new(bs.len(), |k: int| connect_v(wname, wkind, bs[k].0, bs[k].1, save && k == 0))
}

/// The connect statement for one binding on a named child reached through an
/// accessor.  Such a binding is wired as a toolkit signal connection and
/// never materializes the clone of the back-reference handle.
pub open spec fn child_connect_v(wname: Seq<char>, ce: ChildEvent) -> StmtV {
    StmtV::ConnectV {
        accessor: AccessorV::ChildGetterV(wname, ce.child_accessor@),
        widget_kind: WidgetKind::Primitive,
        event_name: ce.event_name@,
        params: binding_view(ce.binding).params,
        target: binding_view(ce.binding).target,
        policy: binding_view(ce.binding).policy,
        declares_clone: false,
    }
}

/// All connect statements of one node: its own events in declaration order,
/// then its child events in declaration order.
pub open spec fn event_stmts_v(w: WidgetNode) -> Seq<StmtV> {
    connect_seq_v(flat_bindings(w.events@), w.name@, w.kind, is_saved(w)) + Seq::new(
        w.child_events@.len(),
        |k: int| child_connect_v(w.name@, w.child_events@[k]),
    )
}

/// The flattened bindings of an event list grow by one event's bindings.
pub proof fn lemma_flat_take(events: Seq<(String, Vec<EventBinding>)>, i: int)
    requires
        0 <= i < events.len(),
    ensures
        flat_bindings(events.take(i + 1)) == flat_bindings(events.take(i)) + Seq::new(
            events[i].1@.len(),
            |j: int| (events[i].0@, binding_view(events[i].1@[j])),
        ),
    decreases events.len(),
{
    if i == 0 {
        reveal_with_fuel(flat_bindings, 2);
        assert(events.take(1).drop_first() =~= Seq::<(String, Vec<EventBinding>)>::empty());
        assert(events.take(1)[0] == events[0]);
        assert(events.take(0) =~= Seq::<(String, Vec<EventBinding>)>::empty());
        assert(flat_bindings(events.take(i + 1)) =~= flat_bindings(events.take(i)) + Seq::new(
            events[i].1@.len(),
            |j: int| (events[i].0@, binding_view(events[i].1@[j])),
        ));
    } else {
        lemma_flat_take(events.drop_first(), i - 1);
        assert(events.take(i + 1).drop_first() =~= events.drop_first().take(i));
        assert(events.take(i).drop_first() =~= events.drop_first().take(i - 1));
        assert(events.take(i + 1)[0] == events[0]);
        assert(events.take(i)[0] == events[0]);
        assert(events.drop_first()[i - 1] == events[i]);
        assert(flat_bindings(events.take(i + 1)) =~= flat_bindings(events.take(i)) + Seq::new(
            events[i].1@.len(),
            |j: int| (events[i].0@, binding_view(events[i].1@[j])),
        ));
    }
}

/// Build the connect statement for one own-event binding.
pub fn collect_event(
    widget_name: &String,
    widget_kind: WidgetKind,
    declares_clone: bool,
    event_name: &String,
    b: &EventBinding,
) -> (s: Stmt)
    ensures
        stmt_view(s) == connect_v(
            widget_name@,
            widget_kind,
            event_name@,
            binding_view(*b),
            declares_clone,
        ),
{
    Stmt::Connect {
        accessor: EventAccessor::Widget(widget_name.clone()),
        widget_kind,
        event_name: event_name.clone(),
        params: clone_strings(&b.trigger_params),
        target: clone_target(&b.target),
        policy: clone_policy(&b.return_policy),
        declares_clone,
    }
}

/// Build the connect statement for one child-event binding.
pub fn collect_child_event(widget_name: &String, ce: &ChildEvent) -> (s: Stmt)
    ensures
        stmt_view(s) == child_connect_v(widget_name@, *ce),
{
    Stmt::Connect {
        accessor: EventAccessor::ChildGetter {
            widget: widget_name.clone(),
            child: ce.child_accessor.clone(),
        },
        widget_kind: WidgetKind::Primitive,
        event_name: ce.event_name.clone(),
        params: clone_strings(&ce.binding.trigger_params),
        target: clone_target(&ce.binding.target),
        policy: clone_policy(&ce.binding.return_policy),
        declares_clone: false,
    }
}

/// Build every connect statement of one node, own events first, then child
/// events, each list in declaration order.
pub fn collect_events(w: &WidgetNode) -> (out: Vec<Stmt>)
    ensures
        stmts_view(out@) == event_stmts_v(*w),
{
    let save = is_saved_exec(w);
    let mut out: Vec<Stmt> = Vec::new();
    let mut i: usize = 0;
    while i < w.events.len()
        invariant
            i <= w.events@.len(),
            save == is_saved(*w),
            out@.len() == flat_bindings(w.events@.take(i as int)).len(),
            stmts_view(out@) == connect_seq_v(
                flat_bindings(w.events@.take(i as int)),
                w.name@,
                w.kind,
                save,
            ),
        decreases w.events@.len() - i,
    {
        let ghost done = flat_bindings(w.events@.take(i as int));
        let bindings = &w.events[i].1;
        let event_name = &w.events[i].0;
        let mut j: usize = 0;
        while j < bindings.len()
            invariant
                j <= bindings@.len(),
                save == is_saved(*w),
                bindings@ == w.events@[i as int].1@,
                event_name@ == w.events@[i as int].0@,
                i < w.events@.len(),
                done == flat_bindings(w.events@.take(i as int)),
                out@.len() == done.len() + j,
                stmts_view(out@) == connect_seq_v(
                    done + Seq::new(
                        j as nat,
                        |jj: int| (w.events@[i as int].0@, binding_view(w.events@[i as int].1@[jj])),
                    ),
                    w.name@,
                    w.kind,
                    save,
                ),
            decreases bindings@.len() - j,
        {
            let declares = save && out.len() == 0;
            let ghost prev = out@;
            let s = collect_event(&w.name, w.kind, declares, event_name, &bindings[j]);
            out.push(s);
            proof {
                let part = Seq::new(
                    j as nat + 1,
                    |jj: int| (w.events@[i as int].0@, binding_view(w.events@[i as int].1@[jj])),
                );
                let prevpart = Seq::new(
                    j as nat,
                    |jj: int| (w.events@[i as int].0@, binding_view(w.events@[i as int].1@[jj])),
                );
                let lhs = stmts_view(out@);
                let rhs = connect_seq_v(done + part, w.name@, w.kind, save);
                assert forall|k: int| 0 <= k < lhs.len() implies lhs[k] == rhs[k] by {
                    assert(lhs[k] == stmt_view(out@[k]));
                    if k < prev.len() {
                        assert(out@[k] == prev[k]);
                        assert(stmts_view(prev)[k] == stmt_view(prev[k]));
                        assert(stmts_view(prev)[k] == connect_seq_v(
                            done + prevpart,
                            w.name@,
                            w.kind,
                            save,
                        )[k]);
                        assert((done + prevpart)[k] == (done + part)[k]);
                    } else {
                        assert(out@[k] == s);
                        assert((done + part)[k] == part[k - done.len()]);
                        assert(part[k - done.len()] == (
                            w.events@[i as int].0@,
                            binding_view(w.events@[i as int].1@[j as int]),
                        ));
                        assert(stmt_view(s) == connect_v(
                            w.name@,
                            w.kind,
                            w.events@[i as int].0@,
                            binding_view(w.events@[i as int].1@[j as int]),
                            declares,
                        ));
                    }
                }
                assert(lhs =~= rhs);
            }
            j = j + 1;
        }
        proof {
            lemma_flat_take(w.events@, i as int);
            assert(stmts_view(out@) =~= connect_seq_v(
                flat_bindings(w.events@.take(i as int + 1)),
                w.name@,
                w.kind,
                save,
            ));
        }
        i = i + 1;
    }
    proof {
        assert(w.events@.take(w.events@.len() as int) =~= w.events@);
    }
    let mut c: usize = 0;
    while c < w.child_events.len()
        invariant
            c <= w.child_events@.len(),
            stmts_view(out@) == connect_seq_v(
                flat_bindings(w.events@),
                w.name@,
                w.kind,
                is_saved(*w),
            ) + Seq::new(c as nat, |k: int| child_connect_v(w.name@, w.child_events@[k])),
        decreases w.child_events@.len() - c,
    {
        let ghost prev = out@;
        let s = collect_child_event(&w.name, &w.child_events[c]);
        out.push(s);
        proof {
            let own = connect_seq_v(flat_bindings(w.events@), w.name@, w.kind, is_saved(*w));
            let lhs = stmts_view(out@);
            let rhs = own + Seq::new(
                c as nat + 1,
                |k: int| child_connect_v(w.name@, w.child_events@[k]),
            );
            assert(prev.len() == stmts_view(prev).len());
            assert(prev.len() == own.len() + c);
            assert forall|k: int| 0 <= k < lhs.len() implies lhs[k] == rhs[k] by {
                assert(lhs[k] == stmt_view(out@[k]));
                if k < prev.len() {
                    assert(out@[k] == prev[k]);
                    assert(stmts_view(prev)[k] == stmt_view(prev[k]));
                } else {
                    assert(out@[k] == s);
                    assert(rhs[k] == child_connect_v(w.name@, w.child_events@[c as int]));
                }
            }
            assert(lhs =~= rhs);
        }
        c = c + 1;
    }
    proof {
        assert(stmts_view(out@) =~= event_stmts_v(*w));
    }
    out
}

/// Whether this node is recorded in the name-to-component-type mapping.
pub fn is_saved_exec(w: &WidgetNode) -> (r: bool)
    ensures
        r == is_saved(*w),
{
    match w.kind {
        WidgetKind::Composed => true,
        WidgetKind::Primitive => w.save || w.container_discriminant.is_some(),
    }
}

/// Check one node's own bindings: on a Composed node, a binding with a
/// `ReturnValue` or `ComputedReturn` policy fails with
/// `UnsupportedEventShape` naming the widget and the event.
pub fn validate_node_events(w: &WidgetNode) -> (r: Result<(), CompileError>)
    ensures
        r is Ok <==> node_events_ok(*w),
        r is Err ==> r matches Err(CompileError::UnsupportedEventShape { .. }),
{
    match w.kind {
        WidgetKind::Primitive => Ok(()),
        WidgetKind::Composed => {
            let mut i: usize = 0;
            while i < w.events.len()
                invariant
                    i <= w.events@.len(),
                    w.kind == WidgetKind::Composed,
                    forall|ii: int, jj: int|
                        0 <= ii < i && 0 <= jj < w.events@[ii].1@.len() ==> is_no_return(
                            #[trigger] w.events@[ii].1@[jj],
                        ),
                decreases w.events@.len() - i,
            {
                let bindings = &w.events[i].1;
                let mut j: usize = 0;
                while j < bindings.len()
                    invariant
                        j <= bindings@.len(),
                        i < w.events@.len(),
                        w.kind == WidgetKind::Composed,
                        bindings@ == w.events@[i as int].1@,
                        forall|jj: int|
                            0 <= jj < j ==> is_no_return(#[trigger] w.events@[i as int].1@[jj]),
                    decreases bindings@.len() - j,
                {
                    match &bindings[j].return_policy {
                        ReturnPolicy::NoReturn { .. } => {},
                        _ => {
                            proof {
                                assert(!is_no_return(w.events@[i as int].1@[j as int]));
                                assert(!node_events_ok(*w));
                            }
                            return Err(
                                CompileError::UnsupportedEventShape {
                                    widget: w.name.clone(),
                                    event_name: w.events[i].0.clone(),
                                },
                            );
                        },
                    }
                    j = j + 1;
                }
                i = i + 1;
            }
            Ok(())
        },
    }
}

/// Check every node of the tree with `validate_node_events`, parents before
/// children and children in declaration order.
pub fn validate_events(w: &WidgetNode) -> (r: Result<(), CompileError>)
    ensures
        r is Ok <==> tree_events_ok(*w),
        r is Err ==> r matches Err(CompileError::UnsupportedEventShape { .. }),
    decreases *w,
{
    match validate_node_events(w) {
        Ok(()) => {},
        Err(e) => {
            return Err(e);
        },
    }
    let mut i: usize = 0;
    while i < w.children.len()
        invariant
            i <= w.children@.len(),
            node_events_ok(*w),
            forall|k: int| 0 <= k < i ==> tree_events_ok(#[trigger] w.children@[k]),
        decreases w.children@.len() - i,
    {
        match validate_events(&w.children[i]) {
            Ok(()) => {},
            Err(e) => {
                return Err(e);
            },
        }
        i = i + 1;
    }
    Ok(())
}

} // verus!
