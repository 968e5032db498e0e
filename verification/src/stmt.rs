//! The statements the lowering pass emits.
//!
//! The output of the pass is a linear sequence of `Stmt` values; a renderer
//! for a concrete host toolkit turns each into one imperative statement.  The
//! mathematical model of a statement is `StmtV`, with every identifier viewed
//! as its character sequence.

use vstd::prelude::*;
use crate::ast::{
    Expr, EventTarget, PolicyV, ReturnPolicy, TypePath, WidgetKind, expr_chars, policy_view,
    strings_view, target_view,
};

verus! {

/// How a connect statement reaches the widget whose trigger it wires.
#[derive(Clone, PartialEq, Eq, Debug)]
pub enum EventAccessor {
    /// The widget itself, by name.
    Widget(String),
    /// A named child of a widget, reached through the owner's accessor.
    ChildGetter { widget: String, child: String },
}

/// One emitted statement.
#[derive(Clone, PartialEq, Eq, Debug)]
pub enum Stmt {
    /// Construct a Primitive widget that has no typed constructor arguments:
    /// create an object of the declared type generically, then downcast it to
    /// the static declared type.
    GenericConstruct { name: String, typ: TypePath },
    /// Construct a Primitive widget by a direct typed constructor call with
    /// the given arguments in order.
    TypedConstruct { name: String, typ: TypePath, params: Vec<String> },
    /// Create a nested component at the tree root, sharing the enclosing
    /// message-loop handle and passing the arguments to the child model's
    /// initializer.
    CreateComponent { name: String, typ: TypePath, params: Vec<String> },
    /// Create a nested component and attach it to its parent container in one
    /// operation; `parent_kind` selects the toolkit-native or the
    /// reactive-container attach operation.
    AddComponent {
        name: String,
        typ: TypePath,
        parent: String,
        parent_kind: WidgetKind,
        params: Vec<String>,
    },
    /// Call the setter named by convention after `key` on the widget, with the
    /// rewritten expression as argument.
    SetProperty { widget: String, widget_kind: WidgetKind, key: String, value: Expr },
    /// Attach a Primitive widget to its parent container; `parent_kind`
    /// selects the toolkit-native or the reactive-container add operation.
    AddToParent { child: String, parent: String, parent_kind: WidgetKind },
    /// Make a Primitive widget visible.
    Show { widget: String },
    /// Call the child-property setter named after `key` on the parent's
    /// container accessor, passing a reference to the child's root and the
    /// rewritten expression.
    SetChildProperty {
        parent: String,
        parent_kind: WidgetKind,
        child: String,
        child_kind: WidgetKind,
        key: String,
        value: Expr,
    },
    /// Wire one event binding: connect the trigger of `event_name` on the
    /// accessed widget so that it feeds the target message sink under the
    /// given return policy.  When `declares_clone` is set, the statement first
    /// materializes a clone of the weak back-reference handle for this widget;
    /// later bindings on the same widget reuse it.
    Connect {
        accessor: EventAccessor,
        widget_kind: WidgetKind,
        event_name: String,
        params: Vec<String>,
        target: EventTarget,
        policy: ReturnPolicy,
        declares_clone: bool,
    },
    /// Wrap the component state into its shared, mutably-borrowable handle:
    /// the root widget and every stored widget become fields of the component
    /// record.
    WrapComponent { component: String, root_field: String, fields: Vec<String> },
}

/// The model of an event accessor.
pub enum AccessorV {
    WidgetV(Seq<char>),
    ChildGetterV(Seq<char>, Seq<char>),
}

/// The model of an emitted statement.
pub enum StmtV {
    GenericConstructV { name: Seq<char>, typ: Seq<Seq<char>> },
    TypedConstructV { name: Seq<char>, typ: Seq<Seq<char>>, params: Seq<Seq<char>> },
    CreateComponentV { name: Seq<char>, typ: Seq<Seq<char>>, params: Seq<Seq<char>> },
    AddComponentV {
        name: Seq<char>,
        typ: Seq<Seq<char>>,
        parent: Seq<char>,
        parent_kind: WidgetKind,
        params: Seq<Seq<char>>,
    },
    SetPropertyV { widget: Seq<char>, widget_kind: WidgetKind, key: Seq<char>, value: Seq<char> },
    AddToParentV { child: Seq<char>, parent: Seq<char>, parent_kind: WidgetKind },
    ShowV { widget: Seq<char> },
    SetChildPropertyV {
        parent: Seq<char>,
        parent_kind: WidgetKind,
        child: Seq<char>,
        child_kind: WidgetKind,
        key: Seq<char>,
        value: Seq<char>,
    },
    ConnectV {
        accessor: AccessorV,
        widget_kind: WidgetKind,
        event_name: Seq<char>,
        params: Seq<Seq<char>>,
        target: Option<Seq<char>>,
        policy: PolicyV,
        declares_clone: bool,
    },
    WrapComponentV { component: Seq<char>, root_field: Seq<char>, fields: Seq<Seq<char>> },
}

/// The model of one emitted statement.
pub open spec fn stmt_view(s: Stmt) -> StmtV {
    match s {
        Stmt::GenericConstruct { name, typ } => StmtV::GenericConstructV {
            name: name@,
            typ: typ.view_segments(),
        },
        Stmt::TypedConstruct { name, typ, params } => StmtV::TypedConstructV {
            name: name@,
            typ: typ.view_segments(),
            params: strings_view(params@),
        },
        Stmt::CreateComponent { name, typ, params } => StmtV::CreateComponentV {
            name: name@,
            typ: typ.view_segments(),
            params: strings_view(params@),
        },
        Stmt::AddComponent { name, typ, parent, parent_kind, params } => StmtV::AddComponentV {
            name: name@,
            typ: typ.view_segments(),
            parent: parent@,
            parent_kind: parent_kind,
            params: strings_view(params@),
        },
        Stmt::SetProperty { widget, widget_kind, key, value } => StmtV::SetPropertyV {
            widget: widget@,
            widget_kind: widget_kind,
            key: key@,
            value: expr_chars(value),
        },
        Stmt::AddToParent { child, parent, parent_kind } => StmtV::AddToParentV {
            child: child@,
            parent: parent@,
            parent_kind: parent_kind,
        },
        Stmt::Show { widget } => StmtV::ShowV { widget: widget@ },
        Stmt::SetChildProperty { parent, parent_kind, child, child_kind, key, value } => StmtV::SetChildPropertyV {
            parent: parent@,
            parent_kind: parent_kind,
            child: child@,
            child_kind: child_kind,
            key: key@,
            value: expr_chars(value),
        },
        Stmt::Connect { accessor, widget_kind, event_name, params, target, policy, declares_clone } => StmtV::ConnectV {
            accessor: match accessor {
                EventAccessor::Widget(n) => AccessorV::WidgetV(n@),
                EventAccessor::ChildGetter { widget, child } => AccessorV::ChildGetterV(widget@, child@),
            },
            widget_kind: widget_kind,
            event_name: event_name@,
            params: strings_view(params@),
            target: target_view(target),
            policy: policy_view(policy),
            declares_clone: declares_clone,
        },
        Stmt::WrapComponent { component, root_field, fields } => StmtV::WrapComponentV {
            component: component@,
            root_field: root_field@,
            fields: strings_view(fields@),
        },
    }
}

/// The model of a sequence of emitted statements.
pub open spec fn stmts_view(v: Seq<Stmt>) -> Seq<StmtV> {
    v.map_values(|s: Stmt| stmt_view(s))
}

} // verus!
