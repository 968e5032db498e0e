//! The widget tree that the lowering pass consumes.
//!
//! A tree is produced by an external parser and is immutable during lowering.
//! Identifiers and expressions are carried as plain strings; a type is carried
//! as its path segments, since the only part of a type the pass ever inspects
//! is its first segment.

use vstd::prelude::*;

verus! {

/// The two kinds of widget a tree node can declare.
///
/// A `Primitive` node is instantiated directly from the host toolkit's native
/// widget types; a `Composed` node is instantiated as a nested reactive
/// component with its own model and message loop.
#[derive(Clone, Copy, PartialEq, Eq, Structural, Debug)]
pub enum WidgetKind {
    Primitive,
    Composed,
}

/// A type reference, kept as its path segments.
#[derive(Clone, PartialEq, Eq, Debug)]
pub struct TypePath {
    pub segments: Vec<String>,
}

impl TypePath {
    /// The sequence of segment views.
    pub open spec fn view_segments(self) -> Seq<Seq<char>> {
        self.segments@.map_values(|s: String| s@)
    }
}

/// One piece of a property-value expression as the parser delivers it: either
/// plain text, or text wrapped in the internal marker syntax that must be
/// stripped before the expression is spliced into generated code.
#[derive(Clone, PartialEq, Eq, Debug)]
pub enum ExprPart {
    Text(String),
    Marked(String),
}

/// A property-value expression: an ordered sequence of parts.
#[derive(Clone, PartialEq, Eq, Debug)]
pub struct Expr {
    pub parts: Vec<ExprPart>,
}

/// The text a part contributes once marker syntax is stripped.
pub open spec fn part_chars(p: ExprPart) -> Seq<char> {
    match p {
        ExprPart::Text(s) => s@,
        ExprPart::Marked(s) => s@,
    }
}

/// Whether a part still carries marker syntax.
pub open spec fn part_is_marked(p: ExprPart) -> bool {
    match p {
        ExprPart::Text(_) => false,
        ExprPart::Marked(_) => true,
    }
}

/// The text of a whole expression once marker syntax is stripped.
pub open spec fn expr_chars_seq(parts: Seq<ExprPart>) -> Seq<char>
    decreases parts,
{
    if parts.len() == 0 {
        Seq::empty()
    } else {
        part_chars(parts[0]) + expr_chars_seq(parts.drop_first())
    }
}

/// The text of a whole expression once marker syntax is stripped.
pub open spec fn expr_chars(e: Expr) -> Seq<char> {
    expr_chars_seq(e.parts@)
}

/// An expression is rewritten when no part carries marker syntax.
pub open spec fn expr_is_rewritten(e: Expr) -> bool {
    forall|i: int| 0 <= i < e.parts@.len() ==> !part_is_marked(#[trigger] e.parts@[i])
}

/// A container attachment-point discriminant: the default slot, or a named one.
#[derive(Clone, PartialEq, Eq, Debug)]
pub enum Discriminant {
    DefaultSlot,
    Named(String),
}

/// The discriminant as an optional name; the default slot is `None`.
pub open spec fn disc_view(d: Discriminant) -> Option<Seq<char>> {
    match d {
        Discriminant::DefaultSlot => None,
        Discriminant::Named(s) => Some(s@),
    }
}

/// Where an event binding sends its message.
#[derive(Clone, PartialEq, Eq, Debug)]
pub enum EventTarget {
    /// The enclosing component's own message sink.
    CurrentWidget,
    /// The message sink of a different, already-declared widget.
    ForeignWidget(String),
}

/// What an event binding does about the toolkit callback's return value.
#[derive(Clone, PartialEq, Eq, Debug)]
pub enum ReturnPolicy {
    /// Feed `message` into the target sink; the callback returns nothing.
    NoReturn { message: String },
    /// Feed `message` into the target sink and evaluate `value` as the
    /// toolkit-required callback return value.
    ReturnValue { message: String, value: String },
    /// Invoke `function` to compute the callback's return value, granting it
    /// read access to the model through the weak back-reference only when
    /// `uses_model` is set.
    ComputedReturn { function: String, uses_model: bool },
}

/// One event binding on a widget.
#[derive(Clone, PartialEq, Eq, Debug)]
pub struct EventBinding {
    /// Parameter names bound by the trigger, in order.
    pub trigger_params: Vec<String>,
    pub target: EventTarget,
    pub return_policy: ReturnPolicy,
}

/// An event binding on a named child exposed by a widget through an accessor.
#[derive(Clone, PartialEq, Eq, Debug)]
pub struct ChildEvent {
    /// The accessor naming the child on its owner.
    pub child_accessor: String,
    pub event_name: String,
    pub binding: EventBinding,
}

/// One node of the widget tree.
pub struct WidgetNode {
    /// Unique identifier of this widget within the tree.
    pub name: String,
    /// The declared widget or component type.
    pub type_reference: TypePath,
    pub kind: WidgetKind,
    /// Whether the author asked for this widget to be kept as a stored field.
    pub save: bool,
    /// Ordered key-to-expression property assignments.
    pub properties: Vec<(String, Expr)>,
    /// Ordered key-to-expression assignments interpreted by the parent container.
    pub child_properties: Vec<(String, Expr)>,
    /// Constructor arguments, possibly empty.
    pub init_parameters: Vec<String>,
    /// Set when this node declares a container attachment point.
    pub container_discriminant: Option<Discriminant>,
    /// Child widgets in declaration order.
    pub children: Vec<WidgetNode>,
    /// Event bindings: event name to its ordered bindings.
    pub events: Vec<(String, Vec<EventBinding>)>,
    /// Event bindings on named children reached through accessors.
    pub child_events: Vec<ChildEvent>,
}

/// Whether a binding carries no return policy.
pub open spec fn is_no_return(b: EventBinding) -> bool {
    b.return_policy matches ReturnPolicy::NoReturn { .. }
}

/// A foreign-target binding must carry no return policy: the toolkit's return
/// value belongs to the widget the trigger fires on, so the parser never
/// produces the combination.  The condition covers one node, ignoring its
/// children.
pub open spec fn node_bindings_wf(w: WidgetNode) -> bool {
    &&& forall|i: int, j: int|
        0 <= i < w.events@.len() && 0 <= j < w.events@[i].1@.len() && ((
        #[trigger] w.events@[i].1@[j]).target matches EventTarget::ForeignWidget(_))
            ==> is_no_return(w.events@[i].1@[j])
    &&& forall|i: int|
        0 <= i < w.child_events@.len()
            && ((#[trigger] w.child_events@[i]).binding.target matches EventTarget::ForeignWidget(
            _,
        )) ==> is_no_return(w.child_events@[i].binding)
}

/// `node_bindings_wf` over the whole tree.
pub open spec fn tree_wf(w: WidgetNode) -> bool
    decreases w,
{
    &&& node_bindings_wf(w)
    &&& forall|i: int| 0 <= i < w.children@.len() ==> tree_wf(#[trigger] w.children@[i])
}

/// A Composed node supports only message-feeding bindings: every binding of
/// its own `events` list must carry no return policy.  The condition covers
/// one node, ignoring its children.
pub open spec fn node_events_ok(w: WidgetNode) -> bool {
    w.kind == WidgetKind::Composed ==> forall|i: int, j: int|
        0 <= i < w.events@.len() && 0 <= j < w.events@[i].1@.len() ==> is_no_return(
            #[trigger] w.events@[i].1@[j],
        )
}

/// `node_events_ok` over the whole tree.
pub open spec fn tree_events_ok(w: WidgetNode) -> bool
    decreases w,
{
    &&& node_events_ok(w)
    &&& forall|i: int| 0 <= i < w.children@.len() ==> tree_events_ok(#[trigger] w.children@[i])
}

/// The model of one event binding.
pub struct BindingV {
    pub params: Seq<Seq<char>>,
    pub target: Option<Seq<char>>,
    pub policy: PolicyV,
}

/// The model of one event binding.
pub open spec fn binding_view(b: EventBinding) -> BindingV {
    BindingV {
        params: strings_view(b.trigger_params@),
        target: target_view(b.target),
        policy: policy_view(b.return_policy),
    }
}

/// The bindings of one node's own `events` list, flattened in declaration
/// order to (event name, binding) pairs.
pub open spec fn flat_bindings(events: Seq<(String, Vec<EventBinding>)>) -> Seq<
    (Seq<char>, BindingV),
>
    decreases events,
{
    if events.len() == 0 {
        Seq::empty()
    } else {
        Seq::new(
            events[0].1@.len(),
            |j: int| (events[0].0@, binding_view(events[0].1@[j])),
        ) + flat_bindings(events.drop_first())
    }
}

/// The views of a sequence of plain strings.
pub open spec fn strings_view(v: Seq<String>) -> Seq<Seq<char>> {
    v.map_values(|s: String| s@)
}

/// The model of an event target: `None` is the enclosing component's own sink.
pub open spec fn target_view(t: EventTarget) -> Option<Seq<char>> {
    match t {
        EventTarget::CurrentWidget => None,
        EventTarget::ForeignWidget(n) => Some(n@),
    }
}

/// The model of a return policy.
pub enum PolicyV {
    NoReturnV(Seq<char>),
    ReturnValueV(Seq<char>, Seq<char>),
    ComputedReturnV(Seq<char>, bool),
}

/// The model of a return policy.
pub open spec fn policy_view(p: ReturnPolicy) -> PolicyV {
    match p {
        ReturnPolicy::NoReturn { message } => PolicyV::NoReturnV(message@),
        ReturnPolicy::ReturnValue { message, value } => PolicyV::ReturnValueV(message@, value@),
        ReturnPolicy::ComputedReturn { function, uses_model } => PolicyV::ComputedReturnV(
            function@,
            uses_model,
        ),
    }
}

/// A value-preserving copy of a list of strings.
pub fn clone_strings(v: &Vec<String>) -> (r: Vec<String>)
    ensures
        strings_view(r@) == strings_view(v@),
{
    let mut out: Vec<String> = Vec::new();
    let mut i: usize = 0;
    while i < v.len()
        invariant
            i <= v@.len(),
            out@.len() == i,
            forall|k: int| 0 <= k < i ==> (#[trigger] out@[k])@ == v@[k]@,
        decreases v@.len() - i,
    {
        out.push(v[i].clone());
        i = i + 1;
    }
    proof {
        assert(strings_view(out@) =~= strings_view(v@));
    }
    out
}

/// A value-preserving copy of a type path.
pub fn clone_type_path(t: &TypePath) -> (r: TypePath)
    ensures
        r.view_segments() == t.view_segments(),
{
    TypePath { segments: clone_strings(&t.segments) }
}

/// A value-preserving copy of a discriminant.
pub fn clone_disc(d: &Discriminant) -> (r: Discriminant)
    ensures
        disc_view(r) == disc_view(*d),
{
    match d {
        Discriminant::DefaultSlot => Discriminant::DefaultSlot,
        Discriminant::Named(s) => Discriminant::Named(s.clone()),
    }
}

/// A value-preserving copy of an event target.
pub fn clone_target(t: &EventTarget) -> (r: EventTarget)
    ensures
        target_view(r) == target_view(*t),
{
    match t {
        EventTarget::CurrentWidget => EventTarget::CurrentWidget,
        EventTarget::ForeignWidget(n) => EventTarget::ForeignWidget(n.clone()),
    }
}

/// A value-preserving copy of a return policy.
pub fn clone_policy(p: &ReturnPolicy) -> (r: ReturnPolicy)
    ensures
        policy_view(r) == policy_view(*p),
{
    match p {
        ReturnPolicy::NoReturn { message } => ReturnPolicy::NoReturn { message: message.clone() },
        ReturnPolicy::ReturnValue { message, value } => ReturnPolicy::ReturnValue {
            message: message.clone(),
            value: value.clone(),
        },
        ReturnPolicy::ComputedReturn { function, uses_model } => ReturnPolicy::ComputedReturn {
            function: function.clone(),
            uses_model: *uses_model,
        },
    }
}

/// Whether this node is recorded in the widget-name-to-component-type mapping:
/// Composed nodes always, Primitive nodes when saved, and every attachment
/// point, because the enclosing capability implementation must address it.
pub open spec fn is_saved(w: WidgetNode) -> bool {
    ||| w.kind == WidgetKind::Composed
    ||| w.save
    ||| w.container_discriminant is Some
}

} // verus!
