//! The capability (container) trait synthesizer.
//!
//! After the walk, the attachment points collected in the registry become an
//! implementation fragment exposing the default container and — when more
//! than one attachment point exists — a dispatcher that routes an added
//! widget to the container whose tag matches its declared attachment point,
//! falling back to the default container.

use vstd::prelude::*;
use crate::ast::{TypePath, WidgetKind, WidgetNode, clone_strings, clone_type_path, strings_view};
use crate::error::CompileError;
use crate::registry::{ContainerRegistry, EntryV, RegistryEntry, has_key, unique_keys};

verus! {

/// How a container is driven: through the host toolkit's native container
/// operations, or through the reactive runtime's container operations.
#[derive(Clone, Copy, PartialEq, Eq, Structural, Debug)]
pub enum ContainerKind {
    Toolkit,
    Reactive,
}

/// A type drives its container through the toolkit exactly when the first
/// segment of its path names the toolkit.
pub open spec fn is_toolkit_type(segs: Seq<Seq<char>>) -> bool {
    segs.len() > 0 && segs[0] == "gtk"@
}

/// The container kind of a widget type.
pub open spec fn container_kind_of(segs: Seq<Seq<char>>) -> ContainerKind {
    if is_toolkit_type(segs) {
        ContainerKind::Toolkit
    } else {
        ContainerKind::Reactive
    }
}

/// Decide the container kind of a widget type.
pub fn container_kind_for(t: &TypePath) -> (k: ContainerKind)
    ensures
        k == container_kind_of(t.view_segments()),
{
    let gtk: String = "gtk".to_owned();
    if t.segments.len() > 0 && t.segments[0] == gtk {
        proof {
            assert(t.view_segments()[0] == t.segments@[0]@);
        }
        ContainerKind::Toolkit
    } else {
        proof {
            if t.segments@.len() > 0 {
                assert(t.view_segments()[0] == t.segments@[0]@);
            }
        }
        ContainerKind::Reactive
    }
}

/// One arm of the dispatcher: adding a widget tagged with `tag` attaches it
/// to the container stored under `widget_name`.
#[derive(Clone, PartialEq, Eq, Debug)]
pub struct DispatchArm {
    pub tag: String,
    pub widget_name: String,
    pub kind: ContainerKind,
}

/// The model of a dispatcher arm.
pub struct ArmV {
    pub tag: Seq<char>,
    pub widget_name: Seq<char>,
    pub kind: ContainerKind,
}

/// The model of a dispatcher arm.
pub open spec fn arm_view(a: DispatchArm) -> ArmV {
    ArmV { tag: a.tag@, widget_name: a.widget_name@, kind: a.kind }
}

/// The dispatcher of an `add_widget` method: one arm per named attachment
/// point, in registration order, and the default container as the fallback
/// when no tag matches or none is declared.
#[derive(Clone, PartialEq, Eq, Debug)]
pub struct Dispatcher {
    pub arms: Vec<DispatchArm>,
    pub fallback_name: String,
    pub fallback_kind: ContainerKind,
}

/// The model of a dispatcher.
pub struct DispatcherV {
    pub arms: Seq<ArmV>,
    pub fallback_name: Seq<char>,
    pub fallback_kind: ContainerKind,
}

/// The model of a dispatcher.
pub open spec fn dispatcher_view(d: Dispatcher) -> DispatcherV {
    DispatcherV {
        arms: d.arms@.map_values(|a: DispatchArm| arm_view(a)),
        fallback_name: d.fallback_name@,
        fallback_kind: d.fallback_kind,
    }
}

/// The synthesized capability implementation: the type it is for, its
/// associated container-result type (the default container's declared type),
/// the field holding the default container, and the optional dispatcher.
#[derive(Clone, PartialEq, Eq, Debug)]
pub struct TraitImpl {
    pub generic_parameters: Vec<String>,
    pub self_type: TypePath,
    pub container_type: TypePath,
    pub container_field: String,
    pub dispatcher: Option<Dispatcher>,
}

/// The model of a synthesized capability implementation.
pub struct TraitImplV {
    pub generics: Seq<Seq<char>>,
    pub self_type: Seq<Seq<char>>,
    pub container_type: Seq<Seq<char>>,
    pub container_field: Seq<char>,
    pub dispatcher: Option<DispatcherV>,
}

/// The model of a synthesized capability implementation.
pub open spec fn trait_impl_view(t: TraitImpl) -> TraitImplV {
    TraitImplV {
        generics: strings_view(t.generic_parameters@),
        self_type: t.self_type.view_segments(),
        container_type: t.container_type.view_segments(),
        container_field: t.container_field@,
        dispatcher: match t.dispatcher {
            None => None,
            Some(d) => Some(dispatcher_view(d)),
        },
    }
}

/// The type the capability implementation is for: the enclosing component's
/// own name when the root is Primitive, the declared component type when the
/// root is Composed.
pub open spec fn widget_type_of(w: WidgetNode, component_name: Seq<char>) -> Seq<Seq<char>> {
    match w.kind {
        WidgetKind::Primitive => seq![component_name],
        WidgetKind::Composed => w.type_reference.view_segments(),
    }
}

/// Build the type the capability implementation is for.
pub fn gen_widget_type(w: &WidgetNode, component_name: &String) -> (t: TypePath)
    ensures
        t.view_segments() == widget_type_of(*w, component_name@),
{
    match w.kind {
        WidgetKind::Primitive => {
            let mut segments: Vec<String> = Vec::new();
            segments.push(component_name.clone());
            let t = TypePath { segments };
            proof {
                assert(t.view_segments() =~= seq![component_name@]);
            }
            t
        },
        WidgetKind::Composed => clone_type_path(&w.type_reference),
    }
}

/// The dispatcher arms of a registry: one per named attachment point, in
/// registration order.
pub open spec fn named_arms(s: Seq<EntryV>) -> Seq<ArmV>
    decreases s,
{
    if s.len() == 0 {
        Seq::empty()
    } else {
        (match s[0].discriminant {
            Some(tag) => seq![
                ArmV {
                    tag: tag,
                    widget_name: s[0].widget_name,
                    kind: container_kind_of(s[0].widget_type),
                },
            ],
            None => Seq::empty(),
        }) + named_arms(s.drop_first())
    }
}

/// The arms of a registry grow entry by entry.
pub proof fn lemma_named_arms_take(s: Seq<EntryV>, i: int)
    requires
        0 <= i < s.len(),
    ensures
        named_arms(s.take(i + 1)) == named_arms(s.take(i)) + (match s[i].discriminant {
            Some(tag) => seq![
                ArmV {
                    tag: tag,
                    widget_name: s[i].widget_name,
                    kind: container_kind_of(s[i].widget_type),
                },
            ],
            None => Seq::<ArmV>::empty(),
        }),
    decreases s.len(),
{
    if i == 0 {
        reveal_with_fuel(named_arms, 2);
        assert(s.take(1).drop_first() =~= Seq::<EntryV>::empty());
        assert(s.take(1)[0] == s[0]);
        assert(s.take(0) =~= Seq::<EntryV>::empty());
        assert(named_arms(s.take(1)) =~= named_arms(s.take(0)) + (match s[0].discriminant {
            Some(tag) => seq![
                ArmV {
                    tag: tag,
                    widget_name: s[0].widget_name,
                    kind: container_kind_of(s[0].widget_type),
                },
            ],
            None => Seq::<ArmV>::empty(),
        }));
    } else {
        lemma_named_arms_take(s.drop_first(), i - 1);
        assert(s.take(i + 1).drop_first() =~= s.drop_first().take(i));
        assert(s.take(i).drop_first() =~= s.drop_first().take(i - 1));
        assert(s.take(i + 1)[0] == s[0]);
        assert(s.take(i)[0] == s[0]);
        assert(s.drop_first()[i - 1] == s[i]);
        assert(named_arms(s.take(i + 1)) =~= named_arms(s.take(i)) + (match s[i].discriminant {
            Some(tag) => seq![
                ArmV {
                    tag: tag,
                    widget_name: s[i].widget_name,
                    kind: container_kind_of(s[i].widget_type),
                },
            ],
            None => Seq::<ArmV>::empty(),
        }));
    }
}

/// The default entry of a registry that has one.
pub open spec fn default_of(s: Seq<EntryV>) -> EntryV {
    s[choose|i: int| 0 <= i < s.len() && s[i].discriminant is None]
}

/// The dispatcher a registry yields: present exactly when more than one
/// attachment point is registered, with one arm per named attachment point in
/// registration order and the default container as fallback.
pub open spec fn dispatcher_spec(s: Seq<EntryV>) -> Option<DispatcherV> {
    if s.len() > 1 {
        Some(
            DispatcherV {
                arms: named_arms(s),
                fallback_name: default_of(s).widget_name,
                fallback_kind: container_kind_of(default_of(s).widget_type),
            },
        )
    } else {
        None
    }
}

/// The capability implementation a registry yields, for a registry that is
/// non-empty and holds a default entry.
pub open spec fn trait_impl_spec(
    s: Seq<EntryV>,
    self_type: Seq<Seq<char>>,
    generics: Seq<Seq<char>>,
) -> TraitImplV {
    TraitImplV {
        generics: generics,
        self_type: self_type,
        container_type: default_of(s).widget_type,
        container_field: default_of(s).widget_name,
        dispatcher: dispatcher_spec(s),
    }
}

/// Build the `add_widget` dispatcher, when more than one attachment point is
/// registered.
pub fn gen_add_widget_method(reg: &ContainerRegistry, default: &RegistryEntry) -> (r: Option<
    Dispatcher,
>)
    requires
        reg.wf(),
        has_key(reg.view_entries(), None),
        crate::registry::entry_view(*default) == default_of(reg.view_entries()),
    ensures
        match r {
            Some(d) => reg.view_entries().len() > 1 && Some(dispatcher_view(d))
                == dispatcher_spec(reg.view_entries()),
            None => reg.view_entries().len() <= 1 && dispatcher_spec(reg.view_entries()) is None,
        },
{
    if reg.entries.len() <= 1 {
        None
    } else {
        let mut arms: Vec<DispatchArm> = Vec::new();
        let mut i: usize = 0;
        while i < reg.entries.len()
            invariant
                i <= reg.entries@.len(),
                arms@.map_values(|a: DispatchArm| arm_view(a)) == named_arms(
                    reg.view_entries().take(i as int),
                ),
            decreases reg.entries@.len() - i,
        {
            let ghost prev = arms@;
            let entry = &reg.entries[i];
            match &entry.discriminant {
                crate::ast::Discriminant::Named(tag) => {
                    let kind = container_kind_for(&entry.widget_type);
                    let a = DispatchArm {
                        tag: tag.clone(),
                        widget_name: entry.widget_name.clone(),
                        kind,
                    };
                    arms.push(a);
                    proof {
                        lemma_named_arms_take(reg.view_entries(), i as int);
                        assert(reg.view_entries()[i as int] == crate::registry::entry_view(
                            reg.entries@[i as int],
                        ));
                        assert(arms@.map_values(|x: DispatchArm| arm_view(x)) =~= named_arms(
                            reg.view_entries().take(i as int + 1),
                        ));
                    }
                },
                crate::ast::Discriminant::DefaultSlot => {
                    proof {
                        lemma_named_arms_take(reg.view_entries(), i as int);
                        assert(reg.view_entries()[i as int] == crate::registry::entry_view(
                            reg.entries@[i as int],
                        ));
                        assert(arms@.map_values(|x: DispatchArm| arm_view(x)) =~= named_arms(
                            reg.view_entries().take(i as int + 1),
                        ));
                    }
                },
            }
            i = i + 1;
        }
        proof {
            assert(reg.view_entries().take(reg.view_entries().len() as int) =~= reg.view_entries());
        }
        let kind = container_kind_for(&default.widget_type);
        Some(
            Dispatcher {
                arms,
                fallback_name: default.widget_name.clone(),
                fallback_kind: kind,
            },
        )
    }
}

/// Synthesize the capability implementation.  Yields nothing for an empty
/// registry; fails with `MissingDefaultContainer` exactly when attachment
/// points exist but no default one does; otherwise yields the implementation
/// exposing the default container and, for more than one attachment point,
/// the dispatcher.
pub fn gen_container_impl(
    reg: &ContainerRegistry,
    w: &WidgetNode,
    component_name: &String,
    generic_parameters: &Vec<String>,
) -> (r: Result<Option<TraitImpl>, CompileError>)
    requires
        reg.wf(),
    ensures
        reg.view_entries().len() == 0 ==> (r matches Ok(o) && o is None),
        reg.view_entries().len() > 0 && !has_key(reg.view_entries(), None) ==> (r matches Err(e)
            && e == CompileError::MissingDefaultContainer),
        reg.view_entries().len() > 0 && has_key(reg.view_entries(), None) ==> (r matches Ok(o)
            && o matches Some(t) && trait_impl_view(t) == trait_impl_spec(
            reg.view_entries(),
            widget_type_of(*w, component_name@),
            strings_view(generic_parameters@),
        )),
{
    if reg.entries.len() == 0 {
        Ok(None)
    } else {
        match reg.default_entry() {
            None => Err(CompileError::MissingDefaultContainer),
            Some(default) => {
                proof {
                    let j = choose|i: int|
                        0 <= i < reg.view_entries().len() && reg.view_entries()[i].discriminant
                            is None;
                    let k = choose|i: int|
                        0 <= i < reg.view_entries().len() && #[trigger] reg.view_entries()[i]
                            == crate::registry::entry_view(*default)
                            && reg.view_entries()[i].discriminant is None;
                    assert(reg.view_entries()[j].discriminant is None);
                    assert(reg.view_entries()[k].discriminant is None);
                    if j != k {
                        assert(unique_keys(reg.view_entries()));
                        assert(false);
                    }
                    assert(crate::registry::entry_view(*default) == default_of(
                        reg.view_entries(),
                    ));
                }
                let self_type = gen_widget_type(w, component_name);
                let dispatcher = gen_add_widget_method(reg, default);
                let t = TraitImpl {
                    generic_parameters: clone_strings(generic_parameters),
                    self_type,
                    container_type: clone_type_path(&default.widget_type),
                    container_field: default.widget_name.clone(),
                    dispatcher,
                };
                proof {
                    assert(trait_impl_view(t) == trait_impl_spec(
                        reg.view_entries(),
                        widget_type_of(*w, component_name@),
                        strings_view(generic_parameters@),
                    ));
                }
                Ok(Some(t))
            },
        }
    }
}

} // verus!
