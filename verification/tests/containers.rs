use widget_codegen::ast::{Discriminant, TypePath, WidgetKind, WidgetNode};
use widget_codegen::container::ContainerKind;
use widget_codegen::context::CompilationContext;
use widget_codegen::error::CompileError;
use widget_codegen::gen;
use widget_codegen::registry::{ContainerRegistry, RegistryEntry};

fn path(segments: &[&str]) -> TypePath {
    TypePath { segments: segments.iter().map(|s| s.to_string()).collect() }
}

fn node(name: &str, kind: WidgetKind, typ: TypePath) -> WidgetNode {
    WidgetNode {
        name: name.to_string(),
        type_reference: typ,
        kind,
        save: false,
        properties: vec![],
        child_properties: vec![],
        init_parameters: vec![],
        container_discriminant: None,
        children: vec![],
        events: vec![],
        child_events: vec![],
    }
}

fn entry(disc: Discriminant, name: &str, typ: TypePath) -> RegistryEntry {
    RegistryEntry { discriminant: disc, widget_name: name.to_string(), widget_type: typ }
}

#[test]
fn registering_a_discriminant_twice_fails() {
    let mut reg = ContainerRegistry::new();
    reg.register(entry(Discriminant::DefaultSlot, "a", path(&["gtk", "Box"]))).unwrap();
    let err = reg
        .register(entry(Discriminant::DefaultSlot, "b", path(&["gtk", "Box"])))
        .unwrap_err();
    assert_eq!(err, CompileError::DuplicateContainerDiscriminant(Discriminant::DefaultSlot));
    assert_eq!(reg.len(), 1);
}

#[test]
fn registering_distinct_discriminants_succeeds() {
    let mut reg = ContainerRegistry::new();
    reg.register(entry(Discriminant::DefaultSlot, "a", path(&["gtk", "Box"]))).unwrap();
    reg.register(entry(Discriminant::Named("side".to_string()), "b", path(&["gtk", "Box"])))
        .unwrap();
    assert_eq!(reg.len(), 2);
    let default = reg.default_entry().expect("default entry");
    assert_eq!(default.widget_name, "a");
}

#[test]
fn duplicate_default_attachment_points_in_a_tree_fail() {
    let mut c1 = node("left", WidgetKind::Primitive, path(&["gtk", "Box"]));
    c1.container_discriminant = Some(Discriminant::DefaultSlot);
    let mut c2 = node("right", WidgetKind::Primitive, path(&["gtk", "Box"]));
    c2.container_discriminant = Some(Discriminant::DefaultSlot);
    let mut root = node("win", WidgetKind::Primitive, path(&["gtk", "Window"]));
    root.children = vec![c1, c2];
    let mut ctx = CompilationContext::new(vec![]);
    let err = gen(&"App".to_string(), &root, &mut ctx).unwrap_err();
    assert_eq!(err, CompileError::DuplicateContainerDiscriminant(Discriminant::DefaultSlot));
}

#[test]
fn duplicate_named_attachment_points_in_a_tree_fail() {
    let mut c1 = node("left", WidgetKind::Primitive, path(&["gtk", "Box"]));
    c1.container_discriminant = Some(Discriminant::Named("side".to_string()));
    let mut inner = node("deep", WidgetKind::Primitive, path(&["gtk", "Box"]));
    inner.container_discriminant = Some(Discriminant::Named("side".to_string()));
    let mut c2 = node("right", WidgetKind::Primitive, path(&["gtk", "Box"]));
    c2.children = vec![inner];
    let mut root = node("win", WidgetKind::Primitive, path(&["gtk", "Window"]));
    root.children = vec![c1, c2];
    let mut ctx = CompilationContext::new(vec![]);
    let err = gen(&"App".to_string(), &root, &mut ctx).unwrap_err();
    assert_eq!(
        err,
        CompileError::DuplicateContainerDiscriminant(Discriminant::Named("side".to_string()))
    );
}

#[test]
fn named_attachment_point_without_default_fails() {
    let mut child = node("side", WidgetKind::Primitive, path(&["gtk", "Box"]));
    child.container_discriminant = Some(Discriminant::Named("sidebar".to_string()));
    let mut root = node("win", WidgetKind::Primitive, path(&["gtk", "Window"]));
    root.children = vec![child];
    let mut ctx = CompilationContext::new(vec![]);
    let err = gen(&"App".to_string(), &root, &mut ctx).unwrap_err();
    assert_eq!(err, CompileError::MissingDefaultContainer);
}

#[test]
fn single_default_attachment_point_yields_impl_without_dispatcher() {
    let mut child = node("content", WidgetKind::Primitive, path(&["gtk", "Box"]));
    child.container_discriminant = Some(Discriminant::DefaultSlot);
    let mut root = node("win", WidgetKind::Primitive, path(&["gtk", "Window"]));
    root.children = vec![child];
    let mut ctx = CompilationContext::new(vec!["Msg".to_string()]);
    let out = gen(&"App".to_string(), &root, &mut ctx).expect("lowering succeeds");
    let imp = out.container_impl.expect("capability implementation");
    assert_eq!(imp.generic_parameters, vec!["Msg".to_string()]);
    assert_eq!(imp.self_type, path(&["App"]));
    assert_eq!(imp.container_type, path(&["gtk", "Box"]));
    assert_eq!(imp.container_field, "content");
    assert!(imp.dispatcher.is_none());
}

#[test]
fn dispatcher_falls_back_to_the_default_container() {
    let mut main_slot = node("content", WidgetKind::Primitive, path(&["gtk", "Box"]));
    main_slot.container_discriminant = Some(Discriminant::DefaultSlot);
    let mut left = node("left_pane", WidgetKind::Primitive, path(&["gtk", "Box"]));
    left.container_discriminant = Some(Discriminant::Named("left".to_string()));
    let mut right = node("right_pane", WidgetKind::Composed, path(&["PaneComponent"]));
    right.container_discriminant = Some(Discriminant::Named("right".to_string()));
    let mut root = node("win", WidgetKind::Primitive, path(&["gtk", "Window"]));
    root.children = vec![main_slot, left, right];
    let mut ctx = CompilationContext::new(vec![]);
    let out = gen(&"App".to_string(), &root, &mut ctx).expect("lowering succeeds");
    let imp = out.container_impl.expect("capability implementation");
    let dispatcher = imp.dispatcher.expect("dispatcher for several attachment points");
    assert_eq!(dispatcher.fallback_name, "content");
    assert_eq!(dispatcher.fallback_kind, ContainerKind::Toolkit);
    assert_eq!(dispatcher.arms.len(), 2);
    assert_eq!(dispatcher.arms[0].tag, "left");
    assert_eq!(dispatcher.arms[0].widget_name, "left_pane");
    assert_eq!(dispatcher.arms[0].kind, ContainerKind::Toolkit);
    assert_eq!(dispatcher.arms[1].tag, "right");
    assert_eq!(dispatcher.arms[1].widget_name, "right_pane");
    assert_eq!(dispatcher.arms[1].kind, ContainerKind::Reactive);

    let mut main_slot = node("content", WidgetKind::Primitive, path(&["gtk", "Box"]));
    main_slot.container_discriminant = None;
    let mut left = node("left_pane", WidgetKind::Primitive, path(&["gtk", "Box"]));
    left.container_discriminant = Some(Discriminant::Named("left".to_string()));
    let mut right = node("right_pane", WidgetKind::Composed, path(&["PaneComponent"]));
    right.container_discriminant = Some(Discriminant::Named("right".to_string()));
    let mut root = node("win", WidgetKind::Primitive, path(&["gtk", "Window"]));
    root.children = vec![main_slot, left, right];
    let mut ctx = CompilationContext::new(vec![]);
    let err = gen(&"App".to_string(), &root, &mut ctx).unwrap_err();
    assert_eq!(err, CompileError::MissingDefaultContainer);
}

#[test]
fn empty_registry_emits_no_capability_fragment() {
    let root = node("win", WidgetKind::Primitive, path(&["gtk", "Window"]));
    let mut ctx = CompilationContext::new(vec![]);
    let out = gen(&"App".to_string(), &root, &mut ctx).expect("lowering succeeds");
    assert!(out.container_impl.is_none());
}

#[test]
fn composed_root_impl_is_for_the_component_type() {
    let mut child = node("content", WidgetKind::Primitive, path(&["gtk", "Box"]));
    child.container_discriminant = Some(Discriminant::DefaultSlot);
    let mut root = node("app", WidgetKind::Composed, path(&["Shell"]));
    root.children = vec![child];
    let mut ctx = CompilationContext::new(vec![]);
    let out = gen(&"App".to_string(), &root, &mut ctx).expect("lowering succeeds");
    let imp = out.container_impl.expect("capability implementation");
    assert_eq!(imp.self_type, path(&["Shell"]));
}
