use widget_codegen::ast::{
    Discriminant, EventBinding, EventTarget, Expr, ExprPart, ReturnPolicy, TypePath, WidgetKind,
    WidgetNode,
};
use widget_codegen::context::{CompilationContext, RootAccessor, RootType};
use widget_codegen::error::CompileError;
use widget_codegen::gen;
use widget_codegen::stmt::{EventAccessor, Stmt};

fn path(segments: &[&str]) -> TypePath {
    TypePath { segments: segments.iter().map(|s| s.to_string()).collect() }
}

fn text_expr(s: &str) -> Expr {
    Expr { parts: vec![ExprPart::Text(s.to_string())] }
}

fn node(name: &str, kind: WidgetKind, typ: TypePath) -> WidgetNode {
    WidgetNode {
        name: name.to_string(),
        type_reference: typ,
        kind,
        save: false,
        properties: vec![],
        child_properties: vec![],
        init_parameters: vec![],
        container_discriminant: None,
        children: vec![],
        events: vec![],
        child_events: vec![],
    }
}

fn click_binding() -> EventBinding {
    EventBinding {
        trigger_params: vec![],
        target: EventTarget::CurrentWidget,
        return_policy: ReturnPolicy::NoReturn { message: "Clicked".to_string() },
    }
}

#[test]
fn records_exactly_one_root() {
    let mut child = node("inner", WidgetKind::Primitive, path(&["gtk", "Button"]));
    child.save = true;
    let mut root = node("win", WidgetKind::Primitive, path(&["gtk", "Window"]));
    root.children = vec![child];
    let mut ctx = CompilationContext::new(vec![]);
    let out = gen(&"MyWin".to_string(), &root, &mut ctx).expect("lowering succeeds");
    let info = ctx.root().expect("root recorded");
    assert_eq!(info.name, "win");
    assert_eq!(info.typ, RootType::Declared(path(&["gtk", "Window"])));
    assert_eq!(info.accessor, RootAccessor::Direct("win".to_string()));
    assert_eq!(
        out.saved_widgets,
        vec![("inner".to_string(), widget_codegen::ComponentType::Declared(path(&["gtk", "Button"])))]
    );
}

#[test]
fn missing_root_before_any_walk() {
    let ctx = CompilationContext::new(vec![]);
    assert_eq!(ctx.root().unwrap_err(), CompileError::MissingRoot);
}

#[test]
fn composed_root_records_component_accessor() {
    let root = node("app", WidgetKind::Composed, path(&["MyComponent"]));
    let mut ctx = CompilationContext::new(vec![]);
    gen(&"MyApp".to_string(), &root, &mut ctx).expect("lowering succeeds");
    let info = ctx.root().expect("root recorded");
    assert_eq!(info.typ, RootType::ComponentRootOf(path(&["MyComponent"])));
    assert_eq!(info.accessor, RootAccessor::ComponentRoot("app".to_string()));
}

#[test]
fn visible_setter_comes_after_show_and_children() {
    let child = node("lbl", WidgetKind::Primitive, path(&["gtk", "Label"]));
    let mut root = node("win", WidgetKind::Primitive, path(&["gtk", "Window"]));
    root.properties = vec![
        ("title".to_string(), text_expr("\"hi\"")),
        ("visible".to_string(), text_expr("true")),
    ];
    root.children = vec![child];
    let mut ctx = CompilationContext::new(vec![]);
    let out = gen(&"MyWin".to_string(), &root, &mut ctx).expect("lowering succeeds");
    let stmts = &out.statements;
    let show_win = stmts
        .iter()
        .position(|s| matches!(s, Stmt::Show { widget } if widget == "win"))
        .expect("show statement for win");
    let vis = stmts
        .iter()
        .position(
            |s| matches!(s, Stmt::SetProperty { widget, key, .. } if widget == "win" && key == "visible"),
        )
        .expect("visible setter for win");
    let child_construct = stmts
        .iter()
        .position(|s| matches!(s, Stmt::GenericConstruct { name, .. } if name == "lbl"))
        .expect("construction of lbl");
    let child_show = stmts
        .iter()
        .position(|s| matches!(s, Stmt::Show { widget } if widget == "lbl"))
        .expect("show statement for lbl");
    assert!(show_win < vis);
    assert!(child_construct < vis);
    assert!(child_show < vis);
    let title = stmts
        .iter()
        .position(
            |s| matches!(s, Stmt::SetProperty { widget, key, .. } if widget == "win" && key == "title"),
        )
        .expect("title setter for win");
    assert!(title < child_construct);
}

#[test]
fn empty_init_parameters_take_generic_construct_path() {
    let root = node("win", WidgetKind::Primitive, path(&["gtk", "Window"]));
    let mut ctx = CompilationContext::new(vec![]);
    let out = gen(&"MyWin".to_string(), &root, &mut ctx).expect("lowering succeeds");
    assert_eq!(
        out.statements[0],
        Stmt::GenericConstruct { name: "win".to_string(), typ: path(&["gtk", "Window"]) }
    );
}

#[test]
fn init_parameters_take_typed_constructor_in_order() {
    let mut root = node("grid", WidgetKind::Primitive, path(&["gtk", "Grid"]));
    root.init_parameters = vec!["3".to_string(), "4".to_string()];
    let mut ctx = CompilationContext::new(vec![]);
    let out = gen(&"MyGrid".to_string(), &root, &mut ctx).expect("lowering succeeds");
    assert_eq!(
        out.statements[0],
        Stmt::TypedConstruct {
            name: "grid".to_string(),
            typ: path(&["gtk", "Grid"]),
            params: vec!["3".to_string(), "4".to_string()],
        }
    );
}

#[test]
fn computed_return_on_composed_child_is_rejected() {
    let mut child = node("pane", WidgetKind::Composed, path(&["SidePane"]));
    child.events = vec![(
        "Selected".to_string(),
        vec![EventBinding {
            trigger_params: vec![],
            target: EventTarget::CurrentWidget,
            return_policy: ReturnPolicy::ComputedReturn {
                function: "decide".to_string(),
                uses_model: true,
            },
        }],
    )];
    let mut root = node("win", WidgetKind::Primitive, path(&["gtk", "Window"]));
    root.children = vec![child];
    let mut ctx = CompilationContext::new(vec![]);
    let err = gen(&"MyWin".to_string(), &root, &mut ctx).unwrap_err();
    assert_eq!(
        err,
        CompileError::UnsupportedEventShape {
            widget: "pane".to_string(),
            event_name: "Selected".to_string(),
        }
    );
}

#[test]
fn return_value_on_primitive_widget_is_kept() {
    let mut root = node("win", WidgetKind::Primitive, path(&["gtk", "Window"]));
    root.events = vec![(
        "delete_event".to_string(),
        vec![EventBinding {
            trigger_params: vec![],
            target: EventTarget::CurrentWidget,
            return_policy: ReturnPolicy::ReturnValue {
                message: "Quit".to_string(),
                value: "Inhibit(false)".to_string(),
            },
        }],
    )];
    let mut ctx = CompilationContext::new(vec![]);
    let out = gen(&"MyWin".to_string(), &root, &mut ctx).expect("lowering succeeds");
    let connect = out
        .statements
        .iter()
        .find(|s| matches!(s, Stmt::Connect { .. }))
        .expect("a connect statement");
    match connect {
        Stmt::Connect { accessor, event_name, policy, .. } => {
            assert_eq!(*accessor, EventAccessor::Widget("win".to_string()));
            assert_eq!(event_name, "delete_event");
            assert_eq!(
                *policy,
                ReturnPolicy::ReturnValue {
                    message: "Quit".to_string(),
                    value: "Inhibit(false)".to_string(),
                }
            );
        },
        _ => unreachable!(),
    }
}

#[test]
fn marker_syntax_is_stripped_from_property_values() {
    let mut root = node("win", WidgetKind::Primitive, path(&["gtk", "Window"]));
    root.properties = vec![(
        "title".to_string(),
        Expr {
            parts: vec![
                ExprPart::Text("&".to_string()),
                ExprPart::Marked("self.model.title".to_string()),
            ],
        },
    )];
    let mut ctx = CompilationContext::new(vec![]);
    let out = gen(&"MyWin".to_string(), &root, &mut ctx).expect("lowering succeeds");
    let setter = out
        .statements
        .iter()
        .find(|s| matches!(s, Stmt::SetProperty { key, .. } if key == "title"))
        .expect("title setter");
    match setter {
        Stmt::SetProperty { value, .. } => {
            assert_eq!(
                value.parts,
                vec![
                    ExprPart::Text("&".to_string()),
                    ExprPart::Text("self.model.title".to_string()),
                ]
            );
        },
        _ => unreachable!(),
    }
}

#[test]
fn full_sequence_for_two_buttons() {
    let mut a = node("button_a", WidgetKind::Primitive, path(&["gtk", "Button"]));
    a.events = vec![("click".to_string(), vec![click_binding()])];
    let mut b = node("button_b", WidgetKind::Primitive, path(&["gtk", "Button"]));
    b.events = vec![("click".to_string(), vec![click_binding()])];
    let mut root = node("root", WidgetKind::Primitive, path(&["gtk", "Window"]));
    root.children = vec![a, b];
    let mut ctx = CompilationContext::new(vec![]);
    let out = gen(&"App".to_string(), &root, &mut ctx).expect("lowering succeeds");
    assert!(out.container_impl.is_none());
    let connect = |w: &str| Stmt::Connect {
        accessor: EventAccessor::Widget(w.to_string()),
        widget_kind: WidgetKind::Primitive,
        event_name: "click".to_string(),
        params: vec![],
        target: EventTarget::CurrentWidget,
        policy: ReturnPolicy::NoReturn { message: "Clicked".to_string() },
        declares_clone: false,
    };
    let expected = vec![
        Stmt::GenericConstruct { name: "root".to_string(), typ: path(&["gtk", "Window"]) },
        Stmt::GenericConstruct { name: "button_a".to_string(), typ: path(&["gtk", "Button"]) },
        Stmt::AddToParent {
            child: "button_a".to_string(),
            parent: "root".to_string(),
            parent_kind: WidgetKind::Primitive,
        },
        Stmt::Show { widget: "button_a".to_string() },
        connect("button_a"),
        Stmt::GenericConstruct { name: "button_b".to_string(), typ: path(&["gtk", "Button"]) },
        Stmt::AddToParent {
            child: "button_b".to_string(),
            parent: "root".to_string(),
            parent_kind: WidgetKind::Primitive,
        },
        Stmt::Show { widget: "button_b".to_string() },
        connect("button_b"),
        Stmt::Show { widget: "root".to_string() },
        Stmt::WrapComponent {
            component: "App".to_string(),
            root_field: "root".to_string(),
            fields: vec![],
        },
    ];
    assert_eq!(out.statements, expected);
}

#[test]
fn saved_widget_declares_clone_on_first_binding_only() {
    let mut root = node("win", WidgetKind::Primitive, path(&["gtk", "Window"]));
    root.save = true;
    root.events = vec![
        ("click".to_string(), vec![click_binding()]),
        ("key_press_event".to_string(), vec![click_binding()]),
    ];
    let mut ctx = CompilationContext::new(vec![]);
    let out = gen(&"App".to_string(), &root, &mut ctx).expect("lowering succeeds");
    let clones: Vec<bool> = out
        .statements
        .iter()
        .filter_map(|s| match s {
            Stmt::Connect { declares_clone, .. } => Some(*declares_clone),
            _ => None,
        })
        .collect();
    assert_eq!(clones, vec![true, false]);
}

#[test]
fn foreign_widget_binding_feeds_the_named_sink() {
    let mut b = node("quit_button", WidgetKind::Primitive, path(&["gtk", "Button"]));
    b.events = vec![(
        "click".to_string(),
        vec![EventBinding {
            trigger_params: vec![],
            target: EventTarget::ForeignWidget("other_window".to_string()),
            return_policy: ReturnPolicy::NoReturn { message: "Close".to_string() },
        }],
    )];
    let mut root = node("win", WidgetKind::Primitive, path(&["gtk", "Window"]));
    root.children = vec![b];
    let mut ctx = CompilationContext::new(vec![]);
    let out = gen(&"App".to_string(), &root, &mut ctx).expect("lowering succeeds");
    let connect = out
        .statements
        .iter()
        .find(|s| matches!(s, Stmt::Connect { .. }))
        .expect("a connect statement");
    match connect {
        Stmt::Connect { target, .. } => {
            assert_eq!(*target, EventTarget::ForeignWidget("other_window".to_string()));
        },
        _ => unreachable!(),
    }
}

#[test]
fn composed_child_is_created_and_attached_in_one_statement() {
    let mut child = node("pane", WidgetKind::Composed, path(&["SidePane"]));
    child.init_parameters = vec!["()".to_string()];
    let mut root = node("win", WidgetKind::Primitive, path(&["gtk", "Window"]));
    root.children = vec![child];
    let mut ctx = CompilationContext::new(vec![]);
    let out = gen(&"App".to_string(), &root, &mut ctx).expect("lowering succeeds");
    let add = out
        .statements
        .iter()
        .find(|s| matches!(s, Stmt::AddComponent { .. }))
        .expect("an add-component statement");
    assert_eq!(
        *add,
        Stmt::AddComponent {
            name: "pane".to_string(),
            typ: path(&["SidePane"]),
            parent: "win".to_string(),
            parent_kind: WidgetKind::Primitive,
            params: vec!["()".to_string()],
        }
    );
    assert!(!out
        .statements
        .iter()
        .any(|s| matches!(s, Stmt::AddToParent { child, .. } if child == "pane")));
    assert!(!out.statements.iter().any(|s| matches!(s, Stmt::Show { widget } if widget == "pane")));
    assert_eq!(
        out.saved_widgets,
        vec![("pane".to_string(), widget_codegen::ComponentType::Component(path(&["SidePane"])))]
    );
}

#[test]
fn child_events_connect_through_the_accessor() {
    let mut child = node("titlebar", WidgetKind::Primitive, path(&["gtk", "HeaderBar"]));
    child.child_events = vec![widget_codegen::ast::ChildEvent {
        child_accessor: "close_button".to_string(),
        event_name: "click".to_string(),
        binding: click_binding(),
    }];
    let mut root = node("win", WidgetKind::Primitive, path(&["gtk", "Window"]));
    root.children = vec![child];
    let mut ctx = CompilationContext::new(vec![]);
    let out = gen(&"App".to_string(), &root, &mut ctx).expect("lowering succeeds");
    let connect = out
        .statements
        .iter()
        .find(|s| matches!(s, Stmt::Connect { .. }))
        .expect("a connect statement");
    match connect {
        Stmt::Connect { accessor, declares_clone, .. } => {
            assert_eq!(
                *accessor,
                EventAccessor::ChildGetter {
                    widget: "titlebar".to_string(),
                    child: "close_button".to_string(),
                }
            );
            assert!(!declares_clone);
        },
        _ => unreachable!(),
    }
}

#[test]
fn attachment_point_widget_is_stored_even_without_save_flag() {
    let mut child = node("content", WidgetKind::Primitive, path(&["gtk", "Box"]));
    child.container_discriminant = Some(Discriminant::DefaultSlot);
    let mut root = node("win", WidgetKind::Primitive, path(&["gtk", "Window"]));
    root.children = vec![child];
    let mut ctx = CompilationContext::new(vec![]);
    let out = gen(&"App".to_string(), &root, &mut ctx).expect("lowering succeeds");
    assert_eq!(
        out.saved_widgets,
        vec![("content".to_string(), widget_codegen::ComponentType::Declared(path(&["gtk", "Box"])))]
    );
    match out.statements.last().expect("wrap statement") {
        Stmt::WrapComponent { component, root_field, fields } => {
            assert_eq!(component, "App");
            assert_eq!(root_field, "win");
            assert_eq!(*fields, vec!["content".to_string()]);
        },
        _ => panic!("last statement must wrap the component"),
    }
}
