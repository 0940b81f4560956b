use jsx_dom_expressions::expr::{DeclList, Expr, ExprList, Stmt, StmtList};
use jsx_dom_expressions::names::{Binding, NameGen};
use jsx_dom_expressions::registry::{CompileError, Config, OutputType, TemplateCreationCtx};
use jsx_dom_expressions::transform::{JsxTransform, TransformInfo, TransformResult};
use jsx_dom_expressions::tree::{AttrItem, AttrValue, ElementName, JsxAttr, JsxChild, JsxElement};

fn ident(name: &str) -> Expr {
    Expr::Ident(String::from(name))
}

fn element(tag: &str, attributes: Vec<AttrItem>, children: Vec<JsxChild>) -> JsxElement {
    JsxElement {
        name: ElementName::Ident(String::from(tag)),
        attributes,
        children,
    }
}

fn str_attr(name: &str, value: &str) -> AttrItem {
    AttrItem::Attr(JsxAttr {
        name: String::from(name),
        value: Some(AttrValue::StrVal(String::from(value))),
    })
}

fn default_config() -> Config {
    Config::default()
}

fn hydratable_config() -> Config {
    Config::new(
        OutputType::Dom,
        true,
        String::from("memo"),
        String::from("dom"),
    )
}

#[test]
fn template_registration_is_idempotent() {
    let mut ctx = TemplateCreationCtx::new();
    let mut names = NameGen::new();
    let markup = String::from("<div></div>");
    let first = ctx.register_template(&markup, &mut names);
    let second = ctx.register_template(&markup, &mut names);
    let third = ctx.register_template(&markup, &mut names);
    assert_eq!(first, Binding::Tmpl(1));
    assert_eq!(second, first);
    assert_eq!(third, first);
    assert_eq!(ctx.templates.len(), 1);
    let other = ctx.register_template(&String::from("<p></p>"), &mut names);
    assert_eq!(other, Binding::Tmpl(2));
    assert_eq!(ctx.templates.len(), 2);
}

#[test]
fn import_registration_is_per_pair() {
    let mut ctx = TemplateCreationCtx::new();
    let a = ctx.register_import_method("memo", "dom");
    let b = ctx.register_import_method("memo", "dom");
    assert_eq!(a, Binding::Helper(0));
    assert_eq!(b, Binding::Helper(0));
    assert_eq!(ctx.imports.len(), 1);
    let c = ctx.register_import_method("getNextElement", "dom");
    assert_eq!(c, Binding::Helper(1));
    assert_eq!(ctx.imports.len(), 2);
}

#[test]
fn element_dynamic_exprs_in_document_order() {
    // an element with two dynamic children: the emitted sequence has
    // length two and follows document order
    let el = element(
        "div",
        Vec::new(),
        vec![
            JsxChild::ExpressionContainer(Some(ident("a"))),
            JsxChild::ExpressionContainer(Some(ident("b"))),
        ],
    );
    let mut t = JsxTransform::new(default_config());
    let r = t.transform_element(&el, &TransformInfo::default());
    assert_eq!(r.exprs.len(), 2);
    assert_eq!(r.exprs[0], ident("a"));
    assert_eq!(r.exprs[1], ident("b"));
    assert_eq!(r.id, Some(Binding::El(1)));
}

#[test]
fn attribute_binding_calls_precede_children() {
    let el = element(
        "div",
        vec![AttrItem::Attr(JsxAttr {
            name: String::from("title"),
            value: Some(AttrValue::ExprVal(ident("t"))),
        })],
        vec![JsxChild::ExpressionContainer(Some(ident("a")))],
    );
    let mut t = JsxTransform::new(default_config());
    let r = t.transform_element(&el, &TransformInfo::default());
    assert_eq!(r.exprs.len(), 2);
    match &r.exprs[0] {
        Expr::Call(callee, args) => {
            match &**callee {
                Expr::StaticMember(obj, prop) => {
                    assert_eq!(**obj, Expr::Bound(Binding::El(1)));
                    assert_eq!(prop, "setAttribute");
                },
                other => panic!("unexpected callee {:?}", other),
            }
            match args {
                ExprList::Cons(name, rest) => {
                    assert_eq!(**name, Expr::StrLit(String::from("title")));
                    match &**rest {
                        ExprList::Cons(value, nil) => {
                            assert_eq!(**value, ident("t"));
                            assert_eq!(**nil, ExprList::Nil);
                        },
                        other => panic!("unexpected args {:?}", other),
                    }
                },
                other => panic!("unexpected args {:?}", other),
            }
        },
        other => panic!("unexpected binding call {:?}", other),
    }
    assert_eq!(r.exprs[1], ident("a"));
}

#[test]
fn conditional_flattening_mints_two_memo_bindings() {
    // a ? (b ? <X/> : <Y/>) : <Z/> — exactly two memoized conditions
    let inner = Expr::Ternary(
        Box::new(ident("b")),
        Box::new(Expr::Markup(1)),
        Box::new(Expr::Markup(2)),
    );
    let e = Expr::Ternary(Box::new(ident("a")), Box::new(inner), Box::new(Expr::Markup(3)));
    let mut t = JsxTransform::new(default_config());
    let (stmt, expr) = t.transform_conditional_expression(&e, false, false);
    // two conditions were minted: the counter moved from 1 to 3
    assert_eq!(t.names.cond, 3);
    // one memo import, shared by both bindings
    assert_eq!(t.template_creation_ctx.imports.len(), 1);
    assert_eq!(t.template_creation_ctx.imports[0].name, "memo");
    // the outer condition is hoisted as the second minted binding
    match stmt {
        Some(Stmt::VarDecl(DeclList::Cons(id, init, rest))) => {
            assert_eq!(id, Binding::Cond(2));
            assert_eq!(*rest, DeclList::Nil);
            match &*init {
                Expr::Call(callee, _) => assert_eq!(**callee, Expr::Bound(Binding::Helper(0))),
                other => panic!("unexpected init {:?}", other),
            }
        },
        other => panic!("expected a hoisted declaration, got {:?}", other),
    }
    // the result is a thunk around the rewritten ternary reading _c$2
    match expr {
        Expr::Arrow(true, StmtList::Cons(body, _)) => match &*body {
            Stmt::ExprStmt(Expr::Ternary(test, _, _)) => match &**test {
                Expr::Call(callee, _) => assert_eq!(**callee, Expr::Bound(Binding::Cond(2))),
                other => panic!("unexpected test {:?}", other),
            },
            other => panic!("unexpected body {:?}", other),
        },
        other => panic!("expected a thunk, got {:?}", other),
    }
}

#[test]
fn mixed_children_keep_document_order() {
    // text contributes markup only; expression slots contribute one value
    // each, in source order
    let el = element(
        "div",
        Vec::new(),
        vec![
            JsxChild::ExpressionContainer(Some(ident("a"))),
            JsxChild::Text(String::from("mid")),
            JsxChild::ExpressionContainer(Some(ident("b"))),
            JsxChild::Spread(ident("c")),
        ],
    );
    let mut t = JsxTransform::new(default_config());
    let r = t.transform_element(&el, &TransformInfo::default());
    assert_eq!(r.template.as_deref(), Some("<div>mid</div>"));
    assert_eq!(r.exprs.len(), 3);
    assert_eq!(r.exprs[0], ident("a"));
    assert_eq!(r.exprs[1], ident("b"));
    assert_eq!(r.exprs[2], ident("c"));
}

#[test]
fn logical_or_is_not_rewritten() {
    let e = Expr::Logical(false, Box::new(ident("cond")), Box::new(Expr::Markup(1)));
    let mut t = JsxTransform::new(default_config());
    let (stmt, _expr) = t.transform_logical_expression(&e, false, false);
    assert!(stmt.is_none());
    assert_eq!(t.names.cond, 1);
}

#[test]
fn unsafe_condition_is_left_untouched() {
    // a.b ? <X/> : <Y/> — the condition reads a member, so no memoization
    let e = Expr::Ternary(
        Box::new(Expr::StaticMember(Box::new(ident("a")), String::from("b"))),
        Box::new(Expr::Markup(1)),
        Box::new(Expr::Markup(2)),
    );
    let mut t = JsxTransform::new(default_config());
    let (stmt, expr) = t.transform_conditional_expression(&e, false, false);
    assert!(stmt.is_none());
    assert_eq!(t.names.cond, 1);
    match expr {
        Expr::Arrow(true, StmtList::Cons(body, _)) => match &*body {
            Stmt::ExprStmt(inner) => assert_eq!(*inner, e),
            other => panic!("unexpected body {:?}", other),
        },
        other => panic!("expected a thunk, got {:?}", other),
    }
}

#[test]
fn end_to_end_static_template() {
    // <div id="x"><span>hi</span></div>, hydratable=false
    let el = element(
        "div",
        vec![str_attr("id", "x")],
        vec![JsxChild::Element(element(
            "span",
            Vec::new(),
            vec![JsxChild::Text(String::from("hi"))],
        ))],
    );
    let config = default_config();
    let mut t = JsxTransform::new(config);
    let node = JsxChild::Element(el);
    let r = t.transform_node(&node, &TransformInfo::default()).unwrap();
    assert_eq!(r.template.as_deref(), Some("<div id=x><span>hi</span></div>"));
    assert_eq!(r.id, Some(Binding::El(1)));
    assert!(r.exprs.is_empty());
    let expr = r
        .create_template(&t.config, &mut t.names, &mut t.template_creation_ctx, false)
        .unwrap();
    // one registered template, and the use site is el$1 = tmpl$1() with no
    // wrapper closure
    assert_eq!(t.template_creation_ctx.templates.len(), 1);
    assert_eq!(
        t.template_creation_ctx.templates[0].template,
        "<div id=x><span>hi</span></div>"
    );
    assert_eq!(t.template_creation_ctx.templates[0].id, Binding::Tmpl(1));
    assert_eq!(Binding::Tmpl(1).text(""), "tmpl$1");
    assert_eq!(Binding::El(1).text(""), "el$1");
    assert_eq!(
        expr,
        Expr::Call(Box::new(Expr::Bound(Binding::Tmpl(1))), ExprList::Nil)
    );
}

#[test]
fn end_to_end_hydratable_template() {
    let el = element(
        "div",
        vec![str_attr("id", "x")],
        vec![JsxChild::Element(element(
            "span",
            Vec::new(),
            vec![JsxChild::Text(String::from("hi"))],
        ))],
    );
    let config = hydratable_config();
    let mut t = JsxTransform::new(config);
    let node = JsxChild::Element(el);
    let r = t.transform_node(&node, &TransformInfo::default()).unwrap();
    let expr = r
        .create_template(&t.config, &mut t.names, &mut t.template_creation_ctx, false)
        .unwrap();
    // the use site is el$1 = getNextElement(tmpl$1)
    assert_eq!(t.template_creation_ctx.imports.len(), 1);
    assert_eq!(t.template_creation_ctx.imports[0].name, "getNextElement");
    assert_eq!(Binding::Helper(0).text("getNextElement"), "_$getNextElement");
    assert_eq!(
        expr,
        Expr::Call(
            Box::new(Expr::Bound(Binding::Helper(0))),
            ExprList::Cons(Box::new(Expr::Bound(Binding::Tmpl(1))), Box::new(ExprList::Nil)),
        )
    );
}

#[test]
fn missing_template_id_aborts() {
    let r = TransformResult {
        id: Some(Binding::El(1)),
        template: Some(String::from("<div></div>")),
        exprs: Vec::new(),
        declarators: Vec::new(),
        text: false,
        dynamic: false,
        skip_template: true,
    };
    let config = default_config();
    let mut names = NameGen::new();
    let mut ctx = TemplateCreationCtx::new();
    let out = r.create_template_dom(&config, &mut names, &mut ctx, false);
    assert_eq!(out, Err(CompileError::MissingTemplateId));
    assert_eq!(ctx.templates.len(), 0);
}

#[test]
fn fragment_text_is_decoded() {
    // entity decoding applies only to fragment-level text values
    let children = vec![JsxChild::Text(String::from("a &amp; b"))];
    let mut t = JsxTransform::new(default_config());
    let r = t.transform_fragment_children(&children, &TransformInfo::default());
    assert_eq!(r.exprs.len(), 1);
    assert_eq!(r.exprs[0], Expr::StrLit(String::from("a & b")));
}

#[test]
fn fragment_groups_multiple_values_into_array() {
    let children = vec![
        JsxChild::ExpressionContainer(Some(ident("a"))),
        JsxChild::ExpressionContainer(Some(ident("b"))),
    ];
    let mut t = JsxTransform::new(default_config());
    let r = t.transform_fragment_children(&children, &TransformInfo::default());
    assert_eq!(r.exprs.len(), 1);
    match &r.exprs[0] {
        Expr::ArrayLit(ExprList::Cons(_, rest)) => match &**rest {
            ExprList::Cons(_, nil) => assert_eq!(**nil, ExprList::Nil),
            other => panic!("expected two elements, got {:?}", other),
        },
        other => panic!("expected an array, got {:?}", other),
    }
    // a single value passes through unchanged
    let one = vec![JsxChild::ExpressionContainer(Some(ident("a")))];
    let mut t2 = JsxTransform::new(default_config());
    let r2 = t2.transform_fragment_children(&one, &TransformInfo::default());
    assert_eq!(r2.exprs.len(), 1);
    assert!(!matches!(r2.exprs[0], Expr::ArrayLit(_)));
}

#[test]
fn void_and_svg_markup() {
    let br = element("br", Vec::new(), Vec::new());
    let mut t = JsxTransform::new(default_config());
    let r = t.transform_element(&br, &TransformInfo::default());
    assert_eq!(r.template.as_deref(), Some("<br>"));

    let circle = element("circle", Vec::new(), Vec::new());
    let mut info = TransformInfo::default();
    info.top_level = true;
    let mut t2 = JsxTransform::new(default_config());
    let r2 = t2.transform_element(&circle, &info);
    assert_eq!(r2.template.as_deref(), Some("<svg><circle></circle></svg>"));
    // not wrapped when it is not the root of the markup tree
    let mut t3 = JsxTransform::new(default_config());
    let r3 = t3.transform_element(&circle, &TransformInfo::default());
    assert_eq!(r3.template.as_deref(), Some("<circle></circle>"));
}

#[test]
fn dynamic_container_defers_in_thunk() {
    // a member read is dynamic and gets deferred behind a closure
    let e = Expr::StaticMember(Box::new(ident("state")), String::from("count"));
    let node = JsxChild::ExpressionContainer(Some(e.deep_clone()));
    let mut t = JsxTransform::new(default_config());
    let r = t.transform_node(&node, &TransformInfo::default()).unwrap();
    assert!(r.dynamic);
    assert_eq!(r.exprs.len(), 1);
    assert_eq!(
        r.exprs[0],
        Expr::Arrow(
            true,
            StmtList::Cons(Box::new(Stmt::ExprStmt(e)), Box::new(StmtList::Nil)),
        )
    );
}

#[test]
fn logical_extraction_memoizes_condition() {
    // cond && <X/> with a safe condition
    let e = Expr::Logical(true, Box::new(ident("cond")), Box::new(Expr::Markup(1)));
    let mut t = JsxTransform::new(default_config());
    let (stmt, _expr) = t.transform_logical_expression(&e, false, false);
    match stmt {
        Some(Stmt::VarDecl(DeclList::Cons(id, init, _))) => {
            assert_eq!(id, Binding::Cond(1));
            // the condition is coerced with a double negation inside the
            // memoized closure
            match &*init {
                Expr::Call(_, ExprList::Cons(arg, _)) => match &**arg {
                    Expr::Arrow(true, StmtList::Cons(body, _)) => match &**body {
                        Stmt::ExprStmt(Expr::Not(inner)) => {
                            assert_eq!(**inner, Expr::Not(Box::new(ident("cond"))));
                        },
                        other => panic!("unexpected closure body {:?}", other),
                    },
                    other => panic!("unexpected memo argument {:?}", other),
                },
                other => panic!("unexpected initializer {:?}", other),
            }
        },
        other => panic!("expected a hoisted declaration, got {:?}", other),
    }
}

#[test]
fn postprocess_emits_imports_and_template_declaration() {
    let el = element("div", Vec::new(), Vec::new());
    let mut t = JsxTransform::new(default_config());
    let node = JsxChild::Element(el);
    let r = t.transform_node(&node, &TransformInfo::default()).unwrap();
    let _ = r
        .create_template(&t.config, &mut t.names, &mut t.template_creation_ctx, false)
        .unwrap();
    let config = Config::default();
    let stmts = t.template_creation_ctx.postprocess(&config);
    assert_eq!(stmts.len(), 2);
    match &stmts[0] {
        Stmt::Import { name, module, local } => {
            assert_eq!(name, "template");
            assert_eq!(module, "dom");
            assert_eq!(*local, Binding::Helper(0));
        },
        other => panic!("expected an import, got {:?}", other),
    }
    match &stmts[1] {
        Stmt::VarDecl(DeclList::Cons(id, init, rest)) => {
            assert_eq!(*id, Binding::Tmpl(1));
            assert_eq!(**rest, DeclList::Nil);
            assert_eq!(
                **init,
                Expr::Call(
                    Box::new(Expr::Bound(Binding::Helper(0))),
                    ExprList::Cons(
                        Box::new(Expr::TemplateLit(String::from("<div></div>"))),
                        Box::new(ExprList::Nil),
                    ),
                )
            );
        },
        other => panic!("expected the template declaration, got {:?}", other),
    }
}

#[test]
fn empty_container_and_null_slot() {
    let mut t = JsxTransform::new(default_config());
    assert!(t
        .transform_node(&JsxChild::ExpressionContainer(None), &TransformInfo::default())
        .is_none());
    // an all-whitespace text node normalizes to empty and is elided
    assert!(t
        .transform_node(&JsxChild::Text(String::from("  \n\t ")), &TransformInfo::default())
        .is_none());
    let kept = t
        .transform_node(&JsxChild::Text(String::from(" hi ")), &TransformInfo::default())
        .unwrap();
    assert!(kept.text);
    assert_eq!(kept.template.as_deref(), Some(" hi "));
    // a result with nothing to emit becomes a null literal
    let r = TransformResult {
        id: None,
        template: None,
        exprs: Vec::new(),
        declarators: Vec::new(),
        text: false,
        dynamic: false,
        skip_template: false,
    };
    let config = default_config();
    let mut names = NameGen::new();
    let mut ctx = TemplateCreationCtx::new();
    let out = r.create_template_dom(&config, &mut names, &mut ctx, false).unwrap();
    assert_eq!(out, Expr::NullLit);
}
