use jsx_dom_expressions::expr::{BinOp, DynamicChecker, Expr, ExprList, Stmt, StmtList};
use jsx_dom_expressions::names::{Binding, NameGen};
use jsx_dom_expressions::text::jsx_text_to_str;
use jsx_dom_expressions::tree::{
    get_tag_name, is_custom_tag, is_svg_tag, is_void_tag, keep_child, str_eq, ElementName,
    JsxChild, JsxElement,
};

fn ident(name: &str) -> Expr {
    Expr::Ident(String::from(name))
}

fn member(obj: Expr, prop: &str) -> Expr {
    Expr::StaticMember(Box::new(obj), String::from(prop))
}

fn thunk_of(e: Expr) -> Expr {
    Expr::Arrow(
        true,
        StmtList::Cons(Box::new(Stmt::ExprStmt(e)), Box::new(StmtList::Nil)),
    )
}

#[test]
fn text_normalization_collapses_whitespace() {
    assert_eq!(jsx_text_to_str("a \n\tb  \n  c"), "a b c");
}

#[test]
fn text_normalization_all_whitespace_is_empty() {
    assert_eq!(jsx_text_to_str("  \n\t  \n  "), "");
    assert_eq!(jsx_text_to_str(""), "");
}

#[test]
fn text_normalization_keeps_single_line_padding() {
    // a single line is both first and last: neither end is trimmed
    assert_eq!(jsx_text_to_str(" a "), " a ");
    // carriage returns vanish, tabs become spaces
    assert_eq!(jsx_text_to_str("a\r\nb"), "a b");
    assert_eq!(jsx_text_to_str("a\tb"), "a b");
}

#[test]
fn all_whitespace_text_child_is_dropped() {
    assert!(!keep_child(&JsxChild::Text(String::from(" \n\t "))));
    assert!(keep_child(&JsxChild::Text(String::from(" x "))));
    assert!(!keep_child(&JsxChild::ExpressionContainer(None)));
    assert!(keep_child(&JsxChild::ExpressionContainer(Some(ident("a")))));
}

#[test]
fn closure_boundary_suppresses_member_access() {
    let checker = DynamicChecker::new().check_member(true);
    // {() => obj.prop} : the member access sits inside a nested function
    let closed = thunk_of(member(ident("obj"), "prop"));
    assert!(!checker.check(&closed));
    // obj.prop in the open is dynamic under the same configuration
    assert!(checker.check(&member(ident("obj"), "prop")));
}

#[test]
fn checker_triggers_by_configuration() {
    let plain = DynamicChecker::new();
    let call = Expr::Call(Box::new(ident("f")), ExprList::Nil);
    assert!(!plain.check(&call));
    assert!(plain.check_call_expressions(true).check(&call));

    let markup = Expr::Markup(7);
    assert!(!plain.check(&markup));
    assert!(plain.check_tags(true).check(&markup));

    let contains = Expr::Bin(BinOp::In, Box::new(ident("k")), Box::new(ident("m")));
    assert!(!plain.check(&contains));
    assert!(plain.check_member(true).check(&contains));
    let compares = Expr::Bin(BinOp::Lt, Box::new(ident("k")), Box::new(ident("m")));
    assert!(!plain.check_member(true).check(&compares));

    // a qualifying construct is found at depth
    let nested = Expr::ArrayLit(ExprList::Cons(
        Box::new(member(ident("o"), "p")),
        Box::new(ExprList::Nil),
    ));
    assert!(plain.check_member(true).check(&nested));
}

#[test]
fn spread_triggers_member_checking() {
    let checker = DynamicChecker::new().check_member(true);
    assert!(checker.check(&Expr::SpreadElem(Box::new(ident("xs")))));
    assert!(!DynamicChecker::new().check(&Expr::SpreadElem(Box::new(ident("xs")))));
}

#[test]
fn tag_names_render() {
    let el = JsxElement {
        name: ElementName::Ident(String::from("div")),
        attributes: Vec::new(),
        children: Vec::new(),
    };
    assert_eq!(get_tag_name(&el), "div");
    let member_tag = JsxElement {
        name: ElementName::Member(String::from("a"), vec![String::from("b"), String::from("c")]),
        attributes: Vec::new(),
        children: Vec::new(),
    };
    assert_eq!(get_tag_name(&member_tag), "a.b.c");
    let ns = JsxElement {
        name: ElementName::Namespaced(String::from("svg"), String::from("use")),
        attributes: Vec::new(),
        children: Vec::new(),
    };
    assert_eq!(get_tag_name(&ns), "svg:use");
}

#[test]
fn tag_classification() {
    assert!(is_void_tag("br"));
    assert!(is_void_tag("img"));
    assert!(!is_void_tag("div"));
    assert!(is_svg_tag("circle"));
    assert!(is_svg_tag("svg"));
    assert!(!is_svg_tag("span"));
    assert!(is_custom_tag("my-widget"));
    assert!(!is_custom_tag("widget"));
    assert!(str_eq("abc", "abc"));
    assert!(!str_eq("abc", "abd"));
    assert!(!str_eq("abc", "ab"));
}

#[test]
fn minted_binding_texts() {
    let mut names = NameGen::new();
    let el = names.fresh_el();
    assert_eq!(el, Binding::El(1));
    assert_eq!(el.text(""), "el$1");
    assert_eq!(names.fresh_el().text(""), "el$2");
    assert_eq!(names.fresh_tmpl().text(""), "tmpl$1");
    assert_eq!(names.fresh_cond().text(""), "_c$1");
    assert_eq!(Binding::Cond(12).text(""), "_c$12");
    assert_eq!(Binding::Helper(0).text("memo"), "_$memo");
}
