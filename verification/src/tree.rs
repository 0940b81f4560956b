//! The markup tree: the five node kinds as a closed sum type, tag
//! classification, and the literal markup each node contributes to its
//! enclosing template.

use vstd::prelude::*;

use crate::expr::Expr;
use crate::text::normalize_text;

verus! {

broadcast use vstd::seq::group_seq_axioms, vstd::std_specs::vec::group_vec_axioms;

/// The tag position of an element.
#[derive(PartialEq, Debug)]
pub enum ElementName {
    /// A plain identifier tag, `div` or `Component`.
    Ident(String),
    /// A member tag, `object.p1.p2...`: the base object and the property
    /// chain, innermost first.
    Member(String, Vec<String>),
    /// A namespaced tag, `ns:name`.
    Namespaced(String, String),
}

/// One attribute position of an element.
#[derive(PartialEq, Debug)]
pub enum AttrItem {
    Attr(JsxAttr),
    /// A spread of an object into the attribute list; it never contributes
    /// literal markup.
    SpreadAttr(Expr),
}

#[derive(PartialEq, Debug)]
pub struct JsxAttr {
    pub name: String,
    /// `None` is a valueless attribute (`<input disabled>`).
    pub value: Option<AttrValue>,
}

#[derive(PartialEq, Debug)]
pub enum AttrValue {
    /// A literal string value, embedded in the template as-is.
    StrVal(String),
    /// An expression value, compiled into a runtime binding call.
    ExprVal(Expr),
}

#[derive(PartialEq, Debug)]
pub struct JsxElement {
    pub name: ElementName,
    pub attributes: Vec<AttrItem>,
    pub children: Vec<JsxChild>,
}

/// A node of the markup tree.
#[derive(PartialEq, Debug)]
pub enum JsxChild {
    Element(JsxElement),
    Fragment(Vec<JsxChild>),
    /// Literal text, raw as written.
    Text(String),
    /// `{expr}`; `None` is an empty container, `{}`.
    ExpressionContainer(Option<Expr>),
    /// `{...expr}` in child position.
    Spread(Expr),
}

/// Character-level equality of two string slices.
pub fn str_eq(a: &str, b: &str) -> (r: bool)
    ensures
        r == (a@ == b@),
{
    let n = a.unicode_len();
    if n != b.unicode_len() {
        return false;
    }
    let mut i: usize = 0;
    while i < n
        invariant
            n == a@.len() == b@.len(),
            i <= n,
            forall|k: int| 0 <= k < i ==> a@[k] == b@[k],
        decreases n - i,
    {
        if a.get_char(i) != b.get_char(i) {
            return false;
        }
        i = i + 1;
    }
    proof {
        assert(a@ =~= b@);
    }
    true
}

/// The dotted property chain of a member tag, `".p1.p2..."`.
pub open spec fn props_text(ps: Seq<String>) -> Seq<char>
    decreases ps.len(),
{
    if ps.len() == 0 {
        Seq::empty()
    } else {
        "."@ + ps[0]@ + props_text(ps.drop_first())
    }
}

/// The textual tag name of an element.
pub open spec fn spec_tag_name(name: ElementName) -> Seq<char> {
    match name {
        ElementName::Ident(s) => s@,
        ElementName::Member(base, props) => base@ + props_text(props@),
        ElementName::Namespaced(ns, nm) => ns@ + ":"@ + nm@,
    }
}

/// Textual tag name of an element: a plain identifier as written, a member
/// tag joined with dots, a namespaced tag joined with a colon.
pub fn get_tag_name(element: &JsxElement) -> (r: String)
    ensures
        r@ == spec_tag_name(element.name),
{
    match &element.name {
        ElementName::Ident(s) => s.clone(),
        ElementName::Member(base, props) => {
            let mut out = base.clone();
            let mut i: usize = 0;
            while i < props.len()
                invariant
                    i <= props@.len(),
                    out@ == base@ + props_text(props@.take(i as int)),
                decreases props@.len() - i,
            {
                out.append(".");
                out.append(props[i].as_str());
                proof {
                    lemma_props_text_snoc(props@, i as int);
                }
                i = i + 1;
            }
            proof {
                assert(props@.take(props@.len() as int) =~= props@);
            }
            out
        },
        ElementName::Namespaced(ns, nm) => {
            let mut out = ns.clone();
            out.append(":");
            out.append(nm.as_str());
            proof {
                assert(out@ =~= ns@ + ":"@ + nm@);
            }
            out
        },
    }
}

proof fn lemma_props_text_snoc(ps: Seq<String>, i: int)
    requires
        0 <= i < ps.len(),
    ensures
        props_text(ps.take(i + 1)) == props_text(ps.take(i)) + "."@ + ps[i]@,
    decreases i,
{
    if i == 0 {
        assert(ps.take(1).drop_first() =~= Seq::<String>::empty());
        assert(ps.take(0) =~= Seq::<String>::empty());
        assert(props_text(Seq::<String>::empty()) =~= Seq::<char>::empty());
        assert(ps.take(1)[0] == ps[0]);
        assert(props_text(ps.take(1)) =~= "."@ + ps[0]@);
        assert(props_text(ps.take(0)) + "."@ + ps[i]@ =~= "."@ + ps[0]@);
    } else {
        lemma_props_text_snoc(ps.drop_first(), i - 1);
        assert(ps.take(i + 1).drop_first() =~= ps.drop_first().take(i));
        assert(ps.take(i).drop_first() =~= ps.drop_first().take(i - 1));
        assert(ps.take(i + 1)[0] == ps[0]);
        assert(ps.take(i)[0] == ps[0]);
        assert(ps.drop_first()[i - 1] == ps[i]);
        assert(props_text(ps.take(i + 1)) =~= props_text(ps.take(i)) + "."@ + ps[i]@);
    }
}

/// Void tags never receive a closing tag in assembled markup.
pub open spec fn spec_is_void_tag(t: Seq<char>) -> bool {
    ||| t == "area"@
    ||| t == "base"@
    ||| t == "br"@
    ||| t == "col"@
    ||| t == "embed"@
    ||| t == "hr"@
    ||| t == "img"@
    ||| t == "input"@
    ||| t == "link"@
    ||| t == "meta"@
    ||| t == "param"@
    ||| t == "source"@
    ||| t == "track"@
    ||| t == "wbr"@
}

pub fn is_void_tag(t: &str) -> (r: bool)
    ensures
        r == spec_is_void_tag(t@),
{
    str_eq(t, "area") || str_eq(t, "base") || str_eq(t, "br") || str_eq(t, "col") || str_eq(
        t,
        "embed",
    ) || str_eq(t, "hr") || str_eq(t, "img") || str_eq(t, "input") || str_eq(t, "link") || str_eq(
        t,
        "meta",
    ) || str_eq(t, "param") || str_eq(t, "source") || str_eq(t, "track") || str_eq(t, "wbr")
}

/// Tags of the SVG namespace: when one of these roots a markup tree that is
/// not already inside an `svg` tag, instantiation needs a namespace-aware
/// wrapper.
pub open spec fn spec_is_svg_tag(t: Seq<char>) -> bool {
    ||| t == "svg"@
    ||| t == "circle"@
    ||| t == "clipPath"@
    ||| t == "defs"@
    ||| t == "desc"@
    ||| t == "ellipse"@
    ||| t == "filter"@
    ||| t == "foreignObject"@
    ||| t == "g"@
    ||| t == "image"@
    ||| t == "line"@
    ||| t == "linearGradient"@
    ||| t == "marker"@
    ||| t == "mask"@
    ||| t == "metadata"@
    ||| t == "path"@
    ||| t == "pattern"@
    ||| t == "polygon"@
    ||| t == "polyline"@
    ||| t == "radialGradient"@
    ||| t == "rect"@
    ||| t == "stop"@
    ||| t == "switch"@
    ||| t == "symbol"@
    ||| t == "text"@
    ||| t == "textPath"@
    ||| t == "tspan"@
    ||| t == "use"@
    ||| t == "view"@
}

pub fn is_svg_tag(t: &str) -> (r: bool)
    ensures
        r == spec_is_svg_tag(t@),
{
    str_eq(t, "svg") || str_eq(t, "circle") || str_eq(t, "clipPath") || str_eq(t, "defs")
        || str_eq(t, "desc") || str_eq(t, "ellipse") || str_eq(t, "filter") || str_eq(
        t,
        "foreignObject",
    ) || str_eq(t, "g") || str_eq(t, "image") || str_eq(t, "line") || str_eq(t, "linearGradient")
        || str_eq(t, "marker") || str_eq(t, "mask") || str_eq(t, "metadata") || str_eq(t, "path")
        || str_eq(t, "pattern") || str_eq(t, "polygon") || str_eq(t, "polyline") || str_eq(
        t,
        "radialGradient",
    ) || str_eq(t, "rect") || str_eq(t, "stop") || str_eq(t, "switch") || str_eq(t, "symbol")
        || str_eq(t, "text") || str_eq(t, "textPath") || str_eq(t, "tspan") || str_eq(t, "use")
        || str_eq(t, "view")
}

/// A tag with a hyphen names a custom element, which bypasses the
/// property-versus-attribute heuristics of built-in tags.
pub open spec fn spec_is_custom_tag(t: Seq<char>) -> bool {
    exists|i: int| 0 <= i < t.len() && t[i] == '-'
}

pub fn is_custom_tag(t: &str) -> (r: bool)
    ensures
        r == spec_is_custom_tag(t@),
{
    let n = t.unicode_len();
    let mut i: usize = 0;
    while i < n
        invariant
            n == t@.len(),
            i <= n,
            forall|k: int| 0 <= k < i ==> t@[k] != '-',
        decreases n - i,
    {
        if t.get_char(i) == '-' {
            return true;
        }
        i = i + 1;
    }
    false
}

/// Whitespace as the child-filtering rule counts it.
pub open spec fn spec_is_ws(c: char) -> bool {
    c == ' ' || c == '\t' || c == '\n' || c == '\r'
}

pub open spec fn spec_all_ws(s: Seq<char>) -> bool {
    forall|i: int| 0 <= i < s.len() ==> spec_is_ws(s[i])
}

/// The shared filtering rule: a child is retained unless it is an empty
/// expression container or a text node of nothing but whitespace.
pub open spec fn spec_keep_child(c: JsxChild) -> bool {
    match c {
        JsxChild::ExpressionContainer(e) => e is Some,
        JsxChild::Text(s) => !spec_all_ws(s@),
        _ => true,
    }
}

pub fn keep_child(c: &JsxChild) -> (r: bool)
    ensures
        r == spec_keep_child(*c),
{
    match c {
        JsxChild::ExpressionContainer(e) => e.is_some(),
        JsxChild::Text(s) => {
            let t = s.as_str();
            let n = t.unicode_len();
            let mut i: usize = 0;
            while i < n
                invariant
                    *c == JsxChild::Text(*s),
                    t@ == s@,
                    n == t@.len(),
                    i <= n,
                    forall|k: int| 0 <= k < i ==> spec_is_ws(t@[k]),
                decreases n - i,
            {
                let ch = t.get_char(i);
                if ch != ' ' && ch != '\t' && ch != '\n' && ch != '\r' {
                    proof {
                        assert(s@[i as int] == t@[i as int]);
                        assert(!spec_all_ws(s@)) by {
                            assert(0 <= i < s@.len() && !spec_is_ws(s@[i as int]));
                        }
                    }
                    return true;
                }
                i = i + 1;
            }
            false
        },
        _ => true,
    }
}

/// The indices of the retained children, in order.
pub fn filter_children(children: &Vec<JsxChild>) -> (r: Vec<usize>)
    ensures
        r@ == spec_kept_indices(children@, 0),
{
    let mut r: Vec<usize> = Vec::new();
    let mut i: usize = 0;
    while i < children.len()
        invariant
            i <= children@.len(),
            r@ + spec_kept_indices(children@, i as int) == spec_kept_indices(children@, 0),
        decreases children@.len() - i,
    {
        if keep_child(&children[i]) {
            r.push(i);
        }
        i = i + 1;
    }
    proof {
        assert(r@ + spec_kept_indices(children@, children@.len() as int) =~= r@);
    }
    r
}

/// Indices at or after `i` of the children the filtering rule retains.
pub open spec fn spec_kept_indices(cs: Seq<JsxChild>, i: int) -> Seq<usize>
    decreases cs.len() - i when 0 <= i <= cs.len()
{
    if i >= cs.len() {
        Seq::empty()
    } else if spec_keep_child(cs[i]) {
        seq![i as usize] + spec_kept_indices(cs, i + 1)
    } else {
        spec_kept_indices(cs, i + 1)
    }
}

/// Literal markup of one attribute: ` name=value` for a string value,
/// ` name` for no value, nothing for an expression value (which becomes a
/// runtime binding) or a spread.
pub open spec fn spec_attr_markup(a: AttrItem) -> Seq<char> {
    match a {
        AttrItem::Attr(attr) => match attr.value {
            Some(AttrValue::StrVal(v)) => " "@ + attr.name@ + "="@ + v@,
            Some(AttrValue::ExprVal(_)) => Seq::empty(),
            None => " "@ + attr.name@,
        },
        AttrItem::SpreadAttr(_) => Seq::empty(),
    }
}

pub open spec fn spec_attrs_markup(attrs: Seq<AttrItem>) -> Seq<char>
    decreases attrs.len(),
{
    if attrs.len() == 0 {
        Seq::empty()
    } else {
        spec_attr_markup(attrs[0]) + spec_attrs_markup(attrs.drop_first())
    }
}

/// Markup one retained child contributes to its parent's template: elements
/// recurse, text normalizes, everything else is a runtime value and
/// contributes nothing literal.
pub open spec fn spec_child_markup(c: JsxChild) -> Seq<char>
    decreases c,
{
    match c {
        JsxChild::Element(el) => spec_element_markup(el, false),
        JsxChild::Text(s) => normalize_text(s@),
        JsxChild::Fragment(_) => Seq::empty(),
        JsxChild::ExpressionContainer(_) => Seq::empty(),
        JsxChild::Spread(_) => Seq::empty(),
    }
}

pub open spec fn spec_children_markup(cs: Seq<JsxChild>, i: int) -> Seq<char>
    decreases cs, cs.len() - i when 0 <= i <= cs.len()
{
    if i >= cs.len() {
        Seq::empty()
    } else if spec_keep_child(cs[i]) {
        spec_child_markup(cs[i]) + spec_children_markup(cs, i + 1)
    } else {
        spec_children_markup(cs, i + 1)
    }
}

/// The whole literal markup of an element: tag, literal attributes, child
/// markup in order, and a closing tag unless the tag is void. A namespace
/// tag rooting a markup tree not already rooted at `svg` is wrapped in an
/// `svg` container, which instantiation unwraps.
pub open spec fn spec_element_markup(el: JsxElement, top_level: bool) -> Seq<char>
    decreases el,
{
    let tag = spec_tag_name(el.name);
    let open = "<"@ + tag + spec_attrs_markup(el.attributes@) + ">"@;
    let close = if spec_is_void_tag(tag) {
        Seq::<char>::empty()
    } else {
        "</"@ + tag + ">"@
    };
    let core = open + spec_children_markup(el.children@, 0) + close;
    if top_level && tag != "svg"@ && spec_is_svg_tag(tag) {
        "<svg>"@ + core + "</svg>"@
    } else {
        core
    }
}

} // verus!
