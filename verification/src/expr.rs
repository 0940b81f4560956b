//! The host expression language, modeled as a closed sum type.
//!
//! The compiler reads expressions (to classify them as static or dynamic and
//! to recognize conditional shapes) and writes expressions (closures, calls,
//! memoized conditions, instantiation code). Constructs it never inspects are
//! carried as `Opaque` nodes: a handle the surrounding tooling can map back
//! to the original syntax, plus the traversable child expressions. Nested
//! markup inside an expression is likewise carried as a handle (`Markup`),
//! since the transform never descends into it from the expression side.

use vstd::prelude::*;

use crate::names::Binding;

verus! {

#[derive(Clone, Copy, PartialEq, Eq, Structural, Debug)]
pub enum BinOp {
    /// The `in` operator, a dynamic lookup when member checking is on.
    In,
    Eq,
    Lt,
    Add,
}

/// A cons list of expressions (call arguments, array elements). A list keeps
/// structural equality available in specifications, which a growable vector
/// does not.
#[derive(PartialEq, Debug)]
pub enum ExprList {
    Nil,
    Cons(Box<Expr>, Box<ExprList>),
}

#[derive(PartialEq, Debug)]
pub enum Expr {
    /// A source-level identifier reference.
    Ident(String),
    StrLit(String),
    /// A template literal holding only raw text.
    TemplateLit(String),
    NullLit,
    /// A reference to a compiler-minted binding.
    Bound(Binding),
    Call(Box<Expr>, ExprList),
    StaticMember(Box<Expr>, String),
    ComputedMember(Box<Expr>, Box<Expr>),
    PrivateMember(Box<Expr>, String),
    SpreadElem(Box<Expr>),
    Bin(BinOp, Box<Expr>, Box<Expr>),
    /// `left && right` when the flag is set, `left || right` otherwise.
    Logical(bool, Box<Expr>, Box<Expr>),
    Ternary(Box<Expr>, Box<Expr>, Box<Expr>),
    Not(Box<Expr>),
    /// An arrow function; the flag marks an expression-style body.
    Arrow(bool, StmtList),
    /// Nested markup in expression position, by handle.
    Markup(u64),
    ArrayLit(ExprList),
    /// Any other host construct: a handle plus its child expressions.
    Opaque(u64, ExprList),
}

#[derive(PartialEq, Debug)]
pub enum StmtList {
    Nil,
    Cons(Box<Stmt>, Box<StmtList>),
}

/// Declarators of one `var` statement.
#[derive(PartialEq, Debug)]
pub enum DeclList {
    Nil,
    Cons(Binding, Box<Expr>, Box<DeclList>),
}

#[derive(PartialEq, Debug)]
pub enum Stmt {
    ExprStmt(Expr),
    Return(Expr),
    VarDecl(DeclList),
    /// `import { name as local } from "module"`.
    Import { name: String, module: String, local: Binding },
}

impl Expr {
    /// A member access of any of the three member forms.
    pub open spec fn spec_is_member(&self) -> bool {
        match *self {
            Expr::StaticMember(_, _) => true,
            Expr::ComputedMember(_, _) => true,
            Expr::PrivateMember(_, _) => true,
            _ => false,
        }
    }

    pub fn is_member(&self) -> (r: bool)
        ensures
            r == self.spec_is_member(),
    {
        matches!(self, Expr::StaticMember(_, _) | Expr::ComputedMember(_, _) | Expr::PrivateMember(_, _))
    }

    pub open spec fn spec_is_call(&self) -> bool {
        matches!(*self, Expr::Call(_, _))
    }

    pub fn is_call(&self) -> (r: bool)
        ensures
            r == self.spec_is_call(),
    {
        matches!(self, Expr::Call(_, _))
    }

    pub fn deep_clone(&self) -> (r: Expr)
        ensures
            r == *self,
        decreases self,
    {
        match self {
            Expr::Ident(s) => Expr::Ident(s.clone()),
            Expr::StrLit(s) => Expr::StrLit(s.clone()),
            Expr::TemplateLit(s) => Expr::TemplateLit(s.clone()),
            Expr::NullLit => Expr::NullLit,
            Expr::Bound(b) => Expr::Bound(*b),
            Expr::Call(c, a) => Expr::Call(Box::new(c.deep_clone()), a.deep_clone()),
            Expr::StaticMember(o, p) => Expr::StaticMember(Box::new(o.deep_clone()), p.clone()),
            Expr::ComputedMember(o, i) => Expr::ComputedMember(
                Box::new(o.deep_clone()),
                Box::new(i.deep_clone()),
            ),
            Expr::PrivateMember(o, p) => Expr::PrivateMember(Box::new(o.deep_clone()), p.clone()),
            Expr::SpreadElem(x) => Expr::SpreadElem(Box::new(x.deep_clone())),
            Expr::Bin(op, l, r2) => Expr::Bin(*op, Box::new(l.deep_clone()), Box::new(r2.deep_clone())),
            Expr::Logical(and, l, r2) => Expr::Logical(
                *and,
                Box::new(l.deep_clone()),
                Box::new(r2.deep_clone()),
            ),
            Expr::Ternary(t, c, a) => Expr::Ternary(
                Box::new(t.deep_clone()),
                Box::new(c.deep_clone()),
                Box::new(a.deep_clone()),
            ),
            Expr::Not(x) => Expr::Not(Box::new(x.deep_clone())),
            Expr::Arrow(ex, b) => Expr::Arrow(*ex, b.deep_clone()),
            Expr::Markup(h) => Expr::Markup(*h),
            Expr::ArrayLit(l) => Expr::ArrayLit(l.deep_clone()),
            Expr::Opaque(h, l) => Expr::Opaque(*h, l.deep_clone()),
        }
    }
}

impl ExprList {
    pub fn deep_clone(&self) -> (r: ExprList)
        ensures
            r == *self,
        decreases self,
    {
        match self {
            ExprList::Nil => ExprList::Nil,
            ExprList::Cons(e, rest) => ExprList::Cons(
                Box::new(e.deep_clone()),
                Box::new(rest.deep_clone()),
            ),
        }
    }

    pub open spec fn spec_len(&self) -> nat
        decreases self,
    {
        match *self {
            ExprList::Nil => 0,
            ExprList::Cons(_, rest) => 1 + rest.spec_len(),
        }
    }
}

impl StmtList {
    pub fn deep_clone(&self) -> (r: StmtList)
        ensures
            r == *self,
        decreases self,
    {
        match self {
            StmtList::Nil => StmtList::Nil,
            StmtList::Cons(s, rest) => StmtList::Cons(
                Box::new(s.deep_clone()),
                Box::new(rest.deep_clone()),
            ),
        }
    }
}

impl DeclList {
    pub fn deep_clone(&self) -> (r: DeclList)
        ensures
            r == *self,
        decreases self,
    {
        match self {
            DeclList::Nil => DeclList::Nil,
            DeclList::Cons(b, e, rest) => DeclList::Cons(
                *b,
                Box::new(e.deep_clone()),
                Box::new(rest.deep_clone()),
            ),
        }
    }
}

impl Stmt {
    pub fn deep_clone(&self) -> (r: Stmt)
        ensures
            r == *self,
        decreases self,
    {
        match self {
            Stmt::ExprStmt(e) => Stmt::ExprStmt(e.deep_clone()),
            Stmt::Return(e) => Stmt::Return(e.deep_clone()),
            Stmt::VarDecl(d) => Stmt::VarDecl(d.deep_clone()),
            Stmt::Import { name, module, local } => Stmt::Import {
                name: name.clone(),
                module: module.clone(),
                local: *local,
            },
        }
    }
}

/// The sequence of expressions a cons list holds.
pub open spec fn list_seq(l: ExprList) -> Seq<Expr>
    decreases l,
{
    match l {
        ExprList::Nil => Seq::empty(),
        ExprList::Cons(e, rest) => seq![*e] + list_seq(*rest),
    }
}

/// The cons list holding a sequence of expressions.
pub open spec fn seq_list(s: Seq<Expr>) -> ExprList
    decreases s.len(),
{
    if s.len() == 0 {
        ExprList::Nil
    } else {
        ExprList::Cons(Box::new(s[0]), Box::new(seq_list(s.drop_first())))
    }
}

/// Clone the elements of a vector from position `i` on into a cons list.
pub fn vec_to_list_from(v: &Vec<Expr>, i: usize) -> (r: ExprList)
    requires
        i <= v@.len(),
    ensures
        r == seq_list(v@.skip(i as int)),
    decreases v@.len() - i,
{
    if i == v.len() {
        proof {
            assert(v@.skip(i as int) =~= Seq::<Expr>::empty());
        }
        ExprList::Nil
    } else {
        let rest = vec_to_list_from(v, i + 1);
        proof {
            assert(v@.skip(i as int).drop_first() =~= v@.skip(i + 1));
            assert(v@.skip(i as int)[0] == v@[i as int]);
        }
        ExprList::Cons(Box::new(v[i].deep_clone()), Box::new(rest))
    }
}

/// A cons list built from a sequence holds that sequence.
pub proof fn lemma_list_seq_roundtrip(s: Seq<Expr>)
    ensures
        list_seq(seq_list(s)) == s,
    decreases s.len(),
{
    if s.len() == 0 {
        assert(list_seq(seq_list(s)) =~= s);
    } else {
        lemma_list_seq_roundtrip(s.drop_first());
        assert(list_seq(seq_list(s)) =~= s);
    }
}

/// The static-or-dynamic classifier's configuration. `check_member`,
/// `check_tags` and `check_call_expressions` select which constructs qualify
/// as dynamic; `native` records whether the expression sits under a native
/// element rather than a component, which callers use when choosing a
/// configuration (it does not itself alter the predicate).
#[derive(Clone, Copy, PartialEq, Eq, Structural, Debug)]
pub struct DynamicChecker {
    pub check_member: bool,
    pub check_tags: bool,
    pub check_call_expressions: bool,
    pub native: bool,
}

/// Whether an expression subtree is dynamic under configuration `c`: true
/// exactly when a qualifying construct occurs outside any nested function
/// body. Everything inside a nested function is suppressed (it runs lazily
/// later), which is the closure-boundary rule.
pub open spec fn spec_is_dynamic(c: DynamicChecker, e: Expr) -> bool
    decreases e,
{
    match e {
        Expr::Ident(_) => false,
        Expr::StrLit(_) => false,
        Expr::TemplateLit(_) => false,
        Expr::NullLit => false,
        Expr::Bound(_) => false,
        Expr::Call(callee, args) => c.check_call_expressions || spec_is_dynamic(c, *callee)
            || spec_any_dynamic(c, args),
        Expr::StaticMember(o, _) => c.check_member || spec_is_dynamic(c, *o),
        Expr::ComputedMember(o, i) => c.check_member || spec_is_dynamic(c, *o) || spec_is_dynamic(
            c,
            *i,
        ),
        Expr::PrivateMember(o, _) => c.check_member || spec_is_dynamic(c, *o),
        Expr::SpreadElem(x) => c.check_member || spec_is_dynamic(c, *x),
        Expr::Bin(op, l, r) => (c.check_member && op == BinOp::In) || spec_is_dynamic(c, *l)
            || spec_is_dynamic(c, *r),
        Expr::Logical(_, l, r) => spec_is_dynamic(c, *l) || spec_is_dynamic(c, *r),
        Expr::Ternary(t, cons, alt) => spec_is_dynamic(c, *t) || spec_is_dynamic(c, *cons)
            || spec_is_dynamic(c, *alt),
        Expr::Not(x) => spec_is_dynamic(c, *x),
        Expr::Arrow(_, _) => false,
        Expr::Markup(_) => c.check_tags,
        Expr::ArrayLit(l) => spec_any_dynamic(c, l),
        Expr::Opaque(_, l) => spec_any_dynamic(c, l),
    }
}

pub open spec fn spec_any_dynamic(c: DynamicChecker, l: ExprList) -> bool
    decreases l,
{
    match l {
        ExprList::Nil => false,
        ExprList::Cons(e, rest) => spec_is_dynamic(c, *e) || spec_any_dynamic(c, *rest),
    }
}

impl DynamicChecker {
    /// A checker with every check switched off.
    pub fn new() -> (r: Self)
        ensures
            r == (DynamicChecker {
                check_member: false,
                check_tags: false,
                check_call_expressions: false,
                native: false,
            }),
    {
        DynamicChecker { check_member: false, check_tags: false, check_call_expressions: false, native: false }
    }

    pub fn check_member(self, yes: bool) -> (r: Self)
        ensures
            r == (DynamicChecker { check_member: yes, ..self }),
    {
        DynamicChecker { check_member: yes, ..self }
    }

    pub fn check_tags(self, yes: bool) -> (r: Self)
        ensures
            r == (DynamicChecker { check_tags: yes, ..self }),
    {
        DynamicChecker { check_tags: yes, ..self }
    }

    pub fn check_call_expressions(self, yes: bool) -> (r: Self)
        ensures
            r == (DynamicChecker { check_call_expressions: yes, ..self }),
    {
        DynamicChecker { check_call_expressions: yes, ..self }
    }

    pub fn native(self, yes: bool) -> (r: Self)
        ensures
            r == (DynamicChecker { native: yes, ..self }),
    {
        DynamicChecker { native: yes, ..self }
    }

    /// Classify an expression subtree as static (`false`) or dynamic
    /// (`true`) under this configuration.
    pub fn check(&self, expression: &Expr) -> (r: bool)
        ensures
            r == spec_is_dynamic(*self, *expression),
        decreases expression,
    {
        match expression {
            Expr::Ident(_) => false,
            Expr::StrLit(_) => false,
            Expr::TemplateLit(_) => false,
            Expr::NullLit => false,
            Expr::Bound(_) => false,
            Expr::Call(callee, args) => self.check_call_expressions || self.check(callee)
                || self.check_list(args),
            Expr::StaticMember(o, _) => self.check_member || self.check(o),
            Expr::ComputedMember(o, i) => self.check_member || self.check(o) || self.check(i),
            Expr::PrivateMember(o, _) => self.check_member || self.check(o),
            Expr::SpreadElem(x) => self.check_member || self.check(x),
            Expr::Bin(op, l, r2) => (self.check_member && *op == BinOp::In) || self.check(l)
                || self.check(r2),
            Expr::Logical(_, l, r2) => self.check(l) || self.check(r2),
            Expr::Ternary(t, cons, alt) => self.check(t) || self.check(cons) || self.check(alt),
            Expr::Not(x) => self.check(x),
            Expr::Arrow(_, _) => false,
            Expr::Markup(_) => self.check_tags,
            Expr::ArrayLit(l) => self.check_list(l),
            Expr::Opaque(_, l) => self.check_list(l),
        }
    }

    fn check_list(&self, l: &ExprList) -> (r: bool)
        ensures
            r == spec_any_dynamic(*self, *l),
        decreases l,
    {
        match l {
            ExprList::Nil => false,
            ExprList::Cons(e, rest) => self.check(e) || self.check_list(rest),
        }
    }
}

impl Default for DynamicChecker {
    fn default() -> (r: Self)
        ensures
            r == (DynamicChecker {
                check_member: false,
                check_tags: false,
                check_call_expressions: false,
                native: false,
            }),
    {
        DynamicChecker::new()
    }
}

/// Closure-boundary suppression: whatever sits inside a nested function body
/// never makes the enclosing expression dynamic, under every configuration.
pub proof fn lemma_closure_boundary(c: DynamicChecker, expression_body: bool, body: StmtList)
    ensures
        !spec_is_dynamic(c, Expr::Arrow(expression_body, body)),
{
}

/// A member access in the open, by contrast, is dynamic under every
/// configuration that checks member accesses.
pub proof fn lemma_open_member_dynamic(c: DynamicChecker, object: Box<Expr>, property: String)
    requires
        c.check_member,
    ensures
        spec_is_dynamic(c, Expr::StaticMember(object, property)),
{
}

} // verus!
