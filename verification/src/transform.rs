//! The node dispatcher and the control-flow extractor: the recursive
//! rewrite of markup nodes into template markup plus per-use-site
//! instantiation code.

use vstd::prelude::*;

use crate::expr::{spec_is_dynamic, DeclList, DynamicChecker, Expr, ExprList, Stmt, StmtList};
use crate::names::{Binding, NameGen};
use crate::registry::{
    imports_view, spec_register_key, spec_register_key_binding, Config, TemplateCreationCtx,
};
use crate::tree::{spec_keep_child, AttrItem, AttrValue, JsxChild, JsxElement};

verus! {

broadcast use vstd::seq::group_seq_axioms, vstd::std_specs::vec::group_vec_axioms;

/// Context passed top-down through the rewrite, never mutated after
/// construction.
#[derive(Clone, Copy, PartialEq, Eq, Structural, Debug)]
pub struct TransformInfo {
    /// The node roots a markup tree (governs the namespace-wrap decision).
    pub top_level: bool,
    /// Suppress minting an instantiated-node binding for this node.
    pub skip_id: bool,
    /// The node is the last sibling of its parent.
    pub last_element: bool,
    /// Text under this node is not entity-escaped.
    pub do_not_escape: bool,
    /// The node is the child of a component.
    pub component_child: bool,
    /// The node is the child of a fragment.
    pub fragment_child: bool,
}

impl Default for TransformInfo {
    fn default() -> (r: TransformInfo)
        ensures
            r == (TransformInfo {
                top_level: false,
                skip_id: false,
                last_element: false,
                do_not_escape: false,
                component_child: false,
                fragment_child: false,
            }),
    {
        TransformInfo {
            top_level: false,
            skip_id: false,
            last_element: false,
            do_not_escape: false,
            component_child: false,
            fragment_child: false,
        }
    }
}

/// What transforming one node produces: its literal markup (if any), its
/// minted root binding (if any), the dynamic expressions it contributes in
/// document order, and the instantiation declarators filled in by template
/// creation.
pub struct TransformResult {
    pub id: Option<Binding>,
    pub template: Option<String>,
    pub exprs: Vec<Expr>,
    pub declarators: Vec<(Binding, Expr)>,
    pub text: bool,
    pub dynamic: bool,
    pub skip_template: bool,
}

/// The transform of one compilation unit: its configuration, its name
/// counters, and its registries, created fresh per unit and consumed once
/// by the hoisting pass.
pub struct JsxTransform {
    pub config: Config,
    pub names: NameGen,
    pub template_creation_ctx: TemplateCreationCtx,
}

impl JsxTransform {
    pub fn new(config: Config) -> (r: JsxTransform)
        ensures
            r.config == config,
            r.names == (NameGen { el: 1u64, tmpl: 1u64, cond: 1u64 }),
            r.template_creation_ctx.templates@ =~= Seq::<crate::registry::Template>::empty(),
            r.template_creation_ctx.imports@ =~= Seq::<crate::registry::ImportEntry>::empty(),
    {
        JsxTransform { config, names: NameGen::new(), template_creation_ctx: TemplateCreationCtx::new() }
    }
}

/// Configuration that finds markup or calls in a branch.
pub open spec fn spec_tags_calls_checker() -> DynamicChecker {
    DynamicChecker { check_member: false, check_tags: true, check_call_expressions: true, native: false }
}

/// Configuration that finds member or call accesses in a condition; a
/// condition containing either is unsafe to memoize.
pub open spec fn spec_member_calls_checker() -> DynamicChecker {
    DynamicChecker { check_member: true, check_tags: false, check_call_expressions: true, native: false }
}

/// A memoized condition compares truthiness: a comparison or boolean
/// binary expression is used as it stands, anything else is coerced with a
/// double boolean negation.
pub open spec fn spec_coerce_condition(e: Expr) -> Expr {
    if e matches Expr::Bin(_, _, _) {
        e
    } else {
        Expr::Not(Box::new(Expr::Not(Box::new(e))))
    }
}

/// A zero-argument closure whose body evaluates `e`.
pub open spec fn spec_thunk(e: Expr) -> Expr {
    Expr::Arrow(true, StmtList::Cons(Box::new(Stmt::ExprStmt(e)), Box::new(StmtList::Nil)))
}

/// A logical-AND extraction rewrites when the right side contains markup or
/// calls and the left side is safe to memoize.
pub open spec fn spec_logical_applicable(is_and: bool, left: Expr, right: Expr) -> bool {
    is_and && spec_is_dynamic(spec_tags_calls_checker(), right) && !spec_is_dynamic(
        spec_member_calls_checker(),
        left,
    )
}

/// A ternary extraction rewrites when a branch contains markup or calls and
/// the condition is safe to memoize.
pub open spec fn spec_ternary_applicable(test: Expr, cons: Expr, alt: Expr) -> bool {
    (spec_is_dynamic(spec_tags_calls_checker(), cons) || spec_is_dynamic(
        spec_tags_calls_checker(),
        alt,
    )) && !spec_is_dynamic(spec_member_calls_checker(), test)
}

/// Final assembly of an extraction: an optional hoisted declaration binding
/// the memoized condition, or an immediately-invoked wrapper when the
/// extraction is nested (`deep`); without a declaration the result is
/// wrapped as a zero-argument closure so callers always receive a callable.
pub open spec fn spec_short_circuit(
    memo_b: Binding,
    memo_on: bool,
    transformed: Expr,
    short_circuit: Option<(Binding, Expr)>,
    deep: bool,
) -> (Option<Stmt>, Expr) {
    match short_circuit {
        Some((id, condition)) => {
            let callee = spec_thunk(condition);
            let init = if memo_on {
                Expr::Call(Box::new(Expr::Bound(memo_b)), ExprList::Cons(Box::new(callee), Box::new(ExprList::Nil)))
            } else {
                callee
            };
            let stmt = Stmt::VarDecl(DeclList::Cons(id, Box::new(init), Box::new(DeclList::Nil)));
            let result = spec_thunk(transformed);
            if deep {
                (
                    None,
                    Expr::Call(
                        Box::new(
                            Expr::Arrow(
                                false,
                                StmtList::Cons(
                                    Box::new(stmt),
                                    Box::new(
                                        StmtList::Cons(
                                            Box::new(Stmt::Return(result)),
                                            Box::new(StmtList::Nil),
                                        ),
                                    ),
                                ),
                            ),
                        ),
                        ExprList::Nil,
                    ),
                )
            } else {
                (Some(stmt), result)
            }
        },
        None => {
            if deep {
                (None, transformed)
            } else {
                (None, spec_thunk(transformed))
            }
        },
    }
}

/// The memoized read used in the rewritten expression: in inline mode the
/// memo wrapper is applied directly around the condition closure, in
/// hoisted mode the minted binding is read.
pub open spec fn spec_cond_callee(memo_b: Binding, memo_on: bool, condition: Expr, inline: bool, cond: u64) -> Expr {
    if inline {
        if memo_on {
            Expr::Call(
                Box::new(Expr::Bound(memo_b)),
                ExprList::Cons(Box::new(spec_thunk(condition)), Box::new(ExprList::Nil)),
            )
        } else {
            spec_thunk(condition)
        }
    } else {
        Expr::Bound(Binding::Cond(cond))
    }
}

/// The whole logical-AND extraction: the optional hoisted statement, the
/// replacement expression, the condition counter afterwards, and the import
/// registry view afterwards.
pub open spec fn spec_xf_logical(
    e: Expr,
    inline: bool,
    deep: bool,
    memo: Seq<char>,
    module: Seq<char>,
    cond: u64,
    iv: Seq<(Seq<char>, Seq<char>)>,
) -> (Option<Stmt>, Expr, u64, Seq<(Seq<char>, Seq<char>)>)
    recommends
        e is Logical,
    decreases e, 1int,
{
    let memo_on = memo.len() > 0;
    let iv1 = if memo_on {
        spec_register_key(iv, memo, module)
    } else {
        iv
    };
    let memo_b = spec_register_key_binding(iv, memo, module);
    match e {
        Expr::Logical(is_and, left, right) => {
            if spec_logical_applicable(is_and, *left, *right) {
                let condition = spec_coerce_condition(*left);
                let callee = spec_cond_callee(memo_b, memo_on, condition, inline, cond);
                let transformed = Expr::Logical(
                    is_and,
                    Box::new(Expr::Call(Box::new(callee), ExprList::Nil)),
                    right,
                );
                let sc: Option<(Binding, Expr)> = if inline {
                    None
                } else {
                    Some((Binding::Cond(cond), condition))
                };
                let cond1 = if inline {
                    cond
                } else {
                    crate::spec_bump(cond)
                };
                let se = spec_short_circuit(memo_b, memo_on, transformed, sc, deep);
                (se.0, se.1, cond1, iv1)
            } else {
                let se = spec_short_circuit(memo_b, memo_on, e, None, deep);
                (se.0, se.1, cond, iv1)
            }
        },
        _ => (None, e, cond, iv1),
    }
}

/// One branch of a ternary being flattened: a nested conditional or logical
/// expression is recursively extracted in nested mode, anything else passes
/// through.
pub open spec fn spec_xf_branch(
    e: Expr,
    inline: bool,
    memo: Seq<char>,
    module: Seq<char>,
    cond: u64,
    iv: Seq<(Seq<char>, Seq<char>)>,
) -> (Expr, u64, Seq<(Seq<char>, Seq<char>)>)
    decreases e, 2int,
{
    match e {
        Expr::Ternary(_, _, _) => {
            let r = spec_xf_ternary(e, inline, true, memo, module, cond, iv);
            (r.1, r.2, r.3)
        },
        Expr::Logical(_, _, _) => {
            let r = spec_xf_logical(e, inline, true, memo, module, cond, iv);
            (r.1, r.2, r.3)
        },
        _ => (e, cond, iv),
    }
}

/// The whole ternary extraction, flattening nested conditionals in the
/// branches before minting its own memoized condition.
pub open spec fn spec_xf_ternary(
    e: Expr,
    inline: bool,
    deep: bool,
    memo: Seq<char>,
    module: Seq<char>,
    cond: u64,
    iv: Seq<(Seq<char>, Seq<char>)>,
) -> (Option<Stmt>, Expr, u64, Seq<(Seq<char>, Seq<char>)>)
    recommends
        e is Ternary,
    decreases e, 1int,
{
    let memo_on = memo.len() > 0;
    let iv1 = if memo_on {
        spec_register_key(iv, memo, module)
    } else {
        iv
    };
    let memo_b = spec_register_key_binding(iv, memo, module);
    match e {
        Expr::Ternary(test, cons, alt) => {
            if spec_ternary_applicable(*test, *cons, *alt) {
                let condition = spec_coerce_condition(*test);
                let c1 = spec_xf_branch(*cons, inline, memo, module, cond, iv1);
                let a1 = spec_xf_branch(*alt, inline, memo, module, c1.1, c1.2);
                let callee = spec_cond_callee(memo_b, memo_on, condition, inline, a1.1);
                let transformed = Expr::Ternary(
                    Box::new(Expr::Call(Box::new(callee), ExprList::Nil)),
                    Box::new(c1.0),
                    Box::new(a1.0),
                );
                let sc: Option<(Binding, Expr)> = if inline {
                    None
                } else {
                    Some((Binding::Cond(a1.1), condition))
                };
                let cond1 = if inline {
                    a1.1
                } else {
                    crate::spec_bump(a1.1)
                };
                let se = spec_short_circuit(memo_b, memo_on, transformed, sc, deep);
                (se.0, se.1, cond1, a1.2)
            } else {
                let se = spec_short_circuit(memo_b, memo_on, e, None, deep);
                (se.0, se.1, cond, iv1)
            }
        },
        _ => (None, e, cond, iv1),
    }
}

impl JsxTransform {
    /// Register the memo helper import if one is configured; otherwise hand
    /// back a placeholder binding that the extraction never reads.
    fn memo_import(&mut self) -> (r: Binding)
        ensures
            imports_view(final(self).template_creation_ctx.imports@) == if old(self).config.memo_wrapper@.len() > 0 {
                spec_register_key(
                    imports_view(old(self).template_creation_ctx.imports@),
                    old(self).config.memo_wrapper@,
                    old(self).config.module_name@,
                )
            } else {
                imports_view(old(self).template_creation_ctx.imports@)
            },
            old(self).config.memo_wrapper@.len() > 0 ==> r == spec_register_key_binding(
                imports_view(old(self).template_creation_ctx.imports@),
                old(self).config.memo_wrapper@,
                old(self).config.module_name@,
            ),
            final(self).config == old(self).config,
            final(self).names == old(self).names,
            final(self).template_creation_ctx.templates@ == old(self).template_creation_ctx.templates@,
            forall|k: int|
                0 <= k < old(self).template_creation_ctx.imports@.len()
                    ==> final(self).template_creation_ctx.imports@[k]
                    == old(self).template_creation_ctx.imports@[k],
            final(self).template_creation_ctx.imports@.len()
                >= old(self).template_creation_ctx.imports@.len(),
    {
        if !self.config.memo_wrapper.as_str().is_empty() {
            let name = self.config.memo_wrapper.clone();
            self.template_creation_ctx.register_import_method(
                name.as_str(),
                self.config.module_name.as_str(),
            )
        } else {
            Binding::Helper(0)
        }
    }

    /// Assemble the extraction result; see `spec_short_circuit`.
    pub fn transform_short_circuit(
        &self,
        memo: Binding,
        transformed: Expr,
        short_circuit: Option<(Binding, Expr)>,
        deep: bool,
    ) -> (r: (Option<Stmt>, Expr))
        ensures
            r == spec_short_circuit(
                memo,
                self.config.memo_wrapper@.len() > 0,
                transformed,
                short_circuit,
                deep,
            ),
    {
        match short_circuit {
            Some((id, condition)) => {
                let callee = thunk(condition);
                let init = if !self.config.memo_wrapper.as_str().is_empty() {
                    Expr::Call(
                        Box::new(Expr::Bound(memo)),
                        ExprList::Cons(Box::new(callee), Box::new(ExprList::Nil)),
                    )
                } else {
                    callee
                };
                let stmt = Stmt::VarDecl(DeclList::Cons(id, Box::new(init), Box::new(DeclList::Nil)));
                let result = thunk(transformed);
                if deep {
                    (
                        None,
                        Expr::Call(
                            Box::new(
                                Expr::Arrow(
                                    false,
                                    StmtList::Cons(
                                        Box::new(stmt),
                                        Box::new(
                                            StmtList::Cons(
                                                Box::new(Stmt::Return(result)),
                                                Box::new(StmtList::Nil),
                                            ),
                                        ),
                                    ),
                                ),
                            ),
                            ExprList::Nil,
                        ),
                    )
                } else {
                    (Some(stmt), result)
                }
            },
            None => {
                if deep {
                    (None, transformed)
                } else {
                    (None, thunk(transformed))
                }
            },
        }
    }

    /// Extract a logical-AND slot; see `spec_xf_logical` for the exact
    /// rewrite, counter advance, and import registration.
    pub fn transform_logical_expression(
        &mut self,
        logical_expression: &Expr,
        inline: bool,
        deep: bool,
    ) -> (r: (Option<Stmt>, Expr))
        requires
            *logical_expression is Logical,
        ensures
            spec_xf_state_ok(*old(self), *final(self)),
            ({
                let s = spec_xf_logical(
                    *logical_expression,
                    inline,
                    deep,
                    old(self).config.memo_wrapper@,
                    old(self).config.module_name@,
                    old(self).names.cond,
                    imports_view(old(self).template_creation_ctx.imports@),
                );
                &&& r.0 == s.0
                &&& r.1 == s.1
                &&& final(self).names == (NameGen { cond: s.2, ..old(self).names })
                &&& imports_view(final(self).template_creation_ctx.imports@) == s.3
            }),
        decreases *logical_expression, 1int,
    {
        let memo = self.memo_import();
        let memo_on = !self.config.memo_wrapper.as_str().is_empty();
        match logical_expression {
            Expr::Logical(is_and, left, right) => {
                let applicable = *is_and && DynamicChecker::new().check_call_expressions(true)
                    .check_tags(true).check(right) && !DynamicChecker::new().check_call_expressions(
                    true,
                ).check_member(true).check(left);
                if applicable {
                    let condition = coerce_condition(left);
                    if inline {
                        let callee = cond_callee_inline(memo, memo_on, &condition);
                        let transformed = Expr::Logical(
                            *is_and,
                            Box::new(Expr::Call(Box::new(callee), ExprList::Nil)),
                            Box::new(right.deep_clone()),
                        );
                        self.transform_short_circuit(memo, transformed, None, deep)
                    } else {
                        let id = self.names.fresh_cond();
                        let transformed = Expr::Logical(
                            *is_and,
                            Box::new(Expr::Call(Box::new(Expr::Bound(id)), ExprList::Nil)),
                            Box::new(right.deep_clone()),
                        );
                        self.transform_short_circuit(memo, transformed, Some((id, condition)), deep)
                    }
                } else {
                    let transformed = logical_expression.deep_clone();
                    self.transform_short_circuit(memo, transformed, None, deep)
                }
            },
            _ => {
                proof {
                    assert(false);
                }
                (None, Expr::NullLit)
            },
        }
    }
}

impl JsxTransform {
    /// Extract a ternary slot, flattening conditional or logical branches
    /// first; see `spec_xf_ternary` for the exact rewrite.
    pub fn transform_conditional_expression(
        &mut self,
        conditional_expression: &Expr,
        inline: bool,
        deep: bool,
    ) -> (r: (Option<Stmt>, Expr))
        requires
            *conditional_expression is Ternary,
        ensures
            spec_xf_state_ok(*old(self), *final(self)),
            ({
                let s = spec_xf_ternary(
                    *conditional_expression,
                    inline,
                    deep,
                    old(self).config.memo_wrapper@,
                    old(self).config.module_name@,
                    old(self).names.cond,
                    imports_view(old(self).template_creation_ctx.imports@),
                );
                &&& r.0 == s.0
                &&& r.1 == s.1
                &&& final(self).names == (NameGen { cond: s.2, ..old(self).names })
                &&& imports_view(final(self).template_creation_ctx.imports@) == s.3
            }),
        decreases *conditional_expression, 1int,
    {
        let memo = self.memo_import();
        let memo_on = !self.config.memo_wrapper.as_str().is_empty();
        match conditional_expression {
            Expr::Ternary(test, cons, alt) => {
                let tags_checker = DynamicChecker::new().check_call_expressions(true).check_tags(
                    true,
                );
                let applicable = (tags_checker.check(cons) || tags_checker.check(alt))
                    && !DynamicChecker::new().check_call_expressions(true).check_member(true).check(
                    test,
                );
                if applicable {
                    let condition = coerce_condition(test);
                    let new_consequent = self.transform_branch(cons, inline);
                    let new_alternate = self.transform_branch(alt, inline);
                    if inline {
                        let callee = cond_callee_inline(memo, memo_on, &condition);
                        let transformed = Expr::Ternary(
                            Box::new(Expr::Call(Box::new(callee), ExprList::Nil)),
                            Box::new(new_consequent),
                            Box::new(new_alternate),
                        );
                        self.transform_short_circuit(memo, transformed, None, deep)
                    } else {
                        let id = self.names.fresh_cond();
                        let transformed = Expr::Ternary(
                            Box::new(Expr::Call(Box::new(Expr::Bound(id)), ExprList::Nil)),
                            Box::new(new_consequent),
                            Box::new(new_alternate),
                        );
                        self.transform_short_circuit(memo, transformed, Some((id, condition)), deep)
                    }
                } else {
                    let transformed = conditional_expression.deep_clone();
                    self.transform_short_circuit(memo, transformed, None, deep)
                }
            },
            _ => {
                proof {
                    assert(false);
                }
                (None, Expr::NullLit)
            },
        }
    }

    /// One branch of a ternary being flattened; see `spec_xf_branch`.
    fn transform_branch(&mut self, e: &Expr, inline: bool) -> (r: Expr)
        ensures
            spec_xf_state_ok(*old(self), *final(self)),
            ({
                let s = spec_xf_branch(
                    *e,
                    inline,
                    old(self).config.memo_wrapper@,
                    old(self).config.module_name@,
                    old(self).names.cond,
                    imports_view(old(self).template_creation_ctx.imports@),
                );
                &&& r == s.0
                &&& final(self).names == (NameGen { cond: s.1, ..old(self).names })
                &&& imports_view(final(self).template_creation_ctx.imports@) == s.2
            }),
        decreases *e, 2int,
    {
        match e {
            Expr::Ternary(_, _, _) => {
                let (_, expr) = self.transform_conditional_expression(e, inline, true);
                expr
            },
            Expr::Logical(_, _, _) => {
                let (_, expr) = self.transform_logical_expression(e, inline, true);
                expr
            },
            _ => e.deep_clone(),
        }
    }
}

impl JsxTransform {
    /// The literal attribute markup (without quotes around values) and the
    /// runtime binding calls of the expression-valued attributes, keyed to
    /// the element's root binding, in attribute order.
    fn generate_attributes_dom(
        &self,
        attrs: &Vec<AttrItem>,
        i: usize,
        key: Option<Binding>,
    ) -> (r: (String, Vec<Expr>))
        requires
            i <= attrs@.len(),
        ensures
            r.0@ == spec_attrs_markup_from(attrs@, i as int),
            spec_attr_exprs_rel(attrs@, i as int, key, r.1@),
            r.1@.len() == spec_attr_expr_count(attrs@, i as int),
        decreases attrs@.len() - i,
    {
        if i == attrs.len() {
            return (String::new(), Vec::new());
        }
        let (rest_markup, rest_exprs) = self.generate_attributes_dom(attrs, i + 1, key);
        match &attrs[i] {
            AttrItem::Attr(a) => {
                match &a.value {
                    Some(AttrValue::StrVal(v)) => {
                        let mut m = String::from_str(" ");
                        m.append(a.name.as_str());
                        m.append("=");
                        m.append(v.as_str());
                        m.append(rest_markup.as_str());
                        proof {
                            assert(m@ =~= crate::tree::spec_attr_markup(attrs@[i as int])
                                + rest_markup@);
                        }
                        (m, rest_exprs)
                    },
                    Some(AttrValue::ExprVal(v)) => {
                        let key_expr = match key {
                            Some(b) => Expr::Bound(b),
                            None => Expr::NullLit,
                        };
                        let bind = Expr::Call(
                            Box::new(
                                Expr::StaticMember(
                                    Box::new(key_expr),
                                    String::from_str("setAttribute"),
                                ),
                            ),
                            ExprList::Cons(
                                Box::new(Expr::StrLit(a.name.clone())),
                                Box::new(
                                    ExprList::Cons(
                                        Box::new(v.deep_clone()),
                                        Box::new(ExprList::Nil),
                                    ),
                                ),
                            ),
                        );
                        let mut es: Vec<Expr> = Vec::new();
                        es.push(bind);
                        let mut rest = rest_exprs;
                        es.append(&mut rest);
                        proof {
                            assert(es@.drop_first() =~= rest_exprs@);
                        }
                        (rest_markup, es)
                    },
                    None => {
                        let mut m = String::from_str(" ");
                        m.append(a.name.as_str());
                        m.append(rest_markup.as_str());
                        proof {
                            assert(m@ =~= crate::tree::spec_attr_markup(attrs@[i as int])
                                + rest_markup@);
                        }
                        (m, rest_exprs)
                    },
                }
            },
            AttrItem::SpreadAttr(_) => {
                proof {
                    assert(crate::tree::spec_attr_markup(attrs@[i as int]) =~= Seq::<
                        char,
                    >::empty());
                }
                (rest_markup, rest_exprs)
            },
        }
    }
}

/// The attribute markup from position `i` on; agrees with the whole-list
/// spec at zero.
pub open spec fn spec_attrs_markup_from(attrs: Seq<AttrItem>, i: int) -> Seq<char>
    decreases attrs.len() - i when 0 <= i <= attrs.len()
{
    if i >= attrs.len() {
        Seq::empty()
    } else {
        crate::tree::spec_attr_markup(attrs[i]) + spec_attrs_markup_from(attrs, i + 1)
    }
}

/// The two renderings of attribute markup agree.
pub proof fn lemma_attrs_markup_from(attrs: Seq<AttrItem>, i: int)
    requires
        0 <= i <= attrs.len(),
    ensures
        spec_attrs_markup_from(attrs, i) == crate::tree::spec_attrs_markup(attrs.skip(i)),
    decreases attrs.len() - i,
{
    if i >= attrs.len() {
        assert(attrs.skip(i) =~= Seq::<AttrItem>::empty());
    } else {
        lemma_attrs_markup_from(attrs, i + 1);
        assert(attrs.skip(i).drop_first() =~= attrs.skip(i + 1));
        assert(attrs.skip(i)[0] == attrs[i]);
    }
}

impl JsxTransform {
    /// Transform one element, dispatched by renderer.
    pub fn transform_element(&mut self, el: &JsxElement, info: &TransformInfo) -> (r:
        TransformResult)
        ensures
            spec_node_state_ok(*old(self), *final(self)),
            spec_element_result_ok(*el, *info, old(self).names.el, r),
        decreases el, 2int,
    {
        match self.config.generate {
            crate::registry::OutputType::Dom => self.transform_element_dom(el, info),
        }
    }

    /// The element template compiler: assemble the literal markup for one
    /// element (tag, attributes, children in order, closing tag unless
    /// void, namespace wrap at an SVG root), mint the root binding unless
    /// suppressed, and collect the dynamic expressions in document order.
    pub fn transform_element_dom(&mut self, el: &JsxElement, info: &TransformInfo) -> (r:
        TransformResult)
        ensures
            spec_node_state_ok(*old(self), *final(self)),
            spec_element_result_ok(*el, *info, old(self).names.el, r),
        decreases el, 1int,
    {
        let tag_name = crate::tree::get_tag_name(el);
        let wrap_svg = info.top_level && !crate::tree::str_eq(tag_name.as_str(), "svg")
            && crate::tree::is_svg_tag(tag_name.as_str());
        let void_tag = crate::tree::is_void_tag(tag_name.as_str());
        let id: Option<Binding> = if info.skip_id {
            None
        } else {
            Some(self.names.fresh_el())
        };
        let (attrs_markup, attr_exprs) = self.generate_attributes_dom(&el.attributes, 0, id);
        let (child_markup, child_exprs) = self.generate_child_templates_dom(&el.children, 0);
        let mut template = String::from_str("<");
        template.append(tag_name.as_str());
        template.append(attrs_markup.as_str());
        template.append(">");
        template.append(child_markup.as_str());
        if !void_tag {
            template.append("</");
            template.append(tag_name.as_str());
            template.append(">");
        }
        let template = if wrap_svg {
            let mut w = String::from_str("<svg>");
            w.append(template.as_str());
            w.append("</svg>");
            w
        } else {
            template
        };
        proof {
            lemma_attrs_markup_from(el.attributes@, 0);
            assert(el.attributes@.skip(0) =~= el.attributes@);
            assert(template@ =~= crate::tree::spec_element_markup(*el, info.top_level));
        }
        let mut exprs = attr_exprs;
        let mut ce = child_exprs;
        let ghost ae = exprs@;
        let ghost cse = ce@;
        exprs.append(&mut ce);
        proof {
            assert(exprs@.take(ae.len() as int) =~= ae);
            assert(exprs@.skip(ae.len() as int) =~= cse);
        }
        TransformResult {
            id,
            template: Some(template),
            exprs,
            declarators: Vec::new(),
            text: false,
            dynamic: false,
            skip_template: false,
        }
    }

    /// Process an element's retained children from position `i` on,
    /// concatenating their markup and collecting their dynamic expressions
    /// in document order. Children inside a template never mint their own
    /// root bindings.
    #[verifier::rlimit(100)]
    fn generate_child_templates_dom(&mut self, children: &Vec<JsxChild>, i: usize) -> (r: (
        String,
        Vec<Expr>,
    ))
        requires
            i <= children@.len(),
        ensures
            spec_node_state_ok(*old(self), *final(self)),
            r.0@ == crate::tree::spec_children_markup(children@, i as int),
            spec_children_exprs_rel(children@, i as int, r.1@),
            r.1@.len() == spec_children_expr_count(children@, i as int),
        decreases children, children@.len() - i,
    {
        if i == children.len() {
            return (String::new(), Vec::new());
        }
        if !crate::tree::keep_child(&children[i]) {
            return self.generate_child_templates_dom(children, i + 1);
        }
        let mut child_info = TransformInfo::default();
        child_info.skip_id = true;
        let child_result = self.transform_node(&children[i], &child_info);
        let (own_markup, own_exprs): (Option<String>, Vec<Expr>) = match child_result {
            Some(tr) => (tr.template, tr.exprs),
            None => (None, Vec::new()),
        };
        let (rest_markup, rest_exprs) = self.generate_child_templates_dom(children, i + 1);
        let ghost own = own_exprs@;
        let ghost rest = rest_exprs@;
        let mut exprs = own_exprs;
        let mut re = rest_exprs;
        exprs.append(&mut re);
        let markup = match own_markup {
            Some(mut m) => {
                m.append(rest_markup.as_str());
                m
            },
            None => rest_markup,
        };
        proof {
            reveal_with_fuel(spec_children_exprs_rel, 3);
            reveal_with_fuel(crate::tree::spec_children_markup, 3);
            let k = spec_child_expr_count(children@[i as int]);
            assert(own.len() == k);
            assert(exprs@.take(k as int) =~= own);
            assert(exprs@.skip(k as int) =~= rest);
            assert(spec_child_seg_ok(children@[i as int], own));
        }
        (markup, exprs)
    }

    /// Transform a fragment's children: each retained child becomes one
    /// runtime value (text as a decoded string literal, markup children as
    /// instantiation expressions); more than one value is grouped into a
    /// single array so the runtime reconciles the group as one list.
    pub fn transform_fragment_children(&mut self, children: &Vec<JsxChild>, info: &TransformInfo)
        -> (r: TransformResult)
        ensures
            spec_node_state_ok(*old(self), *final(self)),
            spec_fragment_result_ok(children@, r),
        decreases children, children@.len() + 1int,
    {
        let vals = self.frag_children_values(children, 0, info);
        let exprs: Vec<Expr> = if vals.len() > 1 {
            let list = crate::expr::vec_to_list_from(&vals, 0);
            proof {
                assert(vals@.skip(0) =~= vals@);
                crate::expr::lemma_list_seq_roundtrip(vals@);
            }
            let mut one: Vec<Expr> = Vec::new();
            one.push(Expr::ArrayLit(list));
            one
        } else {
            vals
        };
        TransformResult {
            id: None,
            template: None,
            exprs,
            declarators: Vec::new(),
            text: false,
            dynamic: false,
            skip_template: false,
        }
    }

    /// The runtime values of a fragment's children from position `i` on.
    fn frag_children_values(&mut self, children: &Vec<JsxChild>, i: usize, info: &TransformInfo)
        -> (r: Vec<Expr>)
        requires
            i <= children@.len(),
        ensures
            spec_node_state_ok(*old(self), *final(self)),
            spec_frag_vals_rel(children@, i as int, r@),
            r@.len() == spec_frag_value_count(children@, i as int),
        decreases children, children@.len() - i,
    {
        if i == children.len() {
            return Vec::new();
        }
        if !crate::tree::keep_child(&children[i]) {
            return self.frag_children_values(children, i + 1, info);
        }
        let own: Option<Expr> = match &children[i] {
            JsxChild::Text(s) => {
                let t = crate::text::jsx_text_to_str(s.as_str());
                let d = crate::escape::decode_entities(t.as_str());
                if d.as_str().is_empty() {
                    None
                } else {
                    Some(Expr::StrLit(d))
                }
            },
            _ => {
                let mut child_info = *info;
                child_info.skip_id = false;
                child_info.fragment_child = true;
                let child_result = self.transform_node(&children[i], &child_info);
                match child_result {
                    Some(tr) => {
                        let created = tr.create_template(
                            &self.config,
                            &mut self.names,
                            &mut self.template_creation_ctx,
                            true,
                        );
                        match created {
                            Ok(e) => Some(e),
                            Err(_) => {
                                proof {
                                    assert(false);
                                }
                                None
                            },
                        }
                    },
                    None => {
                        proof {
                            assert(false);
                        }
                        None
                    },
                }
            },
        };
        let rest = self.frag_children_values(children, i + 1, info);
        match own {
            Some(e) => {
                let ghost restg = rest@;
                let mut out: Vec<Expr> = Vec::new();
                out.push(e);
                let mut re = rest;
                out.append(&mut re);
                proof {
                    assert(out@.drop_first() =~= restg);
                }
                out
            },
            None => rest,
        }
    }

    /// The node dispatcher: transform one markup node into its result, or
    /// elide it (`None`) when it is an empty container or text that
    /// normalizes to nothing.
    #[verifier::rlimit(100)]
    pub fn transform_node(&mut self, node: &JsxChild, info: &TransformInfo) -> (r: Option<TransformResult>)
        ensures
            spec_node_state_ok(*old(self), *final(self)),
            spec_transform_node_post(*node, *info, *old(self), *final(self), r),
        decreases node, 3int,
    {
        let out: Option<TransformResult> = match node {
            JsxChild::Element(el) => {
                let tr = self.transform_element(el, info);
                Some(tr)
            },
            JsxChild::Fragment(cs) => Some(self.transform_fragment_children(cs, info)),
            JsxChild::Text(s) => {
                let t = crate::text::jsx_text_to_str(s.as_str());
                if t.as_str().is_empty() {
                    None
                } else {
                    let id: Option<Binding> = if info.skip_id {
                        None
                    } else {
                        Some(self.names.fresh_el())
                    };
                    Some(
                        TransformResult {
                            id,
                            template: Some(t),
                            exprs: Vec::new(),
                            declarators: Vec::new(),
                            text: true,
                            dynamic: false,
                            skip_template: false,
                        },
                    )
                }
            },
            JsxChild::ExpressionContainer(oe) => {
                match oe {
                    None => None,
                    Some(e) => {
                        let checker = DynamicChecker::new().check_member(true).check_tags(
                            info.component_child,
                        ).native(!info.component_child);
                        if !checker.check(e) {
                            let mut exprs: Vec<Expr> = Vec::new();
                            exprs.push(e.deep_clone());
                            Some(
                                TransformResult {
                                    id: None,
                                    template: None,
                                    exprs,
                                    declarators: Vec::new(),
                                    text: false,
                                    dynamic: false,
                                    skip_template: false,
                                },
                            )
                        } else {
                            let inline = info.component_child || info.fragment_child;
                            let (statement, result): (Option<Stmt>, Expr) = match e {
                                Expr::Logical(_, _, _) => self.transform_logical_expression(
                                    e,
                                    inline,
                                    false,
                                ),
                                Expr::Ternary(_, _, _) => self.transform_conditional_expression(
                                    e,
                                    inline,
                                    false,
                                ),
                                Expr::Call(callee, args) => {
                                    if !info.component_child && !callee.is_call()
                                        && !callee.is_member() && matches!(args, ExprList::Nil) {
                                        (None, callee.deep_clone())
                                    } else {
                                        (None, thunk(e.deep_clone()))
                                    }
                                },
                                _ => (None, thunk(e.deep_clone())),
                            };
                            let expr = match statement {
                                Some(st) => Expr::Call(
                                    Box::new(
                                        Expr::Arrow(
                                            false,
                                            StmtList::Cons(
                                                Box::new(st),
                                                Box::new(
                                                    StmtList::Cons(
                                                        Box::new(Stmt::Return(result)),
                                                        Box::new(StmtList::Nil),
                                                    ),
                                                ),
                                            ),
                                        ),
                                    ),
                                    ExprList::Nil,
                                ),
                                None => result,
                            };
                            let mut exprs: Vec<Expr> = Vec::new();
                            exprs.push(expr);
                            Some(
                                TransformResult {
                                    id: None,
                                    template: None,
                                    exprs,
                                    declarators: Vec::new(),
                                    text: false,
                                    dynamic: true,
                                    skip_template: false,
                                },
                            )
                        }
                    },
                }
            },
            JsxChild::Spread(e) => {
                let dynamic = DynamicChecker::new().check_member(true).native(
                    !info.component_child,
                ).check(e);
                let mut exprs: Vec<Expr> = Vec::new();
                if dynamic {
                    exprs.push(thunk(e.deep_clone()));
                } else {
                    exprs.push(e.deep_clone());
                }
                Some(
                    TransformResult {
                        id: None,
                        template: None,
                        exprs,
                        declarators: Vec::new(),
                        text: false,
                        dynamic,
                        skip_template: false,
                    },
                )
            },
        };
        return out;
    }
}

proof fn lemma_children_one_expr_each(cs: Seq<JsxChild>, i: int)
    requires
        0 <= i <= cs.len(),
        forall|k: int|
            i <= k < cs.len() && spec_keep_child(#[trigger] cs[k]) ==> (cs[k] is ExpressionContainer
                || cs[k] is Spread),
    ensures
        spec_children_expr_count(cs, i) == crate::tree::spec_kept_indices(cs, i).len(),
    decreases cs.len() - i,
{
    if i < cs.len() {
        lemma_children_one_expr_each(cs, i + 1);
        if spec_keep_child(cs[i]) {
            assert(cs[i] is ExpressionContainer || cs[i] is Spread);
            assert(spec_child_expr_count(cs[i]) == 1);
            assert(crate::tree::spec_kept_indices(cs, i).len() == 1 + crate::tree::spec_kept_indices(
                cs,
                i + 1,
            ).len());
        }
    }
}

/// The order invariant, in counting form: an element whose attributes are
/// all literal and whose retained children are all dynamic value slots
/// (expression containers or spreads) emits exactly one dynamic expression
/// per retained child. Together with `spec_elem_exprs_rel`, which
/// `transform_element` ensures and which lays the per-child segments out
/// left to right, the emitted sequence has one entry per retained child in
/// source document order.
pub proof fn lemma_element_exprs_in_document_order(el: JsxElement)
    requires
        spec_attr_expr_count(el.attributes@, 0) == 0,
        forall|k: int|
            0 <= k < el.children@.len() && spec_keep_child(#[trigger] el.children@[k]) ==> (
            el.children@[k] is ExpressionContainer || el.children@[k] is Spread),
    ensures
        spec_element_expr_count(el) == crate::tree::spec_kept_indices(el.children@, 0).len(),
{
    lemma_children_one_expr_each(el.children@, 0);
}

/// What `transform_node` returns and does to the transform state, by node
/// kind.
pub open spec fn spec_transform_node_post(
    node: JsxChild,
    info: TransformInfo,
    pre: JsxTransform,
    post: JsxTransform,
    r: Option<TransformResult>,
) -> bool {
    match node {
        JsxChild::Element(el) => r matches Some(tr) && spec_element_result_ok(
            el,
            info,
            pre.names.el,
            tr,
        ),
        JsxChild::Fragment(cs) => r matches Some(tr) && spec_fragment_result_ok(cs@, tr),
        JsxChild::Text(s) => {
            let t = crate::text::normalize_text(s@);
            if t.len() == 0 {
                r is None && post == pre
            } else {
                &&& r matches Some(tr)
                &&& (tr.template matches Some(m) && m@ == t)
                &&& tr.id == if info.skip_id {
                    Option::<Binding>::None
                } else {
                    Option::<Binding>::Some(Binding::El(pre.names.el))
                }
                &&& tr.exprs@.len() == 0
                &&& tr.declarators@.len() == 0
                &&& tr.text
                &&& !tr.dynamic
                &&& !tr.skip_template
                &&& post.names == if info.skip_id {
                    pre.names
                } else {
                    NameGen { el: crate::spec_bump(pre.names.el), ..pre.names }
                }
                &&& post.template_creation_ctx.templates@ == pre.template_creation_ctx.templates@
                &&& post.template_creation_ctx.imports@ == pre.template_creation_ctx.imports@
            }
        },
        JsxChild::ExpressionContainer(oe) => match oe {
            None => r is None && post == pre,
            Some(e) => {
                let checker = DynamicChecker {
                    check_member: true,
                    check_tags: info.component_child,
                    check_call_expressions: false,
                    native: !info.component_child,
                };
                let inline = info.component_child || info.fragment_child;
                &&& (r matches Some(tr) && {
                    &&& tr.id is None
                    &&& tr.template is None
                    &&& tr.declarators@.len() == 0
                    &&& !tr.text
                    &&& !tr.skip_template
                    &&& tr.exprs@.len() == 1
                    &&& if !spec_is_dynamic(checker, e) {
                        &&& !tr.dynamic
                        &&& tr.exprs@[0] == e
                        &&& post == pre
                    } else {
                        &&& tr.dynamic
                        &&& spec_container_expr_ok(e, info, pre, post, tr.exprs@[0])
                    }
                })
            },
        },
        JsxChild::Spread(e) => {
            let dyn_spread = spec_is_dynamic(
                DynamicChecker {
                    check_member: true,
                    check_tags: false,
                    check_call_expressions: false,
                    native: !info.component_child,
                },
                e,
            );
            &&& r matches Some(tr) && {
                &&& tr.id is None
                &&& tr.template is None
                &&& tr.declarators@.len() == 0
                &&& !tr.text
                &&& !tr.skip_template
                &&& tr.dynamic == dyn_spread
                &&& tr.exprs@.len() == 1
                &&& tr.exprs@[0] == if dyn_spread {
                    spec_thunk(e)
                } else {
                    e
                }
            }
            &&& post == pre
        },
    }
}

/// The expression a dynamic container produces: an extracted conditional or
/// logical slot (wrapped in an immediately-invoked closure when a hoisted
/// declaration leads it), a bare zero-argument accessor call replaced by
/// its callee, or the expression deferred in a zero-argument closure.
pub open spec fn spec_container_expr_ok(
    e: Expr,
    info: TransformInfo,
    pre: JsxTransform,
    post: JsxTransform,
    out: Expr,
) -> bool {
    let inline = info.component_child || info.fragment_child;
    let memo = pre.config.memo_wrapper@;
    let module = pre.config.module_name@;
    let iv = imports_view(pre.template_creation_ctx.imports@);
    match e {
        Expr::Logical(_, _, _) => {
            let s = spec_xf_logical(e, inline, false, memo, module, pre.names.cond, iv);
            &&& out == spec_container_wrap(s.0, s.1)
            &&& post.names == (NameGen { cond: s.2, ..pre.names })
            &&& imports_view(post.template_creation_ctx.imports@) == s.3
        },
        Expr::Ternary(_, _, _) => {
            let s = spec_xf_ternary(e, inline, false, memo, module, pre.names.cond, iv);
            &&& out == spec_container_wrap(s.0, s.1)
            &&& post.names == (NameGen { cond: s.2, ..pre.names })
            &&& imports_view(post.template_creation_ctx.imports@) == s.3
        },
        Expr::Call(callee, args) => {
            if !info.component_child && !callee.spec_is_call() && !callee.spec_is_member() && args
                == ExprList::Nil {
                out == *callee && post == pre
            } else {
                out == spec_thunk(e) && post == pre
            }
        },
        _ => out == spec_thunk(e) && post == pre,
    }
}

/// A zero-argument closure whose body evaluates the expression.
fn thunk(e: Expr) -> (r: Expr)
    ensures
        r == spec_thunk(e),
{
    Expr::Arrow(true, StmtList::Cons(Box::new(Stmt::ExprStmt(e)), Box::new(StmtList::Nil)))
}

/// Coerce a condition for memoization; see `spec_coerce_condition`.
fn coerce_condition(e: &Expr) -> (r: Expr)
    ensures
        r == spec_coerce_condition(*e),
{
    match e {
        Expr::Bin(_, _, _) => e.deep_clone(),
        _ => Expr::Not(Box::new(Expr::Not(Box::new(e.deep_clone())))),
    }
}

/// The inline-mode callee around a condition.
fn cond_callee_inline(memo: Binding, memo_on: bool, condition: &Expr) -> (r: Expr)
    ensures
        r == spec_cond_callee(memo, memo_on, *condition, true, 0),
{
    if memo_on {
        Expr::Call(
            Box::new(Expr::Bound(memo)),
            ExprList::Cons(Box::new(thunk(condition.deep_clone())), Box::new(ExprList::Nil)),
        )
    } else {
        thunk(condition.deep_clone())
    }
}

/// How many dynamic expressions one retained child contributes to its
/// parent element's collection.
pub open spec fn spec_child_expr_count(c: JsxChild) -> nat
    decreases c, 3int,
{
    match c {
        JsxChild::Element(el) => spec_element_expr_count(el),
        JsxChild::Fragment(cs) => {
            let n = spec_frag_value_count(cs@, 0);
            if n > 1 {
                1
            } else {
                n
            }
        },
        JsxChild::Text(_) => 0,
        JsxChild::ExpressionContainer(_) => 1,
        JsxChild::Spread(_) => 1,
    }
}

/// Number of expression-valued attributes, each of which becomes one
/// runtime binding call.
pub open spec fn spec_attr_expr_count(attrs: Seq<AttrItem>, i: int) -> nat
    decreases attrs.len() - i when 0 <= i <= attrs.len()
{
    if i >= attrs.len() {
        0
    } else {
        let n: nat = match attrs[i] {
            AttrItem::Attr(a) => match a.value {
                Some(AttrValue::ExprVal(_)) => 1,
                _ => 0,
            },
            AttrItem::SpreadAttr(_) => 0,
        };
        n + spec_attr_expr_count(attrs, i + 1)
    }
}

pub open spec fn spec_children_expr_count(cs: Seq<JsxChild>, i: int) -> nat
    decreases cs, 4int, cs.len() - i when 0 <= i <= cs.len()
{
    if i >= cs.len() {
        0
    } else if spec_keep_child(cs[i]) {
        spec_child_expr_count(cs[i]) + spec_children_expr_count(cs, i + 1)
    } else {
        spec_children_expr_count(cs, i + 1)
    }
}

/// Total dynamic expressions of an element: its attribute binding calls
/// followed by its retained children's contributions, in document order.
pub open spec fn spec_element_expr_count(el: JsxElement) -> nat
    decreases el, 5int,
{
    spec_attr_expr_count(el.attributes@, 0) + spec_children_expr_count(el.children@, 0)
}

/// How many runtime values a fragment's retained children produce: a text
/// child whose decoded normalization is empty is elided, every other
/// retained child yields exactly one value.
pub open spec fn spec_frag_value_count(cs: Seq<JsxChild>, i: int) -> nat
    decreases cs.len() - i when 0 <= i <= cs.len()
{
    if i >= cs.len() {
        0
    } else {
        let n: nat = if !spec_keep_child(cs[i]) {
            0
        } else {
            match cs[i] {
                JsxChild::Text(s) => if crate::escape::decode_entities_of(
                    crate::text::normalize_text(s@),
                ).len() > 0 {
                    1
                } else {
                    0
                },
                _ => 1,
            }
        };
        n + spec_frag_value_count(cs, i + 1)
    }
}

/// The target an attribute binding call is keyed to: the element's root
/// binding, or a null placeholder where none was minted.
pub open spec fn spec_key_expr(key: Option<Binding>) -> Expr {
    match key {
        Some(b) => Expr::Bound(b),
        None => Expr::NullLit,
    }
}

/// The runtime binding call for one expression-valued attribute:
/// `target.setAttribute("name", value)`, applied after instantiation.
pub open spec fn spec_is_attr_bind(key: Option<Binding>, name: String, value: Expr, b: Expr) -> bool {
    match b {
        Expr::Call(c, args) => match *c {
            Expr::StaticMember(obj, prop) => {
                &&& prop@ == "setAttribute"@
                &&& *obj == spec_key_expr(key)
                &&& args == ExprList::Cons(
                    Box::new(Expr::StrLit(name)),
                    Box::new(ExprList::Cons(Box::new(value), Box::new(ExprList::Nil))),
                )
            },
            _ => false,
        },
        _ => false,
    }
}

/// The attribute segment of an element's dynamic expressions: one binding
/// call per expression-valued attribute, in attribute order.
pub open spec fn spec_attr_exprs_rel(
    attrs: Seq<AttrItem>,
    i: int,
    key: Option<Binding>,
    es: Seq<Expr>,
) -> bool
    decreases attrs.len() - i when 0 <= i <= attrs.len()
{
    if i >= attrs.len() {
        es.len() == 0
    } else {
        match attrs[i] {
            AttrItem::Attr(a) => match a.value {
                Some(AttrValue::ExprVal(v)) => es.len() >= 1 && spec_is_attr_bind(
                    key,
                    a.name,
                    v,
                    es[0],
                ) && spec_attr_exprs_rel(attrs, i + 1, key, es.drop_first()),
                _ => spec_attr_exprs_rel(attrs, i + 1, key, es),
            },
            AttrItem::SpreadAttr(_) => spec_attr_exprs_rel(attrs, i + 1, key, es),
        }
    }
}

/// The values a fragment's children produce, in document order: a retained
/// text child becomes the string literal of its decoded normalization,
/// every other retained child one runtime value.
pub open spec fn spec_frag_vals_rel(cs: Seq<JsxChild>, i: int, vals: Seq<Expr>) -> bool
    decreases cs.len() - i when 0 <= i <= cs.len()
{
    if i >= cs.len() {
        vals.len() == 0
    } else if !spec_keep_child(cs[i]) {
        spec_frag_vals_rel(cs, i + 1, vals)
    } else {
        match cs[i] {
            JsxChild::Text(s) => {
                let d = crate::escape::decode_entities_of(crate::text::normalize_text(s@));
                if d.len() > 0 {
                    vals.len() >= 1 && (vals[0] matches Expr::StrLit(x) && x@ == d)
                        && spec_frag_vals_rel(cs, i + 1, vals.drop_first())
                } else {
                    spec_frag_vals_rel(cs, i + 1, vals)
                }
            },
            _ => vals.len() >= 1 && spec_frag_vals_rel(cs, i + 1, vals.drop_first()),
        }
    }
}

/// The segment of a parent element's dynamic expressions contributed by one
/// retained child.
pub open spec fn spec_child_seg_ok(c: JsxChild, seg: Seq<Expr>) -> bool
    decreases c, 3int,
{
    match c {
        JsxChild::Element(el) => spec_elem_exprs_rel(el, None, seg),
        JsxChild::Fragment(cs) => {
            let n = spec_frag_value_count(cs@, 0);
            if n > 1 {
                seg.len() == 1 && (seg[0] matches Expr::ArrayLit(l) && spec_frag_vals_rel(
                    cs@,
                    0,
                    crate::expr::list_seq(l),
                ))
            } else {
                spec_frag_vals_rel(cs@, 0, seg)
            }
        },
        JsxChild::Text(_) => seg.len() == 0,
        JsxChild::ExpressionContainer(oe) => {
            // children inside a template are compiled outside any component,
            // so a slot the checker classifies static passes through verbatim
            let checker = DynamicChecker {
                check_member: true,
                check_tags: false,
                check_call_expressions: false,
                native: true,
            };
            &&& seg.len() == 1
            &&& (oe matches Some(e) ==> (!spec_is_dynamic(checker, e) ==> seg[0] == e))
        },
        JsxChild::Spread(e) => {
            let checker = DynamicChecker {
                check_member: true,
                check_tags: false,
                check_call_expressions: false,
                native: true,
            };
            &&& seg.len() == 1
            &&& seg[0] == if spec_is_dynamic(checker, e) {
                spec_thunk(e)
            } else {
                e
            }
        },
    }
}

pub open spec fn spec_children_exprs_rel(cs: Seq<JsxChild>, i: int, es: Seq<Expr>) -> bool
    decreases cs, 4int, cs.len() - i when 0 <= i <= cs.len()
{
    if i >= cs.len() {
        es.len() == 0
    } else if !spec_keep_child(cs[i]) {
        spec_children_exprs_rel(cs, i + 1, es)
    } else {
        let k = spec_child_expr_count(cs[i]);
        &&& es.len() >= k
        &&& spec_child_seg_ok(cs[i], es.take(k as int))
        &&& spec_children_exprs_rel(cs, i + 1, es.skip(k as int))
    }
}

/// The whole order invariant of an element's dynamic expressions: the
/// attribute binding calls keyed to the root binding, then each retained
/// child's expressions, in document order.
pub open spec fn spec_elem_exprs_rel(el: JsxElement, key: Option<Binding>, es: Seq<Expr>) -> bool
    decreases el, 5int,
{
    let ka = spec_attr_expr_count(el.attributes@, 0);
    &&& es.len() == spec_element_expr_count(el)
    &&& spec_attr_exprs_rel(el.attributes@, 0, key, es.take(ka as int))
    &&& spec_children_exprs_rel(el.children@, 0, es.skip(ka as int))
}

/// Frame of the recursive transform: configuration untouched, the two
/// registries (seen through their views) only ever extended.
pub open spec fn spec_node_state_ok(pre: JsxTransform, post: JsxTransform) -> bool {
    let tv0 = crate::registry::templates_view(pre.template_creation_ctx.templates@);
    let tv1 = crate::registry::templates_view(post.template_creation_ctx.templates@);
    let iv0 = imports_view(pre.template_creation_ctx.imports@);
    let iv1 = imports_view(post.template_creation_ctx.imports@);
    &&& post.config == pre.config
    &&& tv1.len() >= tv0.len()
    &&& forall|k: int| 0 <= k < tv0.len() ==> tv1[k] == tv0[k]
    &&& iv1.len() >= iv0.len()
    &&& forall|k: int| 0 <= k < iv0.len() ==> iv1[k] == iv0[k]
}

/// What an element's transform result looks like.
pub open spec fn spec_element_result_ok(
    el: JsxElement,
    info: TransformInfo,
    pre_el: u64,
    tr: TransformResult,
) -> bool {
    &&& (tr.template matches Some(t) && t@ == crate::tree::spec_element_markup(el, info.top_level))
    &&& tr.id == if info.skip_id {
        Option::<Binding>::None
    } else {
        Option::<Binding>::Some(Binding::El(pre_el))
    }
    &&& spec_elem_exprs_rel(el, tr.id, tr.exprs@)
    &&& tr.declarators@.len() == 0
    &&& !tr.text
    &&& !tr.dynamic
    &&& !tr.skip_template
}

/// What a fragment's transform result looks like: no markup and no root
/// binding, its children's values grouped into one array when more than
/// one is dynamic content.
pub open spec fn spec_fragment_result_ok(cs: Seq<JsxChild>, tr: TransformResult) -> bool {
    let n = spec_frag_value_count(cs, 0);
    &&& tr.id is None
    &&& tr.template is None
    &&& tr.declarators@.len() == 0
    &&& !tr.text
    &&& !tr.dynamic
    &&& !tr.skip_template
    &&& if n > 1 {
        tr.exprs@.len() == 1 && (tr.exprs@[0] matches Expr::ArrayLit(l) && spec_frag_vals_rel(
            cs,
            0,
            crate::expr::list_seq(l),
        ))
    } else {
        tr.exprs@.len() == n && spec_frag_vals_rel(cs, 0, tr.exprs@)
    }
}

/// An extracted container expression wrapped for its slot: a leading
/// hoisted declaration turns the whole thing into an immediately-invoked
/// closure.
pub open spec fn spec_container_wrap(stmt: Option<Stmt>, ex: Expr) -> Expr {
    match stmt {
        Some(st) => Expr::Call(
            Box::new(
                Expr::Arrow(
                    false,
                    StmtList::Cons(
                        Box::new(st),
                        Box::new(
                            StmtList::Cons(Box::new(Stmt::Return(ex)), Box::new(StmtList::Nil)),
                        ),
                    ),
                ),
            ),
            ExprList::Nil,
        ),
        None => ex,
    }
}

/// Frame of one extraction step: configuration, element and template
/// counters, and the template registry are untouched; the import registry
/// is only ever extended.
pub open spec fn spec_xf_state_ok(pre: JsxTransform, post: JsxTransform) -> bool {
    &&& post.config == pre.config
    &&& post.names.el == pre.names.el
    &&& post.names.tmpl == pre.names.tmpl
    &&& post.template_creation_ctx.templates@ == pre.template_creation_ctx.templates@
    &&& post.template_creation_ctx.imports@.len() >= pre.template_creation_ctx.imports@.len()
    &&& forall|k: int|
        0 <= k < pre.template_creation_ctx.imports@.len() ==> post.template_creation_ctx.imports@[k]
            == pre.template_creation_ctx.imports@[k]
}

} // verus!
