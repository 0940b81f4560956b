//! Template creation: turning one node's transform result into its
//! use-site expression, and the end-of-unit hoisting pass that emits the
//! imports and the combined template declaration.

use vstd::prelude::*;

use crate::expr::{DeclList, Expr, ExprList, Stmt, StmtList};
use crate::names::{Binding, NameGen};
use crate::registry::{
    find_tpl, imports_view, spec_register_key, spec_register_key_binding, spec_register_tpl,
    spec_register_tpl_binding, templates_view, CompileError, Config, OutputType, Template,
    TemplateCreationCtx,
};
use crate::spec_bump;
use crate::transform::TransformResult;

verus! {

broadcast use vstd::seq::group_seq_axioms, vstd::std_specs::vec::group_vec_axioms;

/// The declarator list of one `var` statement, from collected pairs.
pub open spec fn spec_decls_list(s: Seq<(Binding, Expr)>) -> DeclList
    decreases s.len(),
{
    if s.len() == 0 {
        DeclList::Nil
    } else {
        DeclList::Cons(s[0].0, Box::new(s[0].1), Box::new(spec_decls_list(s.drop_first())))
    }
}

/// Trailing dynamic expressions as expression statements.
pub open spec fn spec_expr_stmts(s: Seq<Expr>) -> StmtList
    decreases s.len(),
{
    if s.len() == 0 {
        StmtList::Nil
    } else {
        StmtList::Cons(Box::new(Stmt::ExprStmt(s[0])), Box::new(spec_expr_stmts(s.drop_first())))
    }
}

/// The initializer of a use-site declarator: a hydration lookup when
/// hydratable, else a clone call on the registered template binding.
pub open spec fn spec_decl_init(tid: Option<Binding>, hydratable: bool, getnext: Binding) -> Option<
    Expr,
> {
    if hydratable {
        Some(
            Expr::Call(
                Box::new(Expr::Bound(getnext)),
                match tid {
                    Some(b) => ExprList::Cons(Box::new(Expr::Bound(b)), Box::new(ExprList::Nil)),
                    None => ExprList::Nil,
                },
            ),
        )
    } else {
        match tid {
            Some(b) => Some(Expr::Call(Box::new(Expr::Bound(b)), ExprList::Nil)),
            None => None,
        }
    }
}

/// The use-site expression once the declarators are complete: the single
/// declarator's initializer directly in the common case, else an
/// immediately-invoked closure declaring them all and running the trailing
/// dynamic expressions.
pub open spec fn spec_emit(decls: Seq<(Binding, Expr)>, exprs: Seq<Expr>) -> Expr {
    if exprs.len() == 0 && decls.len() == 1 {
        decls[0].1
    } else {
        Expr::Call(
            Box::new(
                Expr::Arrow(
                    false,
                    StmtList::Cons(
                        Box::new(Stmt::VarDecl(spec_decls_list(decls))),
                        Box::new(spec_expr_stmts(exprs)),
                    ),
                ),
            ),
            ExprList::Nil,
        )
    }
}

fn decls_to_list(v: &Vec<(Binding, Expr)>, i: usize) -> (r: DeclList)
    requires
        i <= v@.len(),
    ensures
        r == spec_decls_list(v@.skip(i as int)),
    decreases v@.len() - i,
{
    if i == v.len() {
        proof {
            assert(v@.skip(i as int) =~= Seq::<(Binding, Expr)>::empty());
        }
        DeclList::Nil
    } else {
        let rest = decls_to_list(v, i + 1);
        proof {
            assert(v@.skip(i as int).drop_first() =~= v@.skip(i + 1));
            assert(v@.skip(i as int)[0] == v@[i as int]);
        }
        DeclList::Cons(v[i].0, Box::new(v[i].1.deep_clone()), Box::new(rest))
    }
}

fn exprs_to_stmts(v: &Vec<Expr>, i: usize) -> (r: StmtList)
    requires
        i <= v@.len(),
    ensures
        r == spec_expr_stmts(v@.skip(i as int)),
    decreases v@.len() - i,
{
    if i == v.len() {
        proof {
            assert(v@.skip(i as int) =~= Seq::<Expr>::empty());
        }
        StmtList::Nil
    } else {
        let rest = exprs_to_stmts(v, i + 1);
        proof {
            assert(v@.skip(i as int).drop_first() =~= v@.skip(i + 1));
            assert(v@.skip(i as int)[0] == v@[i as int]);
        }
        StmtList::Cons(Box::new(Stmt::ExprStmt(v[i].deep_clone())), Box::new(rest))
    }
}

impl TransformResult {
    /// Register this result's markup (unless `skip_template`) and append
    /// the use-site declarator binding `id` to the instantiation
    /// expression. A non-hydratable use site with no registered template to
    /// clone from is a programming error and aborts the unit.
    pub fn register_template_dom(
        &mut self,
        id: Binding,
        config: &Config,
        names: &mut NameGen,
        creation_ctx: &mut TemplateCreationCtx,
    ) -> (r: Result<(), CompileError>)
        ensures
            ({
                let tv = templates_view(old(creation_ctx).templates@);
                let iv = imports_view(old(creation_ctx).imports@);
                match old(self).template {
                    None => {
                        &&& r == Result::<(), CompileError>::Ok(())
                        &&& *final(self) == *old(self)
                        &&& *final(names) == *old(names)
                        &&& final(creation_ctx).templates@ == old(creation_ctx).templates@
                        &&& final(creation_ctx).imports@ == old(creation_ctx).imports@
                    },
                    Some(t) => {
                        let fresh = Binding::Tmpl(old(names).tmpl);
                        let tid: Option<Binding> = if old(self).skip_template {
                            None
                        } else {
                            Some(spec_register_tpl_binding(tv, t@, fresh))
                        };
                        if old(self).skip_template && !config.hydratable {
                            &&& r == Result::<(), CompileError>::Err(CompileError::MissingTemplateId)
                            &&& *final(self) == *old(self)
                            &&& *final(names) == *old(names)
                            &&& final(creation_ctx).templates@ == old(creation_ctx).templates@
                            &&& final(creation_ctx).imports@ == old(creation_ctx).imports@
                        } else {
                            let init = spec_decl_init(
                                tid,
                                config.hydratable,
                                spec_register_key_binding(iv, "getNextElement"@, config.module_name@),
                            )->Some_0;
                            &&& r == Result::<(), CompileError>::Ok(())
                            &&& templates_view(final(creation_ctx).templates@)
                                == if old(self).skip_template {
                                    tv
                                } else {
                                    spec_register_tpl(tv, t@, fresh)
                                }
                            &&& imports_view(final(creation_ctx).imports@) == if config.hydratable {
                                spec_register_key(iv, "getNextElement"@, config.module_name@)
                            } else {
                                iv
                            }
                            &&& *final(names) == if !old(self).skip_template && find_tpl(tv, t@) < 0 {
                                NameGen { tmpl: spec_bump(old(names).tmpl), ..*old(names) }
                            } else {
                                *old(names)
                            }
                            &&& final(self).declarators@ == old(self).declarators@.push((id, init))
                            &&& final(self).id == old(self).id
                            &&& final(self).template == old(self).template
                            &&& final(self).exprs@ == old(self).exprs@
                            &&& final(self).text == old(self).text
                            &&& final(self).dynamic == old(self).dynamic
                            &&& final(self).skip_template == old(self).skip_template
                        }
                    },
                }
            }),
    {
        let template = match &self.template {
            None => {
                return Ok(());
            },
            Some(t) => t,
        };
        let template_id: Option<Binding> = if self.skip_template {
            None
        } else {
            Some(creation_ctx.register_template(template, names))
        };
        let decl_init: Expr = if config.hydratable {
            let getnext = creation_ctx.register_import_method("getNextElement", self_module(config));
            let args = match template_id {
                Some(b) => ExprList::Cons(Box::new(Expr::Bound(b)), Box::new(ExprList::Nil)),
                None => ExprList::Nil,
            };
            Expr::Call(Box::new(Expr::Bound(getnext)), args)
        } else {
            match template_id {
                Some(b) => Expr::Call(Box::new(Expr::Bound(b)), ExprList::Nil),
                None => {
                    return Err(CompileError::MissingTemplateId);
                },
            }
        };
        self.declarators.push((id, decl_init));
        Ok(())
    }

    /// The use-site expression for this result, dispatched by renderer.
    pub fn create_template(
        self,
        config: &Config,
        names: &mut NameGen,
        creation_ctx: &mut TemplateCreationCtx,
        wrap: bool,
    ) -> (r: Result<Expr, CompileError>)
        ensures
            spec_create_template_ok(self, *config, *old(names), *old(creation_ctx), wrap) matches Some(e)
                ==> r == Result::<Expr, CompileError>::Ok(e),
            spec_create_template_ok(self, *config, *old(names), *old(creation_ctx), wrap) is None
                ==> r == Result::<Expr, CompileError>::Err(CompileError::MissingTemplateId),
            spec_create_template_st(self, *config, *old(names), *old(creation_ctx), wrap) == (
                *final(names),
                templates_view(final(creation_ctx).templates@),
                imports_view(final(creation_ctx).imports@),
            ),
    {
        match config.generate {
            OutputType::Dom => self.create_template_dom(config, names, creation_ctx, wrap),
        }
    }

    /// DOM-renderer template creation; see `spec_create_template_ok` for
    /// the value it returns and `spec_create_template_st` for what it does
    /// to the name counters and the registries.
    pub fn create_template_dom(
        self,
        config: &Config,
        names: &mut NameGen,
        creation_ctx: &mut TemplateCreationCtx,
        wrap: bool,
    ) -> (r: Result<Expr, CompileError>)
        ensures
            spec_create_template_ok(self, *config, *old(names), *old(creation_ctx), wrap) matches Some(e)
                ==> r == Result::<Expr, CompileError>::Ok(e),
            spec_create_template_ok(self, *config, *old(names), *old(creation_ctx), wrap) is None
                ==> r == Result::<Expr, CompileError>::Err(CompileError::MissingTemplateId),
            spec_create_template_st(self, *config, *old(names), *old(creation_ctx), wrap) == (
                *final(names),
                templates_view(final(creation_ctx).templates@),
                imports_view(final(creation_ctx).imports@),
            ),
    {
        let mut this = self;
        match this.id {
            Some(id) => {
                let res = this.register_template_dom(id, config, names, creation_ctx);
                match res {
                    Err(e) => {
                        return Err(e);
                    },
                    Ok(()) => {},
                }
                if this.exprs.len() == 0 && this.declarators.len() == 1 {
                    let ghost before = this.declarators@;
                    let (_, init) = match this.declarators.pop() {
                        Some(p) => p,
                        None => {
                            proof {
                                assert(false);
                            }
                            (Binding::El(0), Expr::NullLit)
                        },
                    };
                    proof {
                        assert(before[0] == before.last());
                    }
                    Ok(init)
                } else {
                    let decls = decls_to_list(&this.declarators, 0);
                    let stmts = exprs_to_stmts(&this.exprs, 0);
                    proof {
                        assert(this.declarators@.skip(0) =~= this.declarators@);
                        assert(this.exprs@.skip(0) =~= this.exprs@);
                    }
                    Ok(
                        Expr::Call(
                            Box::new(
                                Expr::Arrow(
                                    false,
                                    StmtList::Cons(Box::new(Stmt::VarDecl(decls)), Box::new(stmts)),
                                ),
                            ),
                            ExprList::Nil,
                        ),
                    )
                }
            },
            None => {
                if wrap && this.dynamic && !config.memo_wrapper.as_str().is_empty() {
                    let memo = creation_ctx.register_import_method(
                        config.memo_wrapper.as_str(),
                        self_module(config),
                    );
                    let args = if this.exprs.len() > 0 {
                        ExprList::Cons(Box::new(this.exprs[0].deep_clone()), Box::new(ExprList::Nil))
                    } else {
                        ExprList::Nil
                    };
                    Ok(Expr::Call(Box::new(Expr::Bound(memo)), args))
                } else {
                    if this.exprs.len() > 0 {
                        Ok(this.exprs[0].deep_clone())
                    } else {
                        Ok(Expr::NullLit)
                    }
                }
            },
        }
    }
}

/// The declarators of the combined template declaration, one per
/// registered template in insertion order: the template binding, bound to
/// the factory applied to the raw markup as a template literal.
pub open spec fn spec_tpl_decls(ts: Seq<Template>, i: int, template_fn: Binding) -> DeclList
    decreases ts.len() - i when 0 <= i <= ts.len()
{
    if i >= ts.len() {
        DeclList::Nil
    } else {
        DeclList::Cons(
            ts[i].id,
            Box::new(
                Expr::Call(
                    Box::new(Expr::Bound(template_fn)),
                    ExprList::Cons(
                        Box::new(Expr::TemplateLit(ts[i].template)),
                        Box::new(ExprList::Nil),
                    ),
                ),
            ),
            Box::new(spec_tpl_decls(ts, i + 1, template_fn)),
        )
    }
}

impl TemplateCreationCtx {
    /// One declarator per registered template, in registry insertion order
    /// (the output's determinism guarantee).
    pub fn create_template_declarators_dom(&self, template_fn: Binding, i: usize) -> (r: DeclList)
        requires
            i <= self.templates@.len(),
        ensures
            r == spec_tpl_decls(self.templates@, i as int, template_fn),
        decreases self.templates@.len() - i,
    {
        if i == self.templates.len() {
            DeclList::Nil
        } else {
            let rest = self.create_template_declarators_dom(template_fn, i + 1);
            match self.templates[i].renderer {
                OutputType::Dom => {},
            }
            DeclList::Cons(
                self.templates[i].id,
                Box::new(
                    Expr::Call(
                        Box::new(Expr::Bound(template_fn)),
                        ExprList::Cons(
                            Box::new(Expr::TemplateLit(self.templates[i].template.clone())),
                            Box::new(ExprList::Nil),
                        ),
                    ),
                ),
                Box::new(rest),
            )
        }
    }

    /// The import statements, one per registry entry in insertion order;
    /// entry `i` binds `Binding::Helper(i)`.
    pub fn get_imports(&self, i: usize) -> (r: Vec<Stmt>)
        requires
            i <= self.imports@.len(),
        ensures
            r@.len() == self.imports@.len() - i,
            forall|k: int|
                0 <= k < r@.len() ==> ((#[trigger] r@[k]) matches Stmt::Import { name, module, local }
                    && name@ == self.imports@[i + k].name@ && module@ == self.imports@[i + k].module@
                    && local == Binding::Helper((i + k) as u64)),
        decreases self.imports@.len() - i,
    {
        if i == self.imports.len() {
            Vec::new()
        } else {
            let stmt = Stmt::Import {
                name: self.imports[i].name.clone(),
                module: self.imports[i].module.clone(),
                local: Binding::Helper(i as u64),
            };
            let rest = self.get_imports(i + 1);
            let mut out: Vec<Stmt> = Vec::new();
            out.push(stmt);
            let mut re = rest;
            out.append(&mut re);
            out
        }
    }

    /// The local bound to the template factory import.
    pub fn get_template_fn(&mut self, module_name: &str) -> (r: Binding)
        ensures
            imports_view(final(self).imports@) == spec_register_key(
                imports_view(old(self).imports@),
                "template"@,
                module_name@,
            ),
            r == spec_register_key_binding(imports_view(old(self).imports@), "template"@, module_name@),
            final(self).templates@ == old(self).templates@,
            forall|k: int|
                0 <= k < old(self).imports@.len() ==> final(self).imports@[k] == old(self).imports@[k],
            final(self).imports@.len() >= old(self).imports@.len(),
    {
        self.register_import_method("template", module_name)
    }

    /// The combined template declaration, or nothing when no template was
    /// registered.
    pub fn get_template_decl(&self, template_fn: Binding) -> (r: Option<Stmt>)
        ensures
            self.templates@.len() == 0 ==> r is None,
            self.templates@.len() > 0 ==> r == Some(
                Stmt::VarDecl(spec_tpl_decls(self.templates@, 0, template_fn)),
            ),
    {
        if self.templates.len() == 0 {
            None
        } else {
            Some(Stmt::VarDecl(self.create_template_declarators_dom(template_fn, 0)))
        }
    }

    /// The end-of-unit hoisting pass: the import statements for every
    /// registered `(name, module)` pair in insertion order, and, if any
    /// template was registered, the template factory import and the
    /// combined template declaration binding every template in registry
    /// insertion order. The result is spliced ahead of the unit's body.
    pub fn postprocess(&mut self, config: &Config) -> (r: Vec<Stmt>)
        ensures
            ({
                let iv = imports_view(old(self).imports@);
                if old(self).templates@.len() == 0 {
                    &&& *final(self) == *old(self)
                    &&& r@.len() == old(self).imports@.len()
                    &&& (forall|k: int|
                        0 <= k < r@.len() ==> ((#[trigger] r@[k]) matches Stmt::Import {
                            name,
                            module,
                            local,
                        } && name@ == old(self).imports@[k].name@
                            && module@ == old(self).imports@[k].module@
                            && local == Binding::Helper(k as u64)))
                } else {
                    let tfn = spec_register_key_binding(iv, "template"@, config.module_name@);
                    &&& final(self).templates@ == old(self).templates@
                    &&& imports_view(final(self).imports@) == spec_register_key(
                        iv,
                        "template"@,
                        config.module_name@,
                    )
                    &&& r@.len() == final(self).imports@.len() + 1
                    &&& (forall|k: int|
                        0 <= k < r@.len() - 1 ==> ((#[trigger] r@[k]) matches Stmt::Import {
                            name,
                            module,
                            local,
                        } && name@ == final(self).imports@[k].name@
                            && module@ == final(self).imports@[k].module@
                            && local == Binding::Helper(k as u64)))
                    &&& r@.last() == Stmt::VarDecl(
                        spec_tpl_decls(old(self).templates@, 0, tfn),
                    )
                }
            }),
    {
        if self.templates.len() == 0 {
            let r = self.get_imports(0);
            return r;
        }
        let tfn = self.get_template_fn(self_module(config));
        let mut stmts = self.get_imports(0);
        let decl = match self.get_template_decl(tfn) {
            Some(d) => d,
            None => {
                proof {
                    assert(false);
                }
                Stmt::VarDecl(DeclList::Nil)
            },
        };
        stmts.push(decl);
        stmts
    }
}

/// The configured module specifier, borrowed.
fn self_module(config: &Config) -> (r: &str)
    ensures
        r@ == config.module_name@,
{
    config.module_name.as_str()
}

/// The value `create_template` returns for a result, given the starting
/// name counters and registries; `None` is the aborting case (a
/// non-hydratable use site with no template to clone).
pub open spec fn spec_create_template_ok(
    res: TransformResult,
    config: Config,
    names: NameGen,
    ctx: TemplateCreationCtx,
    wrap: bool,
) -> Option<Expr> {
    let tv = templates_view(ctx.templates@);
    let iv = imports_view(ctx.imports@);
    match res.id {
        Some(id) => {
            match res.template {
                Some(t) => {
                    if res.skip_template && !config.hydratable {
                        None
                    } else {
                        let fresh = Binding::Tmpl(names.tmpl);
                        let tid: Option<Binding> = if res.skip_template {
                            None
                        } else {
                            Some(spec_register_tpl_binding(tv, t@, fresh))
                        };
                        let init = spec_decl_init(
                            tid,
                            config.hydratable,
                            spec_register_key_binding(iv, "getNextElement"@, config.module_name@),
                        )->Some_0;
                        Some(spec_emit(res.declarators@.push((id, init)), res.exprs@))
                    }
                },
                None => Some(spec_emit(res.declarators@, res.exprs@)),
            }
        },
        None => {
            if wrap && res.dynamic && config.memo_wrapper@.len() > 0 {
                let memo = spec_register_key_binding(iv, config.memo_wrapper@, config.module_name@);
                Some(
                    Expr::Call(
                        Box::new(Expr::Bound(memo)),
                        if res.exprs@.len() > 0 {
                            ExprList::Cons(Box::new(res.exprs@[0]), Box::new(ExprList::Nil))
                        } else {
                            ExprList::Nil
                        },
                    ),
                )
            } else {
                if res.exprs@.len() > 0 {
                    Some(res.exprs@[0])
                } else {
                    Some(Expr::NullLit)
                }
            }
        },
    }
}

/// What `create_template` leaves of the name counters and the two registry
/// views.
pub open spec fn spec_create_template_st(
    res: TransformResult,
    config: Config,
    names: NameGen,
    ctx: TemplateCreationCtx,
    wrap: bool,
) -> (NameGen, Seq<(Seq<char>, Binding)>, Seq<(Seq<char>, Seq<char>)>) {
    let tv = templates_view(ctx.templates@);
    let iv = imports_view(ctx.imports@);
    match res.id {
        Some(_) => {
            match res.template {
                Some(t) => {
                    if res.skip_template && !config.hydratable {
                        (names, tv, iv)
                    } else {
                        let fresh = Binding::Tmpl(names.tmpl);
                        let tv1 = if res.skip_template {
                            tv
                        } else {
                            spec_register_tpl(tv, t@, fresh)
                        };
                        let names1 = if !res.skip_template && find_tpl(tv, t@) < 0 {
                            NameGen { tmpl: spec_bump(names.tmpl), ..names }
                        } else {
                            names
                        };
                        let iv1 = if config.hydratable {
                            spec_register_key(iv, "getNextElement"@, config.module_name@)
                        } else {
                            iv
                        };
                        (names1, tv1, iv1)
                    }
                },
                None => (names, tv, iv),
            }
        },
        None => {
            if wrap && res.dynamic && config.memo_wrapper@.len() > 0 {
                (names, tv, spec_register_key(iv, config.memo_wrapper@, config.module_name@))
            } else {
                (names, tv, iv)
            }
        },
    }
}

} // verus!
