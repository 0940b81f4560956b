//! The template registry and the import registry, plus the compiler
//! configuration.
//!
//! Both registries are insertion-ordered lists searched by exact equality:
//! the first registration of a markup string or an `(imported name, module)`
//! pair creates the entry, and every later registration returns the same
//! binding. Insertion order is the output's only determinism guarantee, so
//! no unordered container stands behind either registry.

use vstd::prelude::*;

use crate::names::{Binding, NameGen};
use crate::spec_bump;

verus! {

broadcast use vstd::seq::group_seq_axioms, vstd::std_specs::vec::group_vec_axioms;

/// The renderer target; only the DOM renderer is modeled.
#[derive(Clone, Copy, PartialEq, Eq, Structural, Debug)]
pub enum OutputType {
    Dom,
}

/// The recognized configuration of one compilation unit.
#[derive(PartialEq, Debug)]
pub struct Config {
    pub generate: OutputType,
    /// Instantiate by hydration lookup instead of cloning fresh nodes.
    pub hydratable: bool,
    /// Name of the reactive memoization helper; empty disables wrapping
    /// extracted conditions in it.
    pub memo_wrapper: String,
    /// Module specifier the runtime helpers are imported from.
    pub module_name: String,
}

impl Config {
    pub fn new(generate: OutputType, hydratable: bool, memo_wrapper: String, module_name: String) -> (r: Config)
        ensures
            r == (Config { generate, hydratable, memo_wrapper, module_name }),
    {
        Config { generate, hydratable, memo_wrapper, module_name }
    }
}

impl Default for Config {
    fn default() -> (r: Config)
        ensures
            r.generate == OutputType::Dom,
            !r.hydratable,
            r.memo_wrapper@ == "memo"@,
            r.module_name@ == "dom"@,
    {
        Config {
            generate: OutputType::Dom,
            hydratable: false,
            memo_wrapper: String::from_str("memo"),
            module_name: String::from_str("dom"),
        }
    }
}

/// A compilation abort: an internal invariant did not hold for the node
/// under compilation.
#[derive(Clone, Copy, PartialEq, Eq, Structural, Debug)]
pub enum CompileError {
    /// A non-hydratable use site reached instantiation without a registered
    /// template to clone from.
    MissingTemplateId,
}

/// One deduplicated template: its minted binding and its markup, created
/// once and immutable afterwards.
#[derive(PartialEq, Debug)]
pub struct Template {
    pub id: Binding,
    pub template: String,
    pub renderer: OutputType,
}

/// One import registry entry: the imported name and the module specifier.
/// The bound local of entry `i` is `Binding::Helper(i)`.
#[derive(PartialEq, Debug)]
pub struct ImportEntry {
    pub name: String,
    pub module: String,
}

/// The two registries of one compilation unit.
pub struct TemplateCreationCtx {
    pub templates: Vec<Template>,
    pub imports: Vec<ImportEntry>,
}

/// The import registry as the sequence of its `(name, module)` texts.
pub open spec fn imports_view(s: Seq<ImportEntry>) -> Seq<(Seq<char>, Seq<char>)> {
    Seq::new(s.len(), |i: int| (s[i].name@, s[i].module@))
}

/// The template registry as the sequence of its `(markup, binding)` pairs.
pub open spec fn templates_view(s: Seq<Template>) -> Seq<(Seq<char>, Binding)> {
    Seq::new(s.len(), |i: int| (s[i].template@, s[i].id))
}

/// First index bound to `(name, module)`, or a negative value.
pub open spec fn find_key(v: Seq<(Seq<char>, Seq<char>)>, name: Seq<char>, module: Seq<char>) -> int
    decreases v.len(),
{
    if v.len() == 0 {
        -1
    } else if v[0].0 == name && v[0].1 == module {
        0
    } else {
        let r = find_key(v.drop_first(), name, module);
        if r < 0 {
            -1
        } else {
            r + 1
        }
    }
}

/// First index holding byte-identical markup, or a negative value.
pub open spec fn find_tpl(v: Seq<(Seq<char>, Binding)>, markup: Seq<char>) -> int
    decreases v.len(),
{
    if v.len() == 0 {
        -1
    } else if v[0].0 == markup {
        0
    } else {
        let r = find_tpl(v.drop_first(), markup);
        if r < 0 {
            -1
        } else {
            r + 1
        }
    }
}

/// What registering `(name, module)` leaves in the import registry.
pub open spec fn spec_register_key(
    v: Seq<(Seq<char>, Seq<char>)>,
    name: Seq<char>,
    module: Seq<char>,
) -> Seq<(Seq<char>, Seq<char>)> {
    if find_key(v, name, module) >= 0 {
        v
    } else {
        v.push((name, module))
    }
}

/// The local the registration returns.
pub open spec fn spec_register_key_binding(
    v: Seq<(Seq<char>, Seq<char>)>,
    name: Seq<char>,
    module: Seq<char>,
) -> Binding {
    if find_key(v, name, module) >= 0 {
        Binding::Helper(find_key(v, name, module) as u64)
    } else {
        Binding::Helper(v.len() as u64)
    }
}

/// What registering markup leaves in the template registry, given the
/// binding a fresh entry would be minted.
pub open spec fn spec_register_tpl(
    v: Seq<(Seq<char>, Binding)>,
    markup: Seq<char>,
    fresh: Binding,
) -> Seq<(Seq<char>, Binding)> {
    if find_tpl(v, markup) >= 0 {
        v
    } else {
        v.push((markup, fresh))
    }
}

/// The binding the registration returns: first registration wins.
pub open spec fn spec_register_tpl_binding(
    v: Seq<(Seq<char>, Binding)>,
    markup: Seq<char>,
    fresh: Binding,
) -> Binding {
    if find_tpl(v, markup) >= 0 {
        v[find_tpl(v, markup)].1
    } else {
        fresh
    }
}

proof fn lemma_find_key_at(v: Seq<(Seq<char>, Seq<char>)>, name: Seq<char>, module: Seq<char>, j: int)
    requires
        0 <= j <= v.len(),
        forall|k: int| 0 <= k < j ==> !(v[k].0 == name && v[k].1 == module),
        j == v.len() || (v[j].0 == name && v[j].1 == module),
    ensures
        j == v.len() ==> find_key(v, name, module) < 0,
        j < v.len() ==> find_key(v, name, module) == j,
    decreases j,
{
    if v.len() == 0 {
    } else if j == 0 {
    } else {
        lemma_find_key_at(v.drop_first(), name, module, j - 1);
    }
}

proof fn lemma_find_tpl_at(v: Seq<(Seq<char>, Binding)>, markup: Seq<char>, j: int)
    requires
        0 <= j <= v.len(),
        forall|k: int| 0 <= k < j ==> v[k].0 != markup,
        j == v.len() || v[j].0 == markup,
    ensures
        j == v.len() ==> find_tpl(v, markup) < 0,
        j < v.len() ==> find_tpl(v, markup) == j,
    decreases j,
{
    if v.len() == 0 {
    } else if j == 0 {
    } else {
        lemma_find_tpl_at(v.drop_first(), markup, j - 1);
    }
}

/// Where a lookup lands, its entry matches and nothing before it does.
pub proof fn lemma_find_tpl_props(v: Seq<(Seq<char>, Binding)>, markup: Seq<char>)
    ensures
        find_tpl(v, markup) >= 0 ==> {
            &&& find_tpl(v, markup) < v.len()
            &&& v[find_tpl(v, markup)].0 == markup
            &&& forall|k: int| 0 <= k < find_tpl(v, markup) ==> v[k].0 != markup
        },
        find_tpl(v, markup) < 0 ==> forall|k: int| 0 <= k < v.len() ==> v[k].0 != markup,
    decreases v.len(),
{
    if v.len() > 0 && !(v[0].0 == markup) {
        lemma_find_tpl_props(v.drop_first(), markup);
        let r = find_tpl(v.drop_first(), markup);
        if r >= 0 {
            assert forall|k: int| 0 <= k < r + 1 implies v[k].0 != markup by {
                if k > 0 {
                    assert(v.drop_first()[k - 1].0 != markup);
                }
            }
        } else {
            assert forall|k: int| 0 <= k < v.len() implies v[k].0 != markup by {
                if k > 0 {
                    assert(v.drop_first()[k - 1].0 != markup);
                }
            }
        }
    }
}

/// Idempotence of template deduplication: once markup is registered, every
/// later registration of byte-identical markup returns the binding of the
/// one existing entry and adds nothing, whatever fresh binding it had
/// available. With the first registration of unseen markup as the base
/// case, registering the same markup any number of times yields exactly one
/// entry and always the same binding.
pub proof fn lemma_register_tpl_idempotent(
    v: Seq<(Seq<char>, Binding)>,
    markup: Seq<char>,
    fresh1: Binding,
    fresh2: Binding,
)
    ensures
        spec_register_tpl(spec_register_tpl(v, markup, fresh1), markup, fresh2) == spec_register_tpl(
            v,
            markup,
            fresh1,
        ),
        spec_register_tpl_binding(spec_register_tpl(v, markup, fresh1), markup, fresh2)
            == spec_register_tpl_binding(v, markup, fresh1),
{
    let v1 = spec_register_tpl(v, markup, fresh1);
    lemma_find_tpl_props(v, markup);
    if find_tpl(v, markup) >= 0 {
    } else {
        lemma_find_tpl_at(v1, markup, v.len() as int);
    }
}

/// The first registration of unseen markup leaves exactly one entry holding
/// that markup.
pub proof fn lemma_register_tpl_unique(v: Seq<(Seq<char>, Binding)>, markup: Seq<char>, fresh: Binding)
    requires
        find_tpl(v, markup) < 0,
    ensures
        ({
            let v1 = spec_register_tpl(v, markup, fresh);
            &&& v1.len() == v.len() + 1
            &&& v1[v.len() as int].0 == markup
            &&& forall|k: int| 0 <= k < v.len() ==> v1[k].0 != markup
            &&& spec_register_tpl_binding(v, markup, fresh) == fresh
        }),
{
    lemma_find_tpl_props(v, markup);
}

impl TemplateCreationCtx {
    /// Fresh registries for one compilation unit.
    pub fn new() -> (r: TemplateCreationCtx)
        ensures
            r.templates@ =~= Seq::<Template>::empty(),
            r.imports@ =~= Seq::<ImportEntry>::empty(),
    {
        TemplateCreationCtx { templates: Vec::new(), imports: Vec::new() }
    }

    /// The local bound to `(name, module_name)`: the existing binding if the
    /// pair was ever registered, else a new binding appended to the
    /// registry. One binding per distinct pair, never duplicated.
    pub fn register_import_method(&mut self, name: &str, module_name: &str) -> (r: Binding)
        ensures
            imports_view(final(self).imports@) == spec_register_key(
                imports_view(old(self).imports@),
                name@,
                module_name@,
            ),
            r == spec_register_key_binding(imports_view(old(self).imports@), name@, module_name@),
            final(self).templates@ == old(self).templates@,
            forall|k: int|
                0 <= k < old(self).imports@.len() ==> final(self).imports@[k] == old(
                    self,
                ).imports@[k],
            final(self).imports@.len() >= old(self).imports@.len(),
    {
        let ghost v = imports_view(self.imports@);
        let mut j: usize = 0;
        while j < self.imports.len()
            invariant
                v == imports_view(self.imports@),
                j <= v.len(),
                forall|k: int| 0 <= k < j ==> !(v[k].0 == name@ && v[k].1 == module_name@),
            decreases self.imports@.len() - j,
        {
            let hit = crate::tree::str_eq(self.imports[j].name.as_str(), name) && crate::tree::str_eq(
                self.imports[j].module.as_str(),
                module_name,
            );
            if hit {
                proof {
                    lemma_find_key_at(v, name@, module_name@, j as int);
                    assert(spec_register_key(v, name@, module_name@) =~= v);
                }
                return Binding::Helper(j as u64);
            }
            j = j + 1;
        }
        proof {
            lemma_find_key_at(v, name@, module_name@, v.len() as int);
        }
        let idx = self.imports.len();
        self.imports.push(ImportEntry { name: String::from_str(name), module: String::from_str(module_name) });
        proof {
            assert(imports_view(self.imports@) =~= v.push((name@, module_name@)));
        }
        Binding::Helper(idx as u64)
    }

    /// Deduplicating registration of template markup: the existing binding
    /// for byte-identical markup (first registration wins), else a fresh
    /// `tmpl$` binding appended with its markup.
    pub fn register_template(&mut self, markup: &String, names: &mut NameGen) -> (r: Binding)
        ensures
            ({
                let v = templates_view(old(self).templates@);
                let fresh = Binding::Tmpl(old(names).tmpl);
                &&& templates_view(final(self).templates@) == spec_register_tpl(v, markup@, fresh)
                &&& r == spec_register_tpl_binding(v, markup@, fresh)
                &&& final(self).imports@ == old(self).imports@
                &&& (find_tpl(v, markup@) >= 0 ==> final(self).templates@ == old(self).templates@
                    && *final(names) == *old(names))
                &&& (find_tpl(v, markup@) < 0 ==> {
                    &&& final(self).templates@.len() == old(self).templates@.len() + 1
                    &&& (forall|k: int|
                        0 <= k < old(self).templates@.len() ==> final(self).templates@[k] == old(
                            self,
                        ).templates@[k])
                    &&& final(self).templates@.last().renderer == OutputType::Dom
                    &&& final(self).templates@.last().template@ == markup@
                    &&& final(self).templates@.last().id == fresh
                    &&& *final(names) == (NameGen { tmpl: spec_bump(old(names).tmpl), ..*old(names) })
                })
            }),
    {
        let ghost v = templates_view(self.templates@);
        let mut j: usize = 0;
        while j < self.templates.len()
            invariant
                v == templates_view(self.templates@),
                j <= v.len(),
                forall|k: int| 0 <= k < j ==> v[k].0 != markup@,
            decreases self.templates@.len() - j,
        {
            if crate::tree::str_eq(self.templates[j].template.as_str(), markup.as_str()) {
                proof {
                    lemma_find_tpl_at(v, markup@, j as int);
                    assert(spec_register_tpl(v, markup@, Binding::Tmpl(names.tmpl)) =~= v);
                }
                return self.templates[j].id;
            }
            j = j + 1;
        }
        proof {
            lemma_find_tpl_at(v, markup@, v.len() as int);
        }
        let id = names.fresh_tmpl();
        self.templates.push(
            Template { id, template: markup.clone(), renderer: OutputType::Dom },
        );
        proof {
            assert(templates_view(self.templates@) =~= v.push((markup@, id)));
        }
        id
    }
}

} // verus!
