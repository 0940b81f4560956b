//! Minted identifiers and the unique-name generator.
//!
//! The scope/symbol facility of the host parser is modeled by an explicit
//! counter object: every identifier the compiler mints is one of a closed set
//! of prefixes paired with a counter value, and the textual form is derived
//! from that pair.

use vstd::prelude::*;

use crate::spec_bump;
use crate::text::push_char;

verus! {

/// Decimal digit character for a value below ten.
pub open spec fn spec_digit_char(d: nat) -> char {
    ((d + 48) as u8) as char
}

/// Decimal text of a natural number, most significant digit first.
pub open spec fn spec_dec(n: nat) -> Seq<char>
    decreases n,
{
    if n < 10 {
        seq![spec_digit_char(n)]
    } else {
        spec_dec(n / 10) + seq![spec_digit_char(n % 10)]
    }
}

/// Decimal rendering of a `u64`.
pub fn u64_to_dec(n: u64) -> (r: String)
    ensures
        r@ == spec_dec(n as nat),
    decreases n,
{
    if n < 10 {
        let d: u8 = (n as u8) + 48;
        let mut s = String::new();
        push_char(&mut s, d as char);
        assert(s@ =~= spec_dec(n as nat));
        s
    } else {
        let mut s = u64_to_dec(n / 10);
        let d: u8 = ((n % 10) as u8) + 48;
        push_char(&mut s, d as char);
        assert(s@ =~= spec_dec(n as nat));
        s
    }
}

/// An identifier minted by the compiler. Source-level identifiers stay as
/// text; minted ones are a prefix kind plus a counter value, so that two
/// mints with different counters are distinct by construction.
#[derive(Clone, Copy, PartialEq, Eq, Structural, Debug)]
pub enum Binding {
    /// An instantiated-node binding, printed `el$<n>`.
    El(u64),
    /// A hoisted template binding, printed `tmpl$<n>`.
    Tmpl(u64),
    /// A memoized-condition binding, printed `_c$<n>`.
    Cond(u64),
    /// The local bound to the import registry entry at this index,
    /// printed `_$<imported name>`.
    Helper(u64),
}

/// Textual form of a minted binding, given the imported name to use for
/// `Helper` entries (the import registry owns that name).
pub open spec fn spec_binding_text(b: Binding, helper_name: Seq<char>) -> Seq<char> {
    match b {
        Binding::El(n) => "el$"@ + spec_dec(n as nat),
        Binding::Tmpl(n) => "tmpl$"@ + spec_dec(n as nat),
        Binding::Cond(n) => "_c$"@ + spec_dec(n as nat),
        Binding::Helper(_) => "_$"@ + helper_name,
    }
}

impl Binding {
    /// Printable text of this binding; `helper_name` is consulted only for
    /// `Helper` bindings.
    pub fn text(&self, helper_name: &str) -> (r: String)
        ensures
            r@ == spec_binding_text(*self, helper_name@),
    {
        match self {
            Binding::El(n) => {
                let mut s = String::from_str("el$");
                s.append(u64_to_dec(*n).as_str());
                s
            },
            Binding::Tmpl(n) => {
                let mut s = String::from_str("tmpl$");
                s.append(u64_to_dec(*n).as_str());
                s
            },
            Binding::Cond(n) => {
                let mut s = String::from_str("_c$");
                s.append(u64_to_dec(*n).as_str());
                s
            },
            Binding::Helper(_) => {
                let mut s = String::from_str("_$");
                s.append(helper_name);
                s
            },
        }
    }
}

/// The unique-name counters, one per minted prefix. A counter holds the value
/// the next mint will use; minting bumps it (saturating at the top of `u64`,
/// where uniqueness is abandoned rather than wrapping).
pub struct NameGen {
    pub el: u64,
    pub tmpl: u64,
    pub cond: u64,
}

impl NameGen {
    /// Counters start at one, so the first minted element binding prints
    /// `el$1`, the first template `tmpl$1`, and so on.
    pub fn new() -> (r: NameGen)
        ensures
            r == (NameGen { el: 1u64, tmpl: 1u64, cond: 1u64 }),
    {
        NameGen { el: 1, tmpl: 1, cond: 1 }
    }

    pub fn fresh_el(&mut self) -> (r: Binding)
        ensures
            r == Binding::El(old(self).el),
            *final(self) == (NameGen { el: spec_bump(old(self).el), ..*old(self) }),
    {
        let n = self.el;
        self.el = self.el.saturating_add(1);
        Binding::El(n)
    }

    pub fn fresh_tmpl(&mut self) -> (r: Binding)
        ensures
            r == Binding::Tmpl(old(self).tmpl),
            *final(self) == (NameGen { tmpl: spec_bump(old(self).tmpl), ..*old(self) }),
    {
        let n = self.tmpl;
        self.tmpl = self.tmpl.saturating_add(1);
        Binding::Tmpl(n)
    }

    pub fn fresh_cond(&mut self) -> (r: Binding)
        ensures
            r == Binding::Cond(old(self).cond),
            *final(self) == (NameGen { cond: spec_bump(old(self).cond), ..*old(self) }),
    {
        let n = self.cond;
        self.cond = self.cond.saturating_add(1);
        Binding::Cond(n)
    }
}

} // verus!
