//! What holds of resolution over all inputs: entries that inherit from
//! entries later in their list resolve, chains resolve within the bound on
//! sweeps, entries that nothing defines never resolve, and inline leaf
//! references are shared.

use vstd::prelude::*;
use crate::border::Border;
use crate::button;
use crate::color::Color;
use crate::resolve::{
    Build, Component, CompositeDef, Fallback, MAX_PASSES, ResolveError, chained_at, fallback_at,
    first_failure, first_set, inherited_state, partial_states, spec_fallback, spec_resolve,
    spec_state, target,
};
use crate::sweep::{spec_final_failures, spec_passes, spec_sweep, spec_sweep_failures};
use crate::table::{bind, contains, find, lemma_bind, lemma_find_bounds, lookup};
use crate::theme::{empty_view, load_failures, serial, spec_load, ThemeView};

verus! {

/// Every inline part of `def` builds, some state is set, and the extra part
/// is set: all that `def` needs besides the entries it inherits from.
pub open spec fn self_sufficient<S: Build, T: Build>(
    def: CompositeDef<S, T>,
    colors: Seq<(Seq<char>, Color)>,
    borders: Seq<(Seq<char>, Border)>,
) -> bool {
    &&& forall|i: int|
        0 <= i < def.states@.len() ==> (#[trigger] def.states@[i] matches Component::Defined(s)
            ==> s.spec_build(colors, borders) is Some)
    &&& exists|i: int| 0 <= i < def.states@.len() && !(#[trigger] def.states@[i] is Unset)
    &&& !(def.extra is Unset)
    &&& (def.extra matches Component::Defined(t) ==> t.spec_build(colors, borders) is Some)
}

/// Every part of `def` that inherits names an entry present in `own`.
pub open spec fn inherited_present<S: Build, T: Build>(
    def: CompositeDef<S, T>,
    own: Seq<(Seq<char>, (Seq<S::Value>, T::Value))>,
) -> bool {
    &&& forall|i: int|
        0 <= i < def.states@.len() && (#[trigger] def.states@[i] is Inherited) ==> contains(
            own,
            target(def.states@[i]),
        )
    &&& def.extra is Inherited ==> contains(own, target(def.extra))
}

/// No part of `def` inherits.
pub open spec fn no_inheritance<S, T>(def: CompositeDef<S, T>) -> bool {
    &&& forall|i: int| 0 <= i < def.states@.len() ==> !(#[trigger] def.states@[i] is Inherited)
    &&& !(def.extra is Inherited)
}

/// Every part of `def` that inherits names `name`.
pub open spec fn inherits_only<S, T>(def: CompositeDef<S, T>, name: Seq<char>) -> bool {
    &&& forall|i: int|
        0 <= i < def.states@.len() && (#[trigger] def.states@[i] is Inherited) ==> target(
            def.states@[i],
        ) == name
    &&& def.extra is Inherited ==> target(def.extra) == name
}

/// Every definition has `k` states.
pub open spec fn uniform_defs<S, T>(defs: Seq<(String, CompositeDef<S, T>)>, k: nat) -> bool {
    forall|j: int| 0 <= j < defs.len() ==> (#[trigger] defs[j]).1.states@.len() == k
}

/// Every entry of the table has `k` states.
pub open spec fn uniform_table<V, W>(own: Seq<(Seq<char>, (Seq<V>, W))>, k: nat) -> bool {
    forall|j: int| 0 <= j < own.len() ==> (#[trigger] own[j]).1.0.len() == k
}

/// Each link `names[i]` of a chain is given in `defs` with definition
/// `chain[i]`.
pub open spec fn listed<S, T>(
    names: Seq<Seq<char>>,
    chain: Seq<CompositeDef<S, T>>,
    defs: Seq<(String, CompositeDef<S, T>)>,
) -> bool {
    forall|i: int|
        #![trigger names[i]]
        0 <= i < names.len() ==> exists|j: int|
            #![trigger defs[j]]
            0 <= j < defs.len() && defs[j].0@ == names[i] && defs[j].1 == chain[i]
}

/// Every name present in `s` is present in `t`.
pub open spec fn grows<V>(s: Seq<(Seq<char>, V)>, t: Seq<(Seq<char>, V)>) -> bool {
    forall|q: Seq<char>| contains(s, q) ==> #[trigger] contains(t, q)
}

proof fn lemma_first_set_some<V>(s: Seq<Option<V>>, i: int)
    requires
        0 <= i < s.len(),
        s[i] is Some,
    ensures
        first_set(s) is Some,
    decreases s.len(),
{
    if s[0] is None {
        assert(s.drop_first()[i - 1] == s[i]);
        lemma_first_set_some(s.drop_first(), i - 1);
    }
}

proof fn lemma_first_set_none<V>(s: Seq<Option<V>>)
    requires
        forall|i: int| 0 <= i < s.len() ==> s[i] is None,
    ensures
        first_set(s) is None,
    decreases s.len(),
{
    if s.len() > 0 {
        assert forall|i: int| 0 <= i < s.drop_first().len() implies s.drop_first()[i] is None by {
            assert(s.drop_first()[i] == s[i + 1]);
        }
        lemma_first_set_none(s.drop_first());
    }
}

/// No failure among the first `n` states means each of them resolved.
proof fn lemma_no_failure<S: Build, W>(
    cs: Seq<Component<S>>,
    n: int,
    colors: Seq<(Seq<char>, Color)>,
    borders: Seq<(Seq<char>, Border)>,
    own: Seq<(Seq<char>, (Seq<S::Value>, W))>,
)
    ensures
        first_failure(cs, n, colors, borders, own) is None <==> forall|i: int|
            0 <= i < n ==> (#[trigger] spec_state(cs, i, colors, borders, own)) is Ok,
    decreases n,
{
    if n > 0 {
        lemma_no_failure(cs, n - 1, colors, borders, own);
        if first_failure(cs, n - 1, colors, borders, own) is Some {
            assert(!(spec_state(cs, 0, colors, borders, own) is Ok) || exists|i: int|
                0 <= i < n - 1 && !(spec_state(cs, i, colors, borders, own) is Ok));
        }
    }
}

/// When every failing state fails with `e` and one state fails, the entry
/// fails with `e`.
proof fn lemma_failure_is<S: Build, W>(
    cs: Seq<Component<S>>,
    n: int,
    j: int,
    e: ResolveError,
    colors: Seq<(Seq<char>, Color)>,
    borders: Seq<(Seq<char>, Border)>,
    own: Seq<(Seq<char>, (Seq<S::Value>, W))>,
)
    requires
        0 <= j < n,
        spec_state(cs, j, colors, borders, own) is Err,
        forall|i: int|
            0 <= i < n ==> (#[trigger] spec_state(cs, i, colors, borders, own) matches Err(x) ==> x
                == e),
    ensures
        first_failure(cs, n, colors, borders, own) == Some(e),
    decreases n,
{
    if j < n - 1 {
        lemma_failure_is(cs, n - 1, j, e, colors, borders, own);
    } else {
        assert(spec_state(cs, n - 1, colors, borders, own) matches Err(x) ==> x == e);
        if first_failure(cs, n - 1, colors, borders, own) matches Some(x) {
            lemma_no_failure(cs, n - 1, colors, borders, own);
            let i = choose|i: int| 0 <= i < n - 1 && !(spec_state(cs, i, colors, borders, own) is Ok);
            lemma_failure_is(cs, n - 1, i, e, colors, borders, own);
        }
    }
}

/// What a resolved entry holds: its length is the definition's, and a state
/// given inline is what its definition builds.
pub proof fn lemma_resolved_states<S: Build, T: Build>(
    def: CompositeDef<S, T>,
    p: Fallback,
    colors: Seq<(Seq<char>, Color)>,
    borders: Seq<(Seq<char>, Border)>,
    own: Seq<(Seq<char>, (Seq<S::Value>, T::Value))>,
)
    ensures
        spec_resolve(def, p, colors, borders, own) matches Ok(m) ==> {
            &&& m.0.len() == def.states@.len()
            &&& forall|i: int|
                0 <= i < def.states@.len() ==> (#[trigger] def.states@[i] matches Component::Defined(
                    s,
                ) ==> Some(m.0[i]) == s.spec_build(colors, borders))
        },
{
    let cs = def.states@;
    if let Ok(m) = spec_resolve(def, p, colors, borders, own) {
        lemma_no_failure(cs, cs.len() as int, colors, borders, own);
        let s = partial_states(cs, colors, borders, own);
        assert forall|i: int|
            0 <= i < cs.len() implies (#[trigger] cs[i] matches Component::Defined(d) ==> Some(
            m.0[i],
        ) == d.spec_build(colors, borders)) by {
            if cs[i] is Defined {
                assert(spec_state(cs, i, colors, borders, own) is Ok);
                assert(s[i] is Some);
                assert(fallback_at(s, p, i) == s[i]);
            }
        }
    }
}

/// An entry resolves once everything it needs is present.
pub proof fn lemma_resolves_when_ready<S: Build, T: Build>(
    def: CompositeDef<S, T>,
    p: Fallback,
    colors: Seq<(Seq<char>, Color)>,
    borders: Seq<(Seq<char>, Border)>,
    own: Seq<(Seq<char>, (Seq<S::Value>, T::Value))>,
    k: nat,
)
    requires
        self_sufficient(def, colors, borders),
        inherited_present(def, own),
        uniform_table(own, k),
        def.states@.len() == k,
    ensures
        spec_resolve(def, p, colors, borders, own) is Ok,
{
    let cs = def.states@;
    assert forall|i: int| 0 <= i < cs.len() implies (#[trigger] spec_state(
        cs,
        i,
        colors,
        borders,
        own,
    )) is Ok by {
        if cs[i] is Inherited {
            lemma_find_bounds(own, target(cs[i]));
        }
    }
    lemma_no_failure(cs, cs.len() as int, colors, borders, own);
    let i0 = choose|i: int| 0 <= i < cs.len() && !(#[trigger] cs[i] is Unset);
    let s = partial_states(cs, colors, borders, own);
    assert(spec_state(cs, i0, colors, borders, own) is Ok);
    lemma_first_set_some(s, i0);
}

/// A sweep removes no name, and keeps every entry at `k` states.
pub proof fn lemma_sweep_grows<S: Build, T: Build>(
    defs: Seq<(String, CompositeDef<S, T>)>,
    p: Fallback,
    colors: Seq<(Seq<char>, Color)>,
    borders: Seq<(Seq<char>, Border)>,
    own: Seq<(Seq<char>, (Seq<S::Value>, T::Value))>,
    k: nat,
)
    ensures
        grows(own, spec_sweep(defs, p, colors, borders, own)),
        uniform_defs(defs, k) && uniform_table(own, k) ==> uniform_table(
            spec_sweep(defs, p, colors, borders, own),
            k,
        ),
    decreases defs.len(),
{
    if defs.len() > 0 {
        let before = spec_sweep(defs.drop_last(), p, colors, borders, own);
        assert(uniform_defs(defs, k) ==> uniform_defs(defs.drop_last(), k));
        lemma_sweep_grows(defs.drop_last(), p, colors, borders, own, k);
        let r = spec_resolve(defs.last().1, p, colors, borders, before);
        if let Ok(m) = r {
            let name = defs.last().0@;
            assert forall|q: Seq<char>| contains(own, q) implies #[trigger] contains(
                spec_sweep(defs, p, colors, borders, own),
                q,
            ) by {
                lemma_bind(before, name, m, q);
            }
            if uniform_defs(defs, k) && uniform_table(own, k) {
                lemma_resolved_states(defs.last().1, p, colors, borders, before);
                lemma_find_bounds(before, name);
                let after = bind(before, name, m);
                assert forall|j: int| 0 <= j < after.len() implies (#[trigger] after[j]).1.0.len()
                    == k by {
                    if j < before.len() {
                        if find(before, name) != Some(j) {
                            assert(after[j] == before[j]);
                        }
                    }
                }
            }
        }
    }
}

/// Sweeps remove no name, and keep every entry at `k` states.
pub proof fn lemma_passes_grow<S: Build, T: Build>(
    m: nat,
    n: nat,
    defs: Seq<(String, CompositeDef<S, T>)>,
    p: Fallback,
    colors: Seq<(Seq<char>, Color)>,
    borders: Seq<(Seq<char>, Border)>,
    own: Seq<(Seq<char>, (Seq<S::Value>, T::Value))>,
    k: nat,
)
    requires
        m <= n,
    ensures
        grows(
            spec_passes(m, defs, p, colors, borders, own),
            spec_passes(n, defs, p, colors, borders, own),
        ),
        uniform_defs(defs, k) && uniform_table(own, k) ==> uniform_table(
            spec_passes(n, defs, p, colors, borders, own),
            k,
        ),
    decreases n,
{
    if n > 0 {
        let prev = spec_passes((n - 1) as nat, defs, p, colors, borders, own);
        lemma_sweep_grows(defs, p, colors, borders, prev, k);
        if m < n {
            lemma_passes_grow(m, (n - 1) as nat, defs, p, colors, borders, own, k);
        } else {
            lemma_passes_grow(0, (n - 1) as nat, defs, p, colors, borders, own, k);
        }
    }
}

/// An entry that is ready when a sweep starts is present when it ends.
pub proof fn lemma_sweep_progress<S: Build, T: Build>(
    defs: Seq<(String, CompositeDef<S, T>)>,
    j: int,
    p: Fallback,
    colors: Seq<(Seq<char>, Color)>,
    borders: Seq<(Seq<char>, Border)>,
    own: Seq<(Seq<char>, (Seq<S::Value>, T::Value))>,
    k: nat,
)
    requires
        0 <= j < defs.len(),
        uniform_defs(defs, k),
        uniform_table(own, k),
        self_sufficient(defs[j].1, colors, borders),
        inherited_present(defs[j].1, own),
    ensures
        contains(spec_sweep(defs, p, colors, borders, own), defs[j].0@),
    decreases defs.len(),
{
    let pre = defs.drop_last();
    let before = spec_sweep(pre, p, colors, borders, own);
    assert(uniform_defs(pre, k));
    lemma_sweep_grows(pre, p, colors, borders, own, k);
    if j < defs.len() - 1 {
        assert(pre[j] == defs[j]);
        lemma_sweep_progress(pre, j, p, colors, borders, own, k);
        if let Ok(m) = spec_resolve(defs.last().1, p, colors, borders, before) {
            lemma_bind(before, defs.last().0@, m, defs[j].0@);
        }
    } else {
        let def = defs[j].1;
        assert forall|i: int|
            0 <= i < def.states@.len() && (#[trigger] def.states@[i] is Inherited) implies contains(
            before,
            target(def.states@[i]),
        ) by {}
        lemma_resolves_when_ready(def, p, colors, borders, before, k);
        let m = spec_resolve(def, p, colors, borders, before)->Ok_0;
        lemma_bind(before, defs[j].0@, m, defs[j].0@);
    }
}

/// A name that every definition of it fails for, whatever the table, never
/// enters the table.
pub proof fn lemma_passes_absent<S: Build, T: Build>(
    n: nat,
    defs: Seq<(String, CompositeDef<S, T>)>,
    name: Seq<char>,
    p: Fallback,
    colors: Seq<(Seq<char>, Color)>,
    borders: Seq<(Seq<char>, Border)>,
    own: Seq<(Seq<char>, (Seq<S::Value>, T::Value))>,
)
    requires
        !contains(own, name),
        forall|j: int, t: Seq<(Seq<char>, (Seq<S::Value>, T::Value))>|
            0 <= j < defs.len() && defs[j].0@ == name ==> #[trigger] spec_resolve(
                defs[j].1,
                p,
                colors,
                borders,
                t,
            ) is Err,
    ensures
        !contains(spec_passes(n, defs, p, colors, borders, own), name),
    decreases n,
{
    if n > 0 {
        lemma_passes_absent((n - 1) as nat, defs, name, p, colors, borders, own);
        lemma_sweep_absent(
            defs,
            name,
            p,
            colors,
            borders,
            spec_passes((n - 1) as nat, defs, p, colors, borders, own),
        );
    }
}

proof fn lemma_sweep_absent<S: Build, T: Build>(
    defs: Seq<(String, CompositeDef<S, T>)>,
    name: Seq<char>,
    p: Fallback,
    colors: Seq<(Seq<char>, Color)>,
    borders: Seq<(Seq<char>, Border)>,
    own: Seq<(Seq<char>, (Seq<S::Value>, T::Value))>,
)
    requires
        !contains(own, name),
        forall|j: int, t: Seq<(Seq<char>, (Seq<S::Value>, T::Value))>|
            0 <= j < defs.len() && defs[j].0@ == name ==> #[trigger] spec_resolve(
                defs[j].1,
                p,
                colors,
                borders,
                t,
            ) is Err,
    ensures
        !contains(spec_sweep(defs, p, colors, borders, own), name),
    decreases defs.len(),
{
    if defs.len() > 0 {
        let pre = defs.drop_last();
        assert forall|j: int, t: Seq<(Seq<char>, (Seq<S::Value>, T::Value))>|
            0 <= j < pre.len() && pre[j].0@ == name implies #[trigger] spec_resolve(
            pre[j].1,
            p,
            colors,
            borders,
            t,
        ) is Err by {
            assert(pre[j] == defs[j]);
        }
        lemma_sweep_absent(pre, name, p, colors, borders, own);
        let before = spec_sweep(pre, p, colors, borders, own);
        if let Ok(m) = spec_resolve(defs.last().1, p, colors, borders, before) {
            assert(defs[defs.len() - 1] == defs.last());
            lemma_bind(before, defs.last().0@, m, name);
        }
    }
}

/// Loading is a function of the raw definitions: two loads of the same input
/// give registries with the same resolved values and report the same number
/// of failures.
pub proof fn law_load_is_deterministic(raw: serial::Theme, a: ThemeView, b: ThemeView, fa: nat, fb: nat)
    requires
        a == spec_load(raw, empty_view()),
        b == spec_load(raw, empty_view()),
        fa == load_failures(raw, empty_view()),
        fb == load_failures(raw, empty_view()),
    ensures
        a == b,
        fa == fb,
{
}

/// An entry that inherits from one given later in the same list resolves,
/// and so does the one it inherits from: `a` inherits only from `b`, `b`
/// inherits from nothing, and each is otherwise complete.
pub proof fn law_forward_reference<S: Build, T: Build>(
    a: String,
    da: CompositeDef<S, T>,
    b: String,
    db: CompositeDef<S, T>,
    p: Fallback,
    colors: Seq<(Seq<char>, Color)>,
    borders: Seq<(Seq<char>, Border)>,
)
    requires
        a@ != b@,
        da.states@.len() == db.states@.len(),
        inherits_only(da, b@),
        no_inheritance(db),
        self_sufficient(da, colors, borders),
        self_sufficient(db, colors, borders),
    ensures
        contains(
            spec_passes(MAX_PASSES as nat, seq![(a, da), (b, db)], p, colors, borders, Seq::empty()),
            a@,
        ),
        contains(
            spec_passes(MAX_PASSES as nat, seq![(a, da), (b, db)], p, colors, borders, Seq::empty()),
            b@,
        ),
{
    let defs = seq![(a, da), (b, db)];
    let k = da.states@.len();
    let own = Seq::<(Seq<char>, (Seq<S::Value>, T::Value))>::empty();
    assert(uniform_defs(defs, k));
    let one = spec_passes(1, defs, p, colors, borders, own);
    let two = spec_passes(2, defs, p, colors, borders, own);
    assert(spec_passes(0, defs, p, colors, borders, own) == own);
    lemma_sweep_progress(defs, 1, p, colors, borders, own, k);
    lemma_passes_grow(0, 1, defs, p, colors, borders, own, k);
    lemma_sweep_progress(defs, 0, p, colors, borders, one, k);
    lemma_passes_grow(1, 2, defs, p, colors, borders, own, k);
    lemma_passes_grow(2, MAX_PASSES as nat, defs, p, colors, borders, own, k);
}

/// A chain of inheritance no longer than the number of sweeps resolves
/// fully, in any order of presentation: `names[0]` inherits from nothing,
/// each later link inherits only from the one before it, every definition of
/// the category has the same number of states, and each link is otherwise
/// complete.
pub proof fn law_chain_resolves<S: Build, T: Build>(
    names: Seq<Seq<char>>,
    chain: Seq<CompositeDef<S, T>>,
    defs: Seq<(String, CompositeDef<S, T>)>,
    p: Fallback,
    colors: Seq<(Seq<char>, Color)>,
    borders: Seq<(Seq<char>, Border)>,
    k: nat,
)
    requires
        1 <= names.len() <= MAX_PASSES,
        chain.len() == names.len(),
        listed(names, chain, defs),
        uniform_defs(defs, k),
        no_inheritance(chain[0]),
        forall|i: int| 1 <= i < names.len() ==> inherits_only(#[trigger] chain[i], names[i - 1]),
        forall|i: int| 0 <= i < names.len() ==> self_sufficient(#[trigger] chain[i], colors, borders),
    ensures
        forall|i: int|
            0 <= i < names.len() ==> contains(
                spec_passes(MAX_PASSES as nat, defs, p, colors, borders, Seq::empty()),
                #[trigger] names[i],
            ),
{
    let own = Seq::<(Seq<char>, (Seq<S::Value>, T::Value))>::empty();
    lemma_chain_prefix(names.len(), names, chain, defs, p, colors, borders, k);
    lemma_passes_grow(names.len(), MAX_PASSES as nat, defs, p, colors, borders, own, k);
}

/// After `n` sweeps the first `n` links of a chain are present.
proof fn lemma_chain_prefix<S: Build, T: Build>(
    n: nat,
    names: Seq<Seq<char>>,
    chain: Seq<CompositeDef<S, T>>,
    defs: Seq<(String, CompositeDef<S, T>)>,
    p: Fallback,
    colors: Seq<(Seq<char>, Color)>,
    borders: Seq<(Seq<char>, Border)>,
    k: nat,
)
    requires
        n <= names.len(),
        chain.len() == names.len(),
        listed(names, chain, defs),
        uniform_defs(defs, k),
        names.len() > 0 ==> no_inheritance(chain[0]),
        forall|i: int| 1 <= i < names.len() ==> inherits_only(#[trigger] chain[i], names[i - 1]),
        forall|i: int| 0 <= i < names.len() ==> self_sufficient(#[trigger] chain[i], colors, borders),
    ensures
        forall|i: int|
            0 <= i < n ==> contains(
                spec_passes(n, defs, p, colors, borders, Seq::empty()),
                #[trigger] names[i],
            ),
    decreases n,
{
    let own = Seq::<(Seq<char>, (Seq<S::Value>, T::Value))>::empty();
    if n > 0 {
        let m = (n - 1) as nat;
        lemma_chain_prefix(m, names, chain, defs, p, colors, borders, k);
        let prev = spec_passes(m, defs, p, colors, borders, own);
        lemma_passes_grow(m, n, defs, p, colors, borders, own, k);
        lemma_passes_grow(0, m, defs, p, colors, borders, own, k);
        assert(names[m as int] == names[m as int]);
        let j = choose|j: int|
            0 <= j < defs.len() && (#[trigger] defs[j]).0@ == names[m as int] && defs[j].1
                == chain[m as int];
        let def = chain[m as int];
        if m > 0 {
            assert(inherits_only(chain[m as int], names[m - 1]));
            assert(contains(prev, names[m - 1]));
        }
        assert forall|i: int|
            0 <= i < def.states@.len() && (#[trigger] def.states@[i] is Inherited) implies contains(
            prev,
            target(def.states@[i]),
        ) by {}
        lemma_sweep_progress(defs, j, p, colors, borders, prev, k);
    }
}

/// Each link of a chain is given once, deepest first, and nothing else is
/// given: `defs[x]` is link `d - 1 - x` of `d`.
pub open spec fn deepest_first<S, T>(
    names: Seq<Seq<char>>,
    chain: Seq<CompositeDef<S, T>>,
    defs: Seq<(String, CompositeDef<S, T>)>,
) -> bool {
    &&& chain.len() == names.len()
    &&& defs.len() == names.len()
    &&& forall|x: int|
        0 <= x < defs.len() ==> (#[trigger] defs[x]).0@ == names[names.len() - 1 - x] && defs[x].1
            == chain[names.len() - 1 - x]
    &&& forall|i: int, j: int| 0 <= i < j < names.len() ==> names[i] != names[j]
}

/// A link that inherits from the one before it: every part that inherits
/// names it, and some state does.
pub open spec fn strict_link<S, T>(def: CompositeDef<S, T>, prev: Seq<char>) -> bool {
    &&& inherits_only(def, prev)
    &&& exists|s: int| 0 <= s < def.states@.len() && (#[trigger] def.states@[s] is Inherited)
}

/// An entry with a state inherited from a name absent from the table fails.
proof fn lemma_fails_without_target<S: Build, T: Build>(
    def: CompositeDef<S, T>,
    s: int,
    p: Fallback,
    colors: Seq<(Seq<char>, Color)>,
    borders: Seq<(Seq<char>, Border)>,
    own: Seq<(Seq<char>, (Seq<S::Value>, T::Value))>,
)
    requires
        0 <= s < def.states@.len(),
        def.states@[s] is Inherited,
        !contains(own, target(def.states@[s])),
    ensures
        spec_resolve(def, p, colors, borders, own) is Err,
{
    let cs = def.states@;
    lemma_no_failure(cs, cs.len() as int, colors, borders, own);
    assert(lookup(own, target(cs[s])) is None);
    assert(spec_state(cs, s, colors, borders, own) is Err);
}

/// In a sweep over a chain listed deepest first, starting from a table that
/// holds exactly the links below `p`, a link resolves exactly when the one
/// before it was already present: after the first `m` definitions, link `i`
/// is present iff `i < p`, or it was among them and `i <= p`.
proof fn lemma_deepest_first_sweep<S: Build, T: Build>(
    m: int,
    names: Seq<Seq<char>>,
    chain: Seq<CompositeDef<S, T>>,
    defs: Seq<(String, CompositeDef<S, T>)>,
    p: nat,
    pol: Fallback,
    colors: Seq<(Seq<char>, Color)>,
    borders: Seq<(Seq<char>, Border)>,
    own: Seq<(Seq<char>, (Seq<S::Value>, T::Value))>,
    k: nat,
)
    requires
        0 <= m <= names.len(),
        names.len() >= 1,
        deepest_first(names, chain, defs),
        uniform_defs(defs, k),
        uniform_table(own, k),
        no_inheritance(chain[0]),
        forall|i: int| 1 <= i < names.len() ==> strict_link(#[trigger] chain[i], names[i - 1]),
        forall|i: int| 0 <= i < names.len() ==> self_sufficient(#[trigger] chain[i], colors, borders),
        forall|i: int| 0 <= i < names.len() ==> (contains(own, #[trigger] names[i]) <==> i < p),
    ensures
        forall|i: int|
            0 <= i < names.len() ==> (contains(
                spec_sweep(defs.subrange(0, m), pol, colors, borders, own),
                #[trigger] names[i],
            ) <==> (i < p || (names.len() - m <= i && i <= p))),
        m >= 1 && names.len() - 1 > p ==> spec_sweep_failures(
            defs.subrange(0, m),
            pol,
            colors,
            borders,
            own,
        ) >= 1,
    decreases m,
{
    let d = names.len() as int;
    if m == 0 {
        assert(defs.subrange(0, 0).len() == 0);
    } else {
        let pre = defs.subrange(0, m - 1);
        let cur = defs.subrange(0, m);
        assert(cur.drop_last() =~= pre);
        assert(cur.last() == defs[m - 1]);
        lemma_deepest_first_sweep(m - 1, names, chain, defs, p, pol, colors, borders, own, k);
        assert(uniform_defs(pre, k));
        lemma_sweep_grows(pre, pol, colors, borders, own, k);
        let before = spec_sweep(pre, pol, colors, borders, own);
        let j = d - m;
        assert(defs[m - 1].0@ == names[j] && defs[m - 1].1 == chain[j]);
        let def = chain[j];
        if j == 0 || j <= p as int {
            if j > 0 {
                assert(contains(before, names[j - 1]));
                assert(strict_link(chain[j], names[j - 1]));
            }
            assert forall|i: int|
                0 <= i < def.states@.len() && (#[trigger] def.states@[i] is Inherited) implies contains(
                before,
                target(def.states@[i]),
            ) by {}
            lemma_resolves_when_ready(def, pol, colors, borders, before, k);
            let r = spec_resolve(def, pol, colors, borders, before)->Ok_0;
            assert forall|i: int| 0 <= i < d implies (contains(
                spec_sweep(cur, pol, colors, borders, own),
                #[trigger] names[i],
            ) <==> (i < p || (d - m <= i && i <= p))) by {
                lemma_bind(before, names[j], r, names[i]);
            }
        } else {
            assert(!contains(before, names[j - 1]));
            assert(strict_link(chain[j], names[j - 1]));
            let s = choose|s: int| 0 <= s < def.states@.len() && (#[trigger] def.states@[s] is Inherited);
            lemma_fails_without_target(def, s, pol, colors, borders, before);
            assert forall|i: int| 0 <= i < d implies (contains(
                spec_sweep(cur, pol, colors, borders, own),
                #[trigger] names[i],
            ) <==> (i < p || (d - m <= i && i <= p))) by {
                if i == j {
                    assert(!contains(before, names[j]));
                }
            }
        }
        if m >= 2 && d - 1 > p {
            assert(spec_sweep_failures(pre, pol, colors, borders, own) >= 1);
        }
        if m == 1 && d - 1 > p {
            assert(j == d - 1);
            assert(pre.len() == 0);
        }
    }
}

/// After `p` sweeps over a chain listed deepest first, exactly the links
/// below `p` are present.
proof fn lemma_deepest_first_passes<S: Build, T: Build>(
    p: nat,
    names: Seq<Seq<char>>,
    chain: Seq<CompositeDef<S, T>>,
    defs: Seq<(String, CompositeDef<S, T>)>,
    pol: Fallback,
    colors: Seq<(Seq<char>, Color)>,
    borders: Seq<(Seq<char>, Border)>,
    k: nat,
)
    requires
        names.len() >= 1,
        deepest_first(names, chain, defs),
        uniform_defs(defs, k),
        no_inheritance(chain[0]),
        forall|i: int| 1 <= i < names.len() ==> strict_link(#[trigger] chain[i], names[i - 1]),
        forall|i: int| 0 <= i < names.len() ==> self_sufficient(#[trigger] chain[i], colors, borders),
    ensures
        forall|i: int|
            0 <= i < names.len() ==> (contains(
                spec_passes(p, defs, pol, colors, borders, Seq::empty()),
                #[trigger] names[i],
            ) <==> i < p),
        p >= 1 && names.len() > p ==> spec_final_failures(p, defs, pol, colors, borders, Seq::empty()) >= 1,
    decreases p,
{
    let own = Seq::<(Seq<char>, (Seq<S::Value>, T::Value))>::empty();
    if p == 0 {
        assert forall|i: int| 0 <= i < names.len() implies !contains(own, #[trigger] names[i]) by {}
    } else {
        let q = (p - 1) as nat;
        lemma_deepest_first_passes(q, names, chain, defs, pol, colors, borders, k);
        lemma_passes_grow(0, q, defs, pol, colors, borders, own, k);
        let t = spec_passes(q, defs, pol, colors, borders, own);
        assert(defs.subrange(0, defs.len() as int) =~= defs);
        lemma_deepest_first_sweep(
            names.len() as int,
            names,
            chain,
            defs,
            q,
            pol,
            colors,
            borders,
            t,
            k,
        );
    }
}

/// A chain one link longer than the number of sweeps, listed deepest first,
/// leaves its deepest link unresolved and counts it as a failure, while
/// every other link resolves.
pub proof fn law_chain_too_deep<S: Build, T: Build>(
    names: Seq<Seq<char>>,
    chain: Seq<CompositeDef<S, T>>,
    defs: Seq<(String, CompositeDef<S, T>)>,
    pol: Fallback,
    colors: Seq<(Seq<char>, Color)>,
    borders: Seq<(Seq<char>, Border)>,
    k: nat,
)
    requires
        names.len() == MAX_PASSES + 1,
        deepest_first(names, chain, defs),
        uniform_defs(defs, k),
        no_inheritance(chain[0]),
        forall|i: int| 1 <= i < names.len() ==> strict_link(#[trigger] chain[i], names[i - 1]),
        forall|i: int| 0 <= i < names.len() ==> self_sufficient(#[trigger] chain[i], colors, borders),
    ensures
        !contains(
            spec_passes(MAX_PASSES as nat, defs, pol, colors, borders, Seq::empty()),
            names[MAX_PASSES as int],
        ),
        forall|i: int|
            0 <= i < MAX_PASSES ==> contains(
                spec_passes(MAX_PASSES as nat, defs, pol, colors, borders, Seq::empty()),
                #[trigger] names[i],
            ),
        spec_final_failures(MAX_PASSES as nat, defs, pol, colors, borders, Seq::empty()) >= 1,
{
    lemma_deepest_first_passes(MAX_PASSES as nat, names, chain, defs, pol, colors, borders, k);
    assert(names[MAX_PASSES as int] == names[MAX_PASSES as int]);
}

/// A category in which no state is given inline resolves nothing: its table
/// stays empty, and every definition fails in every sweep. This is what
/// becomes of a cycle of inheritance.
pub proof fn law_nothing_defined_nothing_resolves<S: Build, T: Build>(
    n: nat,
    defs: Seq<(String, CompositeDef<S, T>)>,
    p: Fallback,
    colors: Seq<(Seq<char>, Color)>,
    borders: Seq<(Seq<char>, Border)>,
)
    requires
        forall|j: int, i: int|
            0 <= j < defs.len() && 0 <= i < defs[j].1.states@.len() ==> !(
            #[trigger] defs[j].1.states@[i] is Defined),
    ensures
        spec_passes(n, defs, p, colors, borders, Seq::empty()) == Seq::<
            (Seq<char>, (Seq<S::Value>, T::Value)),
        >::empty(),
        n > 0 ==> spec_final_failures(n, defs, p, colors, borders, Seq::empty()) == defs.len(),
    decreases n,
{
    if n > 0 {
        law_nothing_defined_nothing_resolves((n - 1) as nat, defs, p, colors, borders);
        lemma_sweep_of_undefined(defs, p, colors, borders);
    }
}

proof fn lemma_sweep_of_undefined<S: Build, T: Build>(
    defs: Seq<(String, CompositeDef<S, T>)>,
    p: Fallback,
    colors: Seq<(Seq<char>, Color)>,
    borders: Seq<(Seq<char>, Border)>,
)
    requires
        forall|j: int, i: int|
            0 <= j < defs.len() && 0 <= i < defs[j].1.states@.len() ==> !(
            #[trigger] defs[j].1.states@[i] is Defined),
    ensures
        spec_sweep(defs, p, colors, borders, Seq::empty()) == Seq::<
            (Seq<char>, (Seq<S::Value>, T::Value)),
        >::empty(),
        spec_sweep_failures(defs, p, colors, borders, Seq::empty()) == defs.len(),
    decreases defs.len(),
{
    if defs.len() > 0 {
        let pre = defs.drop_last();
        assert forall|j: int, i: int|
            0 <= j < pre.len() && 0 <= i < pre[j].1.states@.len() implies !(
            #[trigger] pre[j].1.states@[i] is Defined) by {
            assert(pre[j] == defs[j]);
        }
        lemma_sweep_of_undefined(pre, p, colors, borders);
        let def = defs.last().1;
        assert forall|i: int| 0 <= i < def.states@.len() implies !(#[trigger] def.states@[i] is Defined) by {
            assert(defs[defs.len() - 1] == defs.last());
        }
        lemma_undefined_fails_on_empty(def, p, colors, borders);
    }
}

/// A definition with no state given inline fails against an empty table.
proof fn lemma_undefined_fails_on_empty<S: Build, T: Build>(
    def: CompositeDef<S, T>,
    p: Fallback,
    colors: Seq<(Seq<char>, Color)>,
    borders: Seq<(Seq<char>, Border)>,
)
    requires
        forall|i: int| 0 <= i < def.states@.len() ==> !(#[trigger] def.states@[i] is Defined),
    ensures
        spec_resolve(def, p, colors, borders, Seq::empty()) is Err,
{
    let cs = def.states@;
    let own = Seq::<(Seq<char>, (Seq<S::Value>, T::Value))>::empty();
    lemma_no_failure(cs, cs.len() as int, colors, borders, own);
    if first_failure(cs, cs.len() as int, colors, borders, own) is None {
        let s = partial_states(cs, colors, borders, own);
        assert forall|i: int| 0 <= i < s.len() implies s[i] is None by {
            assert(spec_state(cs, i, colors, borders, own) is Ok);
            if cs[i] is Inherited {
                assert(lookup(own, target(cs[i])) is None);
                assert(inherited_state(own, target(cs[i]), i) is None);
            }
        }
        lemma_first_set_none(s);
    }
}

/// Under either policy, unset states take the value of a set first state
/// when it is the only one set.
pub proof fn law_fallback_copies_first<V>(s: Seq<Option<V>>, p: Fallback, x: V)
    requires
        s.len() >= 1,
        s[0] == Some(x),
        forall|i: int| 1 <= i < s.len() ==> s[i] is None,
    ensures
        spec_fallback(s, p) == Some(Seq::new(s.len(), |i: int| x)),
{
    assert(first_set(s) == Some(x));
    assert forall|i: int| 0 <= i < s.len() implies fallback_at(s, p, i) == Some(x) by {
        lemma_chained_reaches_first(s, i, x);
    }
    assert(spec_fallback(s, p)->0 =~= Seq::new(s.len(), |i: int| x));
}

proof fn lemma_chained_reaches_first<V>(s: Seq<Option<V>>, i: int, x: V)
    requires
        0 <= i < s.len(),
        s[0] == Some(x),
        forall|j: int| 1 <= j < s.len() ==> s[j] is None,
    ensures
        chained_at(s, i) == Some(x),
    decreases i,
{
    if i > 0 {
        lemma_chained_reaches_first(s, i - 1, x);
    }
}

/// An entry whose every state is unset fails with `AllStatesUnset`, whatever
/// the table holds.
pub proof fn law_all_unset_fails<S: Build, T: Build>(
    def: CompositeDef<S, T>,
    p: Fallback,
    colors: Seq<(Seq<char>, Color)>,
    borders: Seq<(Seq<char>, Border)>,
    own: Seq<(Seq<char>, (Seq<S::Value>, T::Value))>,
)
    requires
        forall|i: int| 0 <= i < def.states@.len() ==> #[trigger] def.states@[i] is Unset,
    ensures
        spec_resolve(def, p, colors, borders, own) == Err::<(Seq<S::Value>, T::Value), _>(
            ResolveError::AllStatesUnset,
        ),
{
    let cs = def.states@;
    lemma_no_failure(cs, cs.len() as int, colors, borders, own);
    let s = partial_states(cs, colors, borders, own);
    assert forall|i: int| 0 <= i < s.len() implies s[i] is None by {
        assert(cs[i] is Unset);
    }
    lemma_first_set_none(s);
}

/// A name whose only definition has every state unset is absent after any
/// number of sweeps from a table without it.
pub proof fn law_all_unset_absent<S: Build, T: Build>(
    n: nat,
    defs: Seq<(String, CompositeDef<S, T>)>,
    j: int,
    p: Fallback,
    colors: Seq<(Seq<char>, Color)>,
    borders: Seq<(Seq<char>, Border)>,
    own: Seq<(Seq<char>, (Seq<S::Value>, T::Value))>,
)
    requires
        0 <= j < defs.len(),
        forall|i: int| 0 <= i < defs[j].1.states@.len() ==> #[trigger] defs[j].1.states@[i] is Unset,
        forall|i: int| 0 <= i < defs.len() && i != j ==> (#[trigger] defs[i]).0@ != defs[j].0@,
        !contains(own, defs[j].0@),
    ensures
        !contains(spec_passes(n, defs, p, colors, borders, own), defs[j].0@),
{
    assert forall|i: int, t: Seq<(Seq<char>, (Seq<S::Value>, T::Value))>|
        0 <= i < defs.len() && defs[i].0@ == defs[j].0@ implies #[trigger] spec_resolve(
        defs[i].1,
        p,
        colors,
        borders,
        t,
    ) is Err by {
        law_all_unset_fails(defs[j].1, p, colors, borders, t);
    }
    lemma_passes_absent(n, defs, defs[j].0@, p, colors, borders, own);
}

/// A state given inline with a leaf reference that does not build makes its
/// entry fail against every table; when no part of the entry inherits, the
/// failure is `MissingLeafReference`, never an inheritance miss.
pub proof fn law_missing_leaf_fails<S: Build, T: Build>(
    def: CompositeDef<S, T>,
    i: int,
    p: Fallback,
    colors: Seq<(Seq<char>, Color)>,
    borders: Seq<(Seq<char>, Border)>,
    own: Seq<(Seq<char>, (Seq<S::Value>, T::Value))>,
)
    requires
        0 <= i < def.states@.len(),
        def.states@[i] matches Component::Defined(s) && s.spec_build(colors, borders) is None,
    ensures
        spec_resolve(def, p, colors, borders, own) is Err,
        no_inheritance(def) ==> spec_resolve(def, p, colors, borders, own) == Err::<
            (Seq<S::Value>, T::Value),
            _,
        >(ResolveError::MissingLeafReference),
{
    let cs = def.states@;
    lemma_no_failure(cs, cs.len() as int, colors, borders, own);
    assert(spec_state(cs, i, colors, borders, own) is Err);
    if no_inheritance(def) {
        assert forall|x: int| 0 <= x < cs.len() implies (#[trigger] spec_state(
            cs,
            x,
            colors,
            borders,
            own,
        ) matches Err(e) ==> e == ResolveError::MissingLeafReference) by {
            assert(!(cs[x] is Inherited));
        }
        lemma_failure_is(cs, cs.len() as int, i, ResolveError::MissingLeafReference, colors, borders, own);
    }
}

/// A name whose only definition has a state with a missing leaf reference is
/// absent after any number of sweeps from a table without it.
pub proof fn law_missing_leaf_absent<S: Build, T: Build>(
    n: nat,
    defs: Seq<(String, CompositeDef<S, T>)>,
    j: int,
    i: int,
    p: Fallback,
    colors: Seq<(Seq<char>, Color)>,
    borders: Seq<(Seq<char>, Border)>,
    own: Seq<(Seq<char>, (Seq<S::Value>, T::Value))>,
)
    requires
        0 <= j < defs.len(),
        0 <= i < defs[j].1.states@.len(),
        defs[j].1.states@[i] matches Component::Defined(s) && s.spec_build(colors, borders) is None,
        forall|x: int| 0 <= x < defs.len() && x != j ==> (#[trigger] defs[x]).0@ != defs[j].0@,
        !contains(own, defs[j].0@),
    ensures
        !contains(spec_passes(n, defs, p, colors, borders, own), defs[j].0@),
{
    assert forall|x: int, t: Seq<(Seq<char>, (Seq<S::Value>, T::Value))>|
        0 <= x < defs.len() && defs[x].0@ == defs[j].0@ implies #[trigger] spec_resolve(
        defs[x].1,
        p,
        colors,
        borders,
        t,
    ) is Err by {
        law_missing_leaf_fails(defs[j].1, i, p, colors, borders, t);
    }
    lemma_passes_absent(n, defs, defs[j].0@, p, colors, borders, own);
}

/// Two button entries that each give a state inline with the same background
/// color name hold the same handle there: both refer to the one color bound
/// to that name, not to copies of it.
pub proof fn law_leaf_sharing(
    d1: button::serial::Button,
    i1: int,
    d2: button::serial::Button,
    i2: int,
    p: Fallback,
    colors: Seq<(Seq<char>, Color)>,
    borders: Seq<(Seq<char>, Border)>,
    own: Seq<(Seq<char>, (Seq<button::State>, crate::resolve::NoExtra))>,
)
    requires
        colors.len() <= usize::MAX,
        0 <= i1 < d1.states@.len(),
        0 <= i2 < d2.states@.len(),
        d1.states@[i1] is Defined,
        d2.states@[i2] is Defined,
        d1.states@[i1]->Defined_0.background@ == d2.states@[i2]->Defined_0.background@,
        spec_resolve(d1, p, colors, borders, own) is Ok,
        spec_resolve(d2, p, colors, borders, own) is Ok,
    ensures
        ({
            let h1 = spec_resolve(d1, p, colors, borders, own)->Ok_0.0[i1].background;
            let h2 = spec_resolve(d2, p, colors, borders, own)->Ok_0.0[i2].background;
            &&& h1 == h2
            &&& 0 <= h1 < colors.len()
            &&& colors[h1 as int].0 == d1.states@[i1]->Defined_0.background@
        }),
{
    lemma_resolved_states(d1, p, colors, borders, own);
    lemma_resolved_states(d2, p, colors, borders, own);
    let name = d1.states@[i1]->Defined_0.background@;
    lemma_find_bounds(colors, name);
    assert(d1.states@[i1]->Defined_0.spec_build(colors, borders) is Some);
    assert(find(colors, name) is Some);
}

} // verus!
