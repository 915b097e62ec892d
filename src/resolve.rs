//! The resolution engine.
//!
//! A leaf definition names the colors and borders it is made of and is built
//! in one attempt. A composite definition holds one `Component` per state and
//! one for its extra part; a component is defined inline, inherited by name
//! from another entry of the same category, or left unset. Composite
//! categories are resolved by a bounded number of sweeps, each of which tries
//! every definition against the table as it stands at that moment.

use vstd::prelude::*;
use crate::border::Border;
use crate::color::Color;
use crate::table::{Table, find, lookup, lemma_find_bounds};

verus! {

/// Number of sweeps over the composite categories.
pub const MAX_PASSES: usize = 10;

/// Why one entry could not be resolved.
#[derive(Clone, Copy, Debug, PartialEq, Eq, Structural)]
pub enum ResolveError {
    /// A name that refers to a color or a border is not in its table.
    MissingLeafReference,
    /// An inherited entry is not in the table (yet).
    UnresolvedInheritance,
    /// No state of the entry is set, so there is nothing to fall back on.
    AllStatesUnset,
}

/// A definition that is built from the color and border tables alone.
pub trait Build {
    /// What the definition builds into.
    type Value: Copy + View;

    /// The built value, or `None` where a referenced name is missing.
    spec fn spec_build(
        &self,
        colors: Seq<(Seq<char>, Color)>,
        borders: Seq<(Seq<char>, Border)>,
    ) -> Option<Self::Value>;

    /// Builds the value.
    fn build(&self, colors: &Table<Color>, borders: &Table<Border>) -> (r: Option<Self::Value>)
        ensures
            r == self.spec_build(colors@, borders@),
    ;
}

/// The handle of an optional color name: `Some(None)` where no name is
/// given, `None` where the name is not in the table.
pub open spec fn find_optional(colors: Seq<(Seq<char>, Color)>, name: Option<String>) -> Option<Option<int>> {
    match name {
        None => Some(None),
        Some(n) => match find(colors, n@) {
            Some(i) => Some(Some(i)),
            None => None,
        },
    }
}

/// An optional handle as stored in a resolved style.
pub open spec fn optional_handle(h: Option<int>) -> Option<usize> {
    match h {
        Some(i) => Some(i as usize),
        None => None,
    }
}

/// Looks up an optional color name.
pub fn optional_color(colors: &Table<Color>, name: &Option<String>) -> (r: Option<Option<usize>>)
    ensures
        r == (match find_optional(colors@, *name) {
            Some(h) => Some(optional_handle(h)),
            None => None::<Option<usize>>,
        }),
{
    match name {
        None => Some(None),
        Some(n) => match colors.find(n) {
            Some(i) => Some(Some(i)),
            None => None,
        },
    }
}

/// A part of a composite definition.
pub enum Component<S> {
    /// Given inline.
    Defined(S),
    /// Copied from the same part of the entry with this name.
    Inherited(String),
    /// Not given: filled in by the fallback policy.
    Unset,
}

/// An entry that holds nothing beyond its states.
#[derive(Clone, Copy, Debug, PartialEq, Eq, Structural)]
pub struct NoExtra;

impl View for NoExtra {
    type V = NoExtra;

    open spec fn view(&self) -> NoExtra {
        *self
    }
}

impl Build for NoExtra {
    type Value = NoExtra;

    open spec fn spec_build(
        &self,
        colors: Seq<(Seq<char>, Color)>,
        borders: Seq<(Seq<char>, Border)>,
    ) -> Option<NoExtra> {
        Some(NoExtra)
    }

    fn build(&self, colors: &Table<Color>, borders: &Table<Border>) -> (r: Option<NoExtra>) {
        Some(NoExtra)
    }
}

/// A raw composite definition: one component per state, in the category's
/// order of states, and the extra part.
pub struct CompositeDef<S, T> {
    /// Per-state components.
    pub states: Vec<Component<S>>,
    /// The part shared by all states.
    pub extra: Component<T>,
}

/// A resolved composite entry: every state is set.
pub struct Composite<V, W> {
    /// Per-state values.
    pub states: Vec<V>,
    /// The part shared by all states.
    pub extra: W,
}

impl<V, W> View for Composite<V, W> {
    type V = (Seq<V>, W);

    open spec fn view(&self) -> (Seq<V>, W) {
        (self.states@, self.extra)
    }
}

/// How unset states are filled in.
#[derive(Clone, Copy, Debug, PartialEq, Eq, Structural)]
pub enum Fallback {
    /// Every unset state takes the first set state.
    Flat,
    /// An unset state takes the state before it; an unset first state takes
    /// the first set state.
    Chained,
}

/// The first set state.
pub open spec fn first_set<V>(s: Seq<Option<V>>) -> Option<V>
    decreases s.len(),
{
    if s.len() == 0 {
        None
    } else if s[0] is Some {
        s[0]
    } else {
        first_set(s.drop_first())
    }
}

/// The value that state `i` takes under the chained policy.
pub open spec fn chained_at<V>(s: Seq<Option<V>>, i: int) -> Option<V>
    decreases i,
{
    if s[i] is Some {
        s[i]
    } else if i <= 0 {
        first_set(s)
    } else {
        chained_at(s, i - 1)
    }
}

/// The value that state `i` takes under policy `p`.
pub open spec fn fallback_at<V>(s: Seq<Option<V>>, p: Fallback, i: int) -> Option<V> {
    match p {
        Fallback::Flat => if s[i] is Some {
            s[i]
        } else {
            first_set(s)
        },
        Fallback::Chained => chained_at(s, i),
    }
}

/// Every state filled in, or `None` when no state is set.
pub open spec fn spec_fallback<V>(s: Seq<Option<V>>, p: Fallback) -> Option<Seq<V>> {
    if first_set(s) is None {
        None
    } else {
        Some(Seq::new(s.len(), |i: int| fallback_at(s, p, i)->0))
    }
}

/// State `i` of the entry named `name`, if it is in the table.
pub open spec fn inherited_state<V, W>(own: Seq<(Seq<char>, (Seq<V>, W))>, name: Seq<char>, i: int) -> Option<V> {
    match lookup(own, name) {
        Some(e) => if 0 <= i < e.0.len() {
            Some(e.0[i])
        } else {
            None
        },
        None => None,
    }
}

/// The extra part of the entry named `name`, if it is in the table.
pub open spec fn inherited_extra<V, W>(own: Seq<(Seq<char>, (Seq<V>, W))>, name: Seq<char>) -> Option<W> {
    match lookup(own, name) {
        Some(e) => Some(e.1),
        None => None,
    }
}

/// One component resolved, given what inheritance would copy.
pub open spec fn spec_component<S: Build>(
    c: Component<S>,
    colors: Seq<(Seq<char>, Color)>,
    borders: Seq<(Seq<char>, Border)>,
    inherited: Option<S::Value>,
) -> Result<Option<S::Value>, ResolveError> {
    match c {
        Component::Defined(s) => match s.spec_build(colors, borders) {
            Some(v) => Ok(Some(v)),
            None => Err(ResolveError::MissingLeafReference),
        },
        Component::Inherited(_) => match inherited {
            Some(v) => Ok(Some(v)),
            None => Err(ResolveError::UnresolvedInheritance),
        },
        Component::Unset => Ok(None),
    }
}

/// The name a component inherits from (empty unless it inherits).
pub open spec fn target<S>(c: Component<S>) -> Seq<char> {
    match c {
        Component::Inherited(n) => n@,
        _ => Seq::empty(),
    }
}

/// State `i` of a definition resolved against the tables.
pub open spec fn spec_state<S: Build, W>(
    cs: Seq<Component<S>>,
    i: int,
    colors: Seq<(Seq<char>, Color)>,
    borders: Seq<(Seq<char>, Border)>,
    own: Seq<(Seq<char>, (Seq<S::Value>, W))>,
) -> Result<Option<S::Value>, ResolveError> {
    spec_component(cs[i], colors, borders, inherited_state(own, target(cs[i]), i))
}

/// The error of the first of the first `n` states that fails, if any.
pub open spec fn first_failure<S: Build, W>(
    cs: Seq<Component<S>>,
    n: int,
    colors: Seq<(Seq<char>, Color)>,
    borders: Seq<(Seq<char>, Border)>,
    own: Seq<(Seq<char>, (Seq<S::Value>, W))>,
) -> Option<ResolveError>
    decreases n,
{
    if n <= 0 {
        None
    } else {
        match first_failure(cs, n - 1, colors, borders, own) {
            Some(e) => Some(e),
            None => match spec_state(cs, n - 1, colors, borders, own) {
                Err(e) => Some(e),
                Ok(_) => None,
            },
        }
    }
}

/// The states before fallback: `None` for an unset one.
pub open spec fn partial_states<S: Build, W>(
    cs: Seq<Component<S>>,
    colors: Seq<(Seq<char>, Color)>,
    borders: Seq<(Seq<char>, Border)>,
    own: Seq<(Seq<char>, (Seq<S::Value>, W))>,
) -> Seq<Option<S::Value>> {
    Seq::new(
        cs.len(),
        |i: int|
            match spec_state(cs, i, colors, borders, own) {
                Ok(o) => o,
                Err(_) => None,
            },
    )
}

/// A composite definition resolved against the tables as they stand.
pub open spec fn spec_resolve<S: Build, T: Build>(
    def: CompositeDef<S, T>,
    p: Fallback,
    colors: Seq<(Seq<char>, Color)>,
    borders: Seq<(Seq<char>, Border)>,
    own: Seq<(Seq<char>, (Seq<S::Value>, T::Value))>,
) -> Result<(Seq<S::Value>, T::Value), ResolveError> {
    let cs = def.states@;
    match first_failure(cs, cs.len() as int, colors, borders, own) {
        Some(e) => Err(e),
        None => match spec_fallback(partial_states(cs, colors, borders, own), p) {
            None => Err(ResolveError::AllStatesUnset),
            Some(states) => match spec_component(
                def.extra,
                colors,
                borders,
                inherited_extra(own, target(def.extra)),
            ) {
                Err(e) => Err(e),
                Ok(None) => Err(ResolveError::AllStatesUnset),
                Ok(Some(w)) => Ok((states, w)),
            },
        },
    }
}

/// Once a state has failed, the first failure no longer changes.
pub proof fn lemma_first_failure_stays<S: Build, W>(
    cs: Seq<Component<S>>,
    m: int,
    n: int,
    colors: Seq<(Seq<char>, Color)>,
    borders: Seq<(Seq<char>, Border)>,
    own: Seq<(Seq<char>, (Seq<S::Value>, W))>,
)
    requires
        0 <= m <= n,
        first_failure(cs, m, colors, borders, own) is Some,
    ensures
        first_failure(cs, n, colors, borders, own) == first_failure(cs, m, colors, borders, own),
    decreases n - m,
{
    if m < n {
        lemma_first_failure_stays(cs, m, n - 1, colors, borders, own);
    }
}

/// The model of a resolution result.
pub open spec fn result_view<V, W>(r: Result<Composite<V, W>, ResolveError>) -> Result<(Seq<V>, W), ResolveError> {
    match r {
        Ok(c) => Ok(c@),
        Err(e) => Err(e),
    }
}

/// Fills in the unset states by policy `p`.
pub fn fallback<V: Copy>(states: &Vec<Option<V>>, p: Fallback) -> (r: Option<Vec<V>>)
    ensures
        r matches Some(v) ==> spec_fallback(states@, p) == Some(v@),
        r is None ==> spec_fallback(states@, p) is None,
{
    let ghost s = states@;
    // The first set state.
    let mut first: Option<V> = None;
    let mut i: usize = states.len();
    while i > 0
        invariant
            i <= s.len(),
            s == states@,
            first == first_set(s.subrange(i as int, s.len() as int)),
        decreases i,
    {
        i = i - 1;
        let ghost t = s.subrange(i as int, s.len() as int);
        assert(t.drop_first() =~= s.subrange(i + 1, s.len() as int));
        if states[i].is_some() {
            first = states[i];
        }
    }
    assert(s.subrange(0, s.len() as int) =~= s);
    let default = match first {
        Some(d) => d,
        None => {
            return None;
        },
    };
    let mut out: Vec<V> = Vec::new();
    let mut j: usize = 0;
    while j < states.len()
        invariant
            j <= s.len(),
            s == states@,
            first_set(s) == Some(default),
            out@.len() == j,
            forall|k: int| 0 <= k < j ==> Some(#[trigger] out@[k]) == fallback_at(s, p, k),
        decreases s.len() - j,
    {
        let v = match states[j] {
            Some(v) => v,
            None => match p {
                Fallback::Flat => default,
                Fallback::Chained => if j == 0 {
                    default
                } else {
                    out[j - 1]
                },
            },
        };
        out.push(v);
        j = j + 1;
    }
    proof {
        assert(out@ =~= Seq::new(s.len(), |k: int| fallback_at(s, p, k)->0));
    }
    Some(out)
}

/// Resolves one composite definition against the tables as they stand.
pub fn resolve<S: Build, T: Build>(
    def: &CompositeDef<S, T>,
    p: Fallback,
    colors: &Table<Color>,
    borders: &Table<Border>,
    own: &Table<Composite<S::Value, T::Value>>,
) -> (r: Result<Composite<S::Value, T::Value>, ResolveError>)
    ensures
        result_view(r) == spec_resolve(*def, p, colors@, borders@, own@),
{
    let ghost cs = def.states@;
    let mut partial: Vec<Option<S::Value>> = Vec::new();
    let mut i: usize = 0;
    while i < def.states.len()
        invariant
            i <= cs.len(),
            cs == def.states@,
            first_failure(cs, i as int, colors@, borders@, own@) is None,
            partial@ == partial_states(cs, colors@, borders@, own@).subrange(0, i as int),
        decreases cs.len() - i,
    {
        proof {
            if spec_state(cs, i as int, colors@, borders@, own@) is Err {
                lemma_first_failure_stays(cs, i + 1, cs.len() as int, colors@, borders@, own@);
            }
            lemma_find_bounds(own@, target(cs[i as int]));
        }
        let slot = match &def.states[i] {
            Component::Defined(s) => match s.build(colors, borders) {
                Some(v) => Some(v),
                None => {
                    return Err(ResolveError::MissingLeafReference);
                },
            },
            Component::Inherited(n) => match own.get(n) {
                Some(e) => {
                    if i < e.states.len() {
                        Some(e.states[i])
                    } else {
                        return Err(ResolveError::UnresolvedInheritance);
                    }
                },
                None => {
                    return Err(ResolveError::UnresolvedInheritance);
                },
            },
            Component::Unset => None,
        };
        partial.push(slot);
        i = i + 1;
        assert(partial@ =~= partial_states(cs, colors@, borders@, own@).subrange(0, i as int));
    }
    assert(partial@ =~= partial_states(cs, colors@, borders@, own@));
    let states = match fallback(&partial, p) {
        Some(v) => v,
        None => {
            return Err(ResolveError::AllStatesUnset);
        },
    };
    let extra = match &def.extra {
        Component::Defined(t) => match t.build(colors, borders) {
            Some(w) => w,
            None => {
                return Err(ResolveError::MissingLeafReference);
            },
        },
        Component::Inherited(n) => match own.get(n) {
            Some(e) => e.extra,
            None => {
                return Err(ResolveError::UnresolvedInheritance);
            },
        },
        Component::Unset => {
            return Err(ResolveError::AllStatesUnset);
        },
    };
    Ok(Composite { states, extra })
}

} // verus!
