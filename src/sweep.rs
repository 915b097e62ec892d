//! Sweeps: one attempt at every definition of a category, in order.

use vstd::prelude::*;
use crate::border::Border;
use crate::color::Color;
use crate::resolve::{Build, Composite, CompositeDef, Fallback, resolve, spec_resolve};
use crate::table::{Table, bind};

verus! {

/// The table of a leaf category after one attempt at each definition.
pub open spec fn spec_leaf_tier<D: Build>(
    defs: Seq<(String, D)>,
    colors: Seq<(Seq<char>, Color)>,
    borders: Seq<(Seq<char>, Border)>,
    own: Seq<(Seq<char>, <D::Value as View>::V)>,
) -> Seq<(Seq<char>, <D::Value as View>::V)>
    decreases defs.len(),
{
    if defs.len() == 0 {
        own
    } else {
        let before = spec_leaf_tier(defs.drop_last(), colors, borders, own);
        match defs.last().1.spec_build(colors, borders) {
            Some(v) => bind(before, defs.last().0@, v@),
            None => before,
        }
    }
}

/// The number of leaf definitions that fail to build.
pub open spec fn spec_leaf_failures<D: Build>(
    defs: Seq<(String, D)>,
    colors: Seq<(Seq<char>, Color)>,
    borders: Seq<(Seq<char>, Border)>,
) -> nat
    decreases defs.len(),
{
    if defs.len() == 0 {
        0
    } else {
        spec_leaf_failures(defs.drop_last(), colors, borders) + if defs.last().1.spec_build(
            colors,
            borders,
        ) is Some {
            0nat
        } else {
            1nat
        }
    }
}

/// Builds every leaf definition and binds each that builds; returns how many
/// failed.
pub fn resolve_leaves<D: Build>(
    defs: &Vec<(String, D)>,
    colors: &Table<Color>,
    borders: &Table<Border>,
    out: &mut Table<D::Value>,
) -> (failed: usize)
    ensures
        final(out)@ == spec_leaf_tier(defs@, colors@, borders@, old(out)@),
        failed == spec_leaf_failures(defs@, colors@, borders@),
        failed <= defs@.len(),
{
    let ghost start = out@;
    let mut failed: usize = 0;
    let mut i: usize = 0;
    while i < defs.len()
        invariant
            i <= defs@.len(),
            out@ == spec_leaf_tier(defs@.subrange(0, i as int), colors@, borders@, start),
            failed == spec_leaf_failures(defs@.subrange(0, i as int), colors@, borders@),
            failed <= i,
        decreases defs@.len() - i,
    {
        let ghost pre = defs@.subrange(0, i as int);
        let ghost post = defs@.subrange(0, i + 1);
        assert(post.drop_last() =~= pre);
        match defs[i].1.build(colors, borders) {
            Some(v) => {
                out.insert(defs[i].0.clone(), v);
            },
            None => {
                failed = failed + 1;
            },
        }
        i = i + 1;
    }
    assert(defs@.subrange(0, defs@.len() as int) =~= defs@);
    failed
}

/// The table of a composite category after one attempt at each definition.
pub open spec fn spec_sweep<S: Build, T: Build>(
    defs: Seq<(String, CompositeDef<S, T>)>,
    p: Fallback,
    colors: Seq<(Seq<char>, Color)>,
    borders: Seq<(Seq<char>, Border)>,
    own: Seq<(Seq<char>, (Seq<S::Value>, T::Value))>,
) -> Seq<(Seq<char>, (Seq<S::Value>, T::Value))>
    decreases defs.len(),
{
    if defs.len() == 0 {
        own
    } else {
        let before = spec_sweep(defs.drop_last(), p, colors, borders, own);
        match spec_resolve(defs.last().1, p, colors, borders, before) {
            Ok(m) => bind(before, defs.last().0@, m),
            Err(_) => before,
        }
    }
}

/// The number of composite definitions that fail in one sweep.
pub open spec fn spec_sweep_failures<S: Build, T: Build>(
    defs: Seq<(String, CompositeDef<S, T>)>,
    p: Fallback,
    colors: Seq<(Seq<char>, Color)>,
    borders: Seq<(Seq<char>, Border)>,
    own: Seq<(Seq<char>, (Seq<S::Value>, T::Value))>,
) -> nat
    decreases defs.len(),
{
    if defs.len() == 0 {
        0
    } else {
        let before = spec_sweep(defs.drop_last(), p, colors, borders, own);
        spec_sweep_failures(defs.drop_last(), p, colors, borders, own) + if spec_resolve(
            defs.last().1,
            p,
            colors,
            borders,
            before,
        ) is Ok {
            0nat
        } else {
            1nat
        }
    }
}

/// The table of a composite category after `n` sweeps.
pub open spec fn spec_passes<S: Build, T: Build>(
    n: nat,
    defs: Seq<(String, CompositeDef<S, T>)>,
    p: Fallback,
    colors: Seq<(Seq<char>, Color)>,
    borders: Seq<(Seq<char>, Border)>,
    own: Seq<(Seq<char>, (Seq<S::Value>, T::Value))>,
) -> Seq<(Seq<char>, (Seq<S::Value>, T::Value))>
    decreases n,
{
    if n == 0 {
        own
    } else {
        spec_sweep(defs, p, colors, borders, spec_passes((n - 1) as nat, defs, p, colors, borders, own))
    }
}

/// The number of composite definitions that fail in the last of `n > 0`
/// sweeps: those still unresolved when the sweeps stop.
pub open spec fn spec_final_failures<S: Build, T: Build>(
    n: nat,
    defs: Seq<(String, CompositeDef<S, T>)>,
    p: Fallback,
    colors: Seq<(Seq<char>, Color)>,
    borders: Seq<(Seq<char>, Border)>,
    own: Seq<(Seq<char>, (Seq<S::Value>, T::Value))>,
) -> nat {
    spec_sweep_failures(defs, p, colors, borders, spec_passes((n - 1) as nat, defs, p, colors, borders, own))
}

/// One sweep: tries every definition against the table as it stands, binding
/// each that resolves; returns how many failed.
pub fn sweep<S: Build, T: Build>(
    defs: &Vec<(String, CompositeDef<S, T>)>,
    p: Fallback,
    colors: &Table<Color>,
    borders: &Table<Border>,
    own: &mut Table<Composite<S::Value, T::Value>>,
) -> (failed: usize)
    ensures
        final(own)@ == spec_sweep(defs@, p, colors@, borders@, old(own)@),
        failed == spec_sweep_failures(defs@, p, colors@, borders@, old(own)@),
        failed <= defs@.len(),
{
    let ghost start = own@;
    let mut failed: usize = 0;
    let mut i: usize = 0;
    while i < defs.len()
        invariant
            i <= defs@.len(),
            own@ == spec_sweep(defs@.subrange(0, i as int), p, colors@, borders@, start),
            failed == spec_sweep_failures(defs@.subrange(0, i as int), p, colors@, borders@, start),
            failed <= i,
        decreases defs@.len() - i,
    {
        let ghost pre = defs@.subrange(0, i as int);
        let ghost post = defs@.subrange(0, i + 1);
        assert(post.drop_last() =~= pre);
        match resolve(&defs[i].1, p, colors, borders, own) {
            Ok(c) => {
                own.insert(defs[i].0.clone(), c);
            },
            Err(_) => {
                failed = failed + 1;
            },
        }
        i = i + 1;
    }
    assert(defs@.subrange(0, defs@.len() as int) =~= defs@);
    failed
}

} // verus!
