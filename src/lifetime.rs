use crate::container::{scoped_value, singleton_value};
use crate::fetch::{made_at, RealFetcher, Timestamp};
use crate::print::Printer;
use vstd::prelude::*;

verus! {

/// What a lineage's slots hold: the singleton slot, and one scoped slot per
/// scope.
pub struct Slots {
    pub singleton: Option<Printer>,
    pub scoped: Seq<Option<RealFetcher>>,
}

/// One call on a lineage, through any of its handles. A clone of a handle
/// makes the same calls as the handle itself.
pub enum Call {
    /// The scoped accessor of a handle on scope `scope`, made at `at`.
    Scoped { scope: nat, at: Timestamp },
    /// The singleton accessor of a handle configured with `file`.
    Singleton { file: Option<String> },
    /// `new_scope` through any handle.
    NewScope,
}

/// A scoped access that the accessor admits.
pub open spec fn admits(s: Slots, scope: nat, at: Timestamp) -> bool {
    scope < s.scoped.len()
}

/// The slots after call `c`.
pub open spec fn step(s: Slots, c: Call) -> Slots {
    match c {
        Call::Scoped { scope, at } => if admits(s, scope, at) {
            Slots {
                singleton: s.singleton,
                scoped: s.scoped.update(scope as int, Some(scoped_value(s.scoped[scope as int], at))),
            }
        } else {
            s
        },
        Call::Singleton { file } => Slots {
            singleton: Some(singleton_value(s.singleton, file)),
            scoped: s.scoped,
        },
        Call::NewScope => Slots { singleton: s.singleton, scoped: s.scoped.push(None) },
    }
}

/// The slots after all of `calls`, in order.
pub open spec fn run(s: Slots, calls: Seq<Call>) -> Slots
    decreases calls.len(),
{
    if calls.len() == 0 {
        s
    } else {
        run(step(s, calls[0]), calls.drop_first())
    }
}

/// The values that the scoped accessor returns for scope `i` over `calls`.
pub open spec fn scoped_returns(s: Slots, calls: Seq<Call>, i: nat) -> Seq<RealFetcher>
    decreases calls.len(),
{
    if calls.len() == 0 {
        seq![]
    } else {
        let rest = scoped_returns(step(s, calls[0]), calls.drop_first(), i);
        match calls[0] {
            Call::Scoped { scope, at } => if scope == i && admits(s, scope, at) {
                seq![scoped_value(s.scoped[i as int], at)] + rest
            } else {
                rest
            },
            _ => rest,
        }
    }
}

/// How many scoped values are constructed for scope `i` over `calls`.
pub open spec fn scoped_constructions(s: Slots, calls: Seq<Call>, i: nat) -> nat
    decreases calls.len(),
{
    if calls.len() == 0 {
        0
    } else {
        let rest = scoped_constructions(step(s, calls[0]), calls.drop_first(), i);
        match calls[0] {
            Call::Scoped { scope, at } => if scope == i && admits(s, scope, at)
                && s.scoped[i as int] is None {
                rest + 1
            } else {
                rest
            },
            _ => rest,
        }
    }
}

/// The values that the singleton accessor returns over `calls`.
pub open spec fn singleton_returns(s: Slots, calls: Seq<Call>) -> Seq<Printer>
    decreases calls.len(),
{
    if calls.len() == 0 {
        seq![]
    } else {
        let rest = singleton_returns(step(s, calls[0]), calls.drop_first());
        match calls[0] {
            Call::Singleton { file } => seq![singleton_value(s.singleton, file)] + rest,
            _ => rest,
        }
    }
}

/// How many singleton values are constructed over `calls`.
pub open spec fn singleton_constructions(s: Slots, calls: Seq<Call>) -> nat
    decreases calls.len(),
{
    if calls.len() == 0 {
        0
    } else {
        let rest = singleton_constructions(step(s, calls[0]), calls.drop_first());
        if calls[0] is Singleton && s.singleton is None {
            rest + 1
        } else {
            rest
        }
    }
}

proof fn lemma_scoped_kept(s: Slots, calls: Seq<Call>, i: nat, f: RealFetcher)
    requires
        i < s.scoped.len(),
        s.scoped[i as int] == Some(f),
    ensures
        forall|k: int| 0 <= k < scoped_returns(s, calls, i).len() ==> scoped_returns(s, calls, i)[k] == f,
        scoped_constructions(s, calls, i) == 0,
        i < run(s, calls).scoped.len(),
        run(s, calls).scoped[i as int] == Some(f),
    decreases calls.len(),
{
    if calls.len() > 0 {
        let t = step(s, calls[0]);
        let rest = calls.drop_first();
        assert(i < t.scoped.len() && t.scoped[i as int] == Some(f));
        lemma_scoped_kept(t, rest, i, f);
        let r = scoped_returns(s, calls, i);
        assert forall|k: int| 0 <= k < r.len() implies r[k] == f by {
            if r.len() > scoped_returns(t, rest, i).len() && k > 0 {
                assert(r[k] == scoped_returns(t, rest, i)[k - 1]);
            }
        }
    }
}

/// Every call of the scoped accessor on one scope, through the handle or any
/// clone of it and whatever else happens in between, returns the same value,
/// and at most one value is constructed for that scope; none where it
/// already holds one.
pub proof fn law_scoped_memoized(s: Slots, calls: Seq<Call>, i: nat)
    requires
        i < s.scoped.len(),
    ensures
        forall|a: int, b: int|
            0 <= a < scoped_returns(s, calls, i).len() && 0 <= b < scoped_returns(s, calls, i).len()
                ==> scoped_returns(s, calls, i)[a] == scoped_returns(s, calls, i)[b],
        scoped_constructions(s, calls, i) <= 1,
        s.scoped[i as int] is Some ==> scoped_constructions(s, calls, i) == 0,
    decreases calls.len(),
{
    if s.scoped[i as int] is Some {
        lemma_scoped_kept(s, calls, i, s.scoped[i as int]->0);
    } else if calls.len() > 0 {
        let t = step(s, calls[0]);
        let rest = calls.drop_first();
        assert(i < t.scoped.len());
        match calls[0] {
            Call::Scoped { scope, at } => {
                if scope == i && admits(s, scope, at) {
                    lemma_scoped_kept(t, rest, i, made_at(at));
                    let r = scoped_returns(s, calls, i);
                    assert(r == seq![made_at(at)] + scoped_returns(t, rest, i));
                    assert forall|k: int| 0 <= k < r.len() implies r[k] == made_at(at) by {
                        if k > 0 {
                            assert(r[k] == scoped_returns(t, rest, i)[k - 1]);
                        }
                    }
                } else {
                    law_scoped_memoized(t, rest, i);
                }
            },
            _ => {
                law_scoped_memoized(t, rest, i);
            },
        }
    }
}

proof fn lemma_singleton_kept(s: Slots, calls: Seq<Call>, p: Printer)
    requires
        s.singleton == Some(p),
    ensures
        forall|k: int| 0 <= k < singleton_returns(s, calls).len() ==> singleton_returns(s, calls)[k] == p,
        singleton_constructions(s, calls) == 0,
        run(s, calls).singleton == Some(p),
    decreases calls.len(),
{
    if calls.len() > 0 {
        lemma_singleton_kept(step(s, calls[0]), calls.drop_first(), p);
    }
}

/// Every call of the singleton accessor, through the original container or
/// any clone or new scope derived from it, returns the same value, and at
/// most one value is constructed for the whole lineage; none where it
/// already holds one.
pub proof fn law_singleton_once(s: Slots, calls: Seq<Call>)
    ensures
        forall|a: int, b: int|
            0 <= a < singleton_returns(s, calls).len() && 0 <= b < singleton_returns(s, calls).len()
                ==> singleton_returns(s, calls)[a] == singleton_returns(s, calls)[b],
        singleton_constructions(s, calls) <= 1,
        s.singleton is Some ==> singleton_constructions(s, calls) == 0,
    decreases calls.len(),
{
    if s.singleton is Some {
        lemma_singleton_kept(s, calls, s.singleton->0);
    } else if calls.len() > 0 {
        let t = step(s, calls[0]);
        let rest = calls.drop_first();
        match calls[0] {
            Call::Singleton { file } => {
                let p = singleton_value(s.singleton, file);
                lemma_singleton_kept(t, rest, p);
                let r = singleton_returns(s, calls);
                assert(r == seq![p] + singleton_returns(t, rest));
                assert forall|k: int| 0 <= k < r.len() implies r[k] == p by {
                    if k > 0 {
                        assert(r[k] == singleton_returns(t, rest)[k - 1]);
                    }
                }
            },
            _ => {
                law_singleton_once(t, rest);
            },
        }
    }
}

/// A new scope gets an empty scoped slot of its own, at an index that no
/// earlier scope has: its first scoped access constructs a value, which
/// leaves every earlier scope's slot and the singleton slot as they were.
pub proof fn law_new_scope_fresh(s: Slots, at: Timestamp)
    ensures
        ({
            let n = s.scoped.len();
            let t = step(s, Call::NewScope);
            let u = step(t, Call::Scoped { scope: n, at });
            &&& t.singleton == s.singleton
            &&& t.scoped[n as int] is None
            &&& scoped_constructions(t, seq![Call::Scoped { scope: n, at }], n) == 1
            &&& scoped_returns(t, seq![Call::Scoped { scope: n, at }], n) == seq![made_at(at)]
            &&& u.singleton == s.singleton
            &&& forall|j: int| 0 <= j < n ==> u.scoped[j] == s.scoped[j]
        }),
{
    let n = s.scoped.len();
    let t = step(s, Call::NewScope);
    let calls = seq![Call::Scoped { scope: n, at }];
    let u = step(t, calls[0]);
    assert(t.scoped[n as int] is None);
    assert(calls.drop_first() =~= Seq::<Call>::empty());
    assert(scoped_returns(u, Seq::<Call>::empty(), n) == Seq::<RealFetcher>::empty());
    assert(scoped_constructions(u, Seq::<Call>::empty(), n) == 0);
    assert(scoped_returns(t, calls, n) =~= seq![made_at(at)]);
}

} // verus!
