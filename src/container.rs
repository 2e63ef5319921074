use crate::lifetime::{step, Call, Slots};
use crate::fetch::{made_at, now, RealFetcher, Timestamp};
use crate::print::{file_target, printer_for, Printer};
use crate::worker::Worker;
use vstd::prelude::*;

verus! {

/// How many slots of `s` hold a value.
pub open spec fn filled(s: Seq<Option<RealFetcher>>) -> nat
    decreases s.len(),
{
    if s.len() == 0 {
        0
    } else {
        filled(s.drop_last()) + if s.last() is Some {
            1nat
        } else {
            0nat
        }
    }
}

proof fn lemma_filled_bound(s: Seq<Option<RealFetcher>>)
    ensures
        filled(s) <= s.len(),
    decreases s.len(),
{
    if s.len() > 0 {
        lemma_filled_bound(s.drop_last());
    }
}

proof fn lemma_filled_push_empty(s: Seq<Option<RealFetcher>>)
    ensures
        filled(s.push(None)) == filled(s),
{
    assert(s.push(None).drop_last() =~= s);
}

proof fn lemma_filled_fill(s: Seq<Option<RealFetcher>>, i: int, f: RealFetcher)
    requires
        0 <= i < s.len(),
        s[i] is None,
    ensures
        filled(s.update(i, Some(f))) == filled(s) + 1,
    decreases s.len(),
{
    let t = s.update(i, Some(f));
    if i == s.len() - 1 {
        assert(t.drop_last() =~= s.drop_last());
    } else {
        assert(t.drop_last() =~= s.drop_last().update(i, Some(f)));
        lemma_filled_fill(s.drop_last(), i, f);
    }
}

/// The accessors of a container: a transient value, a scoped one, a
/// singleton, a worker over the last two, and a new scope. Stand-ins for
/// tests implement it too.
pub trait DependencyContainer: Sized {
    type Fetcher;
    type Printer;

    /// This container can be used with `lineage`; any stand-in can.
    open spec fn belongs(&self, lineage: &Lineage) -> bool {
        true
    }

    fn date_time(&self) -> Option<Timestamp>;

    fn printer(&self, lineage: &mut Lineage) -> Self::Printer
        requires
            self.belongs(old(lineage)),
    ;

    fn fetcher(&self, lineage: &mut Lineage) -> Option<Self::Fetcher>
        requires
            self.belongs(old(lineage)),
    ;

    fn worker(&self, lineage: &mut Lineage) -> Option<Worker<Self::Fetcher, Self::Printer>>
        requires
            self.belongs(old(lineage)),
    ;

    fn new_scope(&self, lineage: &mut Lineage) -> Self
        requires
            self.belongs(old(lineage)),
            old(lineage).scoped_slots().len() < usize::MAX,
    ;
}

/// The storage that a container shares with every duplicate derived from it:
/// the configuration, one singleton slot for the whole lineage, and one
/// scoped slot per scope.
pub struct Lineage {
    file: Option<String>,
    singleton: Option<Printer>,
    scoped: Vec<Option<RealFetcher>>,
    singleton_builds: usize,
    scoped_builds: usize,
}

impl Lineage {
    /// The configured output file, if any.
    pub closed spec fn file(&self) -> Option<String> {
        self.file
    }

    pub closed spec fn singleton_slot(&self) -> Option<Printer> {
        self.singleton
    }

    pub closed spec fn scoped_slots(&self) -> Seq<Option<RealFetcher>> {
        self.scoped@
    }

    /// What the slots hold.
    pub open spec fn slots(&self) -> Slots {
        Slots { singleton: self.singleton_slot(), scoped: self.scoped_slots() }
    }

    /// How many singleton values were constructed.
    pub closed spec fn singleton_count(&self) -> nat {
        self.singleton_builds as nat
    }

    /// How many scoped values were constructed, over all scopes.
    pub closed spec fn scoped_count(&self) -> nat {
        self.scoped_builds as nat
    }

    /// Each construction filled an empty slot, and slots are never emptied.
    pub open spec fn wf(&self) -> bool {
        &&& self.singleton_count() == if self.singleton_slot() is Some {
            1nat
        } else {
            0nat
        }
        &&& self.scoped_count() == filled(self.scoped_slots())
    }

    /// How many singleton values were constructed.
    pub fn singleton_builds(&self) -> (r: usize)
        ensures
            r == self.singleton_count(),
    {
        self.singleton_builds
    }

    /// How many scoped values were constructed, over all scopes.
    pub fn scoped_builds(&self) -> (r: usize)
        ensures
            r == self.scoped_count(),
    {
        self.scoped_builds
    }
}

/// A handle on a lineage: its configuration and the scope it belongs to.
pub struct DependencyContainerImpl {
    file: Option<String>,
    scope: usize,
}

impl DependencyContainerImpl {
    /// The configured output file, if any.
    pub closed spec fn file(&self) -> Option<String> {
        self.file
    }

    /// The index of this handle's scoped slot in its lineage.
    pub closed spec fn scope(&self) -> nat {
        self.scope as nat
    }

    /// This handle belongs to `l`: same configuration, and a scope of it.
    pub open spec fn fits(&self, l: &Lineage) -> bool {
        &&& l.wf()
        &&& self.scope() < l.scoped_slots().len()
        &&& self.file() == l.file()
    }

    /// A container on the root scope of a fresh lineage, and that lineage:
    /// configured with `file`, with one empty scoped slot and nothing
    /// constructed.
    pub fn new(file: Option<String>) -> (r: (Self, Lineage))
        ensures
            r.0.file() == file,
            r.0.scope() == 0,
            r.0.fits(&r.1),
            r.1.singleton_slot() is None,
            r.1.scoped_slots() == seq![None::<RealFetcher>],
            r.1.singleton_count() == 0,
            r.1.scoped_count() == 0,
    {
        let mut scoped: Vec<Option<RealFetcher>> = Vec::new();
        scoped.push(None);
        let lineage = Lineage {
            file: file.clone(),
            singleton: None,
            scoped,
            singleton_builds: 0,
            scoped_builds: 0,
        };
        proof {
            assert(lineage.scoped@.drop_last() =~= Seq::<Option<RealFetcher>>::empty());
            assert(filled(lineage.scoped@) == filled(Seq::<Option<RealFetcher>>::empty()));
        }
        (DependencyContainerImpl { file, scope: 0 }, lineage)
    }

    /// A fresh value on every call: the current time, where nanoseconds
    /// since the epoch can write it. No slot is read or written.
    pub fn date_time(&self) -> (r: Option<Timestamp>) {
        now()
    }

    /// The scoped value of this handle's scope: the stored one if there is
    /// one, else one made at `at`, which is then stored.
    pub fn fetcher_at(&self, lineage: &mut Lineage, at: Timestamp) -> (r: RealFetcher)
        requires
            self.fits(old(lineage)),
        ensures
            self.fits(final(lineage)),
            final(lineage).file() == old(lineage).file(),
            final(lineage).slots() == step(
                old(lineage).slots(),
                Call::Scoped { scope: self.scope(), at },
            ),
            r == scoped_value(old(lineage).scoped_slots()[self.scope() as int], at),
            old(lineage).scoped_slots()[self.scope() as int] is Some ==> *final(lineage) == *old(
                lineage,
            ),
            final(lineage).scoped_slots() == old(lineage).scoped_slots().update(
                self.scope() as int,
                Some(r),
            ),
            final(lineage).singleton_slot() == old(lineage).singleton_slot(),
            final(lineage).singleton_count() == old(lineage).singleton_count(),
            final(lineage).scoped_count() == old(lineage).scoped_count() + if old(
                lineage,
            ).scoped_slots()[self.scope() as int] is Some {
                0nat
            } else {
                1nat
            },
    {
        let i = self.scope;
        match lineage.scoped[i] {
            Some(f) => {
                proof {
                    assert(old(lineage).scoped@.update(i as int, Some(f)) =~= old(lineage).scoped@);
                }
                f
            },
            None => {
                let f = RealFetcher::new(at);
                let n = lineage.scoped.len();
                proof {
                    assert(n as int == lineage.scoped@.len());
                    lemma_filled_fill(lineage.scoped@, i as int, f);
                    lemma_filled_bound(lineage.scoped@.update(i as int, Some(f)));
                }
                lineage.scoped.set(i, Some(f));
                lineage.scoped_builds = lineage.scoped_builds + 1;
                f
            },
        }
    }

    /// The scoped value of this handle's scope, where `now` is what the
    /// clock gave: the stored value if there is one, else one made at `now`
    /// and stored. `None`, with nothing changed, only where the slot is
    /// empty and the clock gave nothing.
    pub fn fetcher_from(&self, lineage: &mut Lineage, now: Option<Timestamp>) -> (r: Option<
        RealFetcher,
    >)
        requires
            self.fits(old(lineage)),
        ensures
            self.fits(final(lineage)),
            final(lineage).file() == old(lineage).file(),
            r is Some <==> (old(lineage).scoped_slots()[self.scope() as int] is Some || now is Some),
            r is None ==> *final(lineage) == *old(lineage),
            old(lineage).scoped_slots()[self.scope() as int] is Some ==> r == old(
                lineage,
            ).scoped_slots()[self.scope() as int] && *final(lineage) == *old(lineage),
            old(lineage).scoped_slots()[self.scope() as int] is None && r is Some ==> {
                &&& r == Some(made_at(now->0))
                &&& final(lineage).slots() == step(
                    old(lineage).slots(),
                    Call::Scoped { scope: self.scope(), at: now->0 },
                )
                &&& final(lineage).scoped_count() == old(lineage).scoped_count() + 1
                &&& final(lineage).singleton_count() == old(lineage).singleton_count()
            },
    {
        match lineage.scoped[self.scope] {
            Some(f) => Some(f),
            None => match now {
                Some(at) => Some(self.fetcher_at(lineage, at)),
                None => None,
            },
        }
    }

    /// The scoped value of this handle's scope. Where the slot is empty, the
    /// clock is read, and a value made from what it gave is stored; `None`,
    /// with nothing changed, where it gave nothing.
    pub fn fetcher(&self, lineage: &mut Lineage) -> (r: Option<RealFetcher>)
        requires
            self.fits(old(lineage)),
        ensures
            self.fits(final(lineage)),
            final(lineage).file() == old(lineage).file(),
            old(lineage).scoped_slots()[self.scope() as int] is Some ==> r == old(
                lineage,
            ).scoped_slots()[self.scope() as int] && *final(lineage) == *old(lineage),
            r is None ==> *final(lineage) == *old(lineage),
            r is Some ==> (exists|at: Timestamp|
                r == Some(scoped_value(old(lineage).scoped_slots()[self.scope() as int], at))
                    && final(lineage).slots() == step(
                    old(lineage).slots(),
                    Call::Scoped { scope: self.scope(), at },
                )),
            r is Some && old(lineage).scoped_slots()[self.scope() as int] is None ==> {
                &&& final(lineage).scoped_count() == old(lineage).scoped_count() + 1
                &&& final(lineage).singleton_count() == old(lineage).singleton_count()
            },
    {
        match lineage.scoped[self.scope] {
            Some(f) => {
                proof {
                    let s = old(lineage).slots();
                    let at = Timestamp { nanos: 0 };
                    assert(s.scoped.update(self.scope() as int, Some(f)) =~= s.scoped);
                    assert(step(s, Call::Scoped { scope: self.scope(), at }) == s);
                }
                Some(f)
            },
            None => self.fetcher_from(lineage, self.date_time()),
        }
    }

    /// The singleton value of the lineage: the stored one if there is one,
    /// else one chosen from the configuration, which is then stored.
    pub fn printer(&self, lineage: &mut Lineage) -> (r: Printer)
        requires
            self.fits(old(lineage)),
        ensures
            self.fits(final(lineage)),
            final(lineage).file() == old(lineage).file(),
            final(lineage).slots() == step(
                old(lineage).slots(),
                Call::Singleton { file: self.file() },
            ),
            r == singleton_value(old(lineage).singleton_slot(), self.file()),
            old(lineage).singleton_slot() is None ==> r.target() == file_target(self.file()),
            final(lineage).singleton_slot() == Some(r),
            final(lineage).scoped_slots() == old(lineage).scoped_slots(),
            final(lineage).scoped_count() == old(lineage).scoped_count(),
            final(lineage).singleton_count() == old(lineage).singleton_count() + if old(
                lineage,
            ).singleton_slot() is Some {
                0nat
            } else {
                1nat
            },
            old(lineage).singleton_slot() is Some ==> *final(lineage) == *old(lineage),
    {
        match &lineage.singleton {
            Some(p) => p.clone(),
            None => {
                let p = Printer::for_target(&self.file);
                lineage.singleton = Some(p.clone());
                lineage.singleton_builds = 1;
                p
            },
        }
    }

    /// A fresh worker over this scope's scoped value, made at `at` where the
    /// slot is empty, and the lineage's singleton value.
    pub fn worker_at(&self, lineage: &mut Lineage, at: Timestamp) -> (r: Worker<RealFetcher, Printer>)
        requires
            self.fits(old(lineage)),
        ensures
            self.fits(final(lineage)),
            r.fetcher_spec() == scoped_value(old(lineage).scoped_slots()[self.scope() as int], at),
            final(lineage).scoped_slots() == old(lineage).scoped_slots().update(
                self.scope() as int,
                Some(r.fetcher_spec()),
            ),
            r.printer_spec() == singleton_value(old(lineage).singleton_slot(), self.file()),
            final(lineage).singleton_slot() == Some(r.printer_spec()),
            old(lineage).scoped_slots()[self.scope() as int] is Some && old(lineage).singleton_slot() is Some
                ==> *final(lineage) == *old(lineage),
    {
        let fetcher = self.fetcher_at(lineage, at);
        let printer = self.printer(lineage);
        proof {
            if old(lineage).scoped_slots()[self.scope() as int] is Some {
                assert(old(lineage).scoped@.update(self.scope as int, Some(fetcher)) =~= old(lineage).scoped@);
            }
        }
        Worker::new(fetcher, printer)
    }

    /// A fresh worker over this scope's scoped value and the lineage's
    /// singleton value. `None`, with nothing changed, only where the scoped
    /// slot is empty and the clock gave nothing to make its value from.
    pub fn worker(&self, lineage: &mut Lineage) -> (r: Option<Worker<RealFetcher, Printer>>)
        requires
            self.fits(old(lineage)),
        ensures
            self.fits(final(lineage)),
            old(lineage).scoped_slots()[self.scope() as int] is Some ==> r is Some,
            r is None ==> *final(lineage) == *old(lineage),
            old(lineage).scoped_slots()[self.scope() as int] is Some && old(lineage).singleton_slot() is Some
                ==> *final(lineage) == *old(lineage),
            r is Some ==> {
                &&& final(lineage).scoped_slots() == old(lineage).scoped_slots().update(
                    self.scope() as int,
                    Some(r->0.fetcher_spec()),
                )
                &&& old(lineage).scoped_slots()[self.scope() as int] is Some ==> r->0.fetcher_spec()
                    == old(lineage).scoped_slots()[self.scope() as int]->0
                &&& r->0.printer_spec() == singleton_value(
                    old(lineage).singleton_slot(),
                    self.file(),
                )
                &&& final(lineage).singleton_slot() == Some(r->0.printer_spec())
            },
    {
        match self.fetcher(lineage) {
            Some(fetcher) => {
                let printer = self.printer(lineage);
                proof {
                    if old(lineage).scoped_slots()[self.scope() as int] is Some {
                        assert(old(lineage).scoped@.update(self.scope as int, Some(fetcher)) =~= old(lineage).scoped@);
                    }
                }
                Some(Worker::new(fetcher, printer))
            },
            None => None,
        }
    }

    /// A container for a new scope: the same configuration and singleton
    /// slot, and a new, empty scoped slot.
    pub fn new_scope(&self, lineage: &mut Lineage) -> (r: Self)
        requires
            self.fits(old(lineage)),
            old(lineage).scoped_slots().len() < usize::MAX,
        ensures
            self.fits(final(lineage)),
            r.fits(final(lineage)),
            final(lineage).file() == old(lineage).file(),
            final(lineage).slots() == step(old(lineage).slots(), Call::NewScope),
            r.file() == self.file(),
            r.scope() == old(lineage).scoped_slots().len(),
            final(lineage).scoped_slots() == old(lineage).scoped_slots().push(None),
            final(lineage).singleton_slot() == old(lineage).singleton_slot(),
            final(lineage).singleton_count() == old(lineage).singleton_count(),
            final(lineage).scoped_count() == old(lineage).scoped_count(),
    {
        let scope = lineage.scoped.len();
        proof {
            lemma_filled_push_empty(lineage.scoped@);
        }
        lineage.scoped.push(None);
        DependencyContainerImpl { file: self.file.clone(), scope }
    }
}

impl DependencyContainer for DependencyContainerImpl {
    type Fetcher = RealFetcher;
    type Printer = Printer;

    open spec fn belongs(&self, lineage: &Lineage) -> bool {
        self.fits(lineage)
    }

    fn date_time(&self) -> Option<Timestamp> {
        DependencyContainerImpl::date_time(self)
    }

    fn printer(&self, lineage: &mut Lineage) -> Printer {
        DependencyContainerImpl::printer(self, lineage)
    }

    fn fetcher(&self, lineage: &mut Lineage) -> Option<RealFetcher> {
        DependencyContainerImpl::fetcher(self, lineage)
    }

    fn worker(&self, lineage: &mut Lineage) -> Option<Worker<RealFetcher, Printer>> {
        DependencyContainerImpl::worker(self, lineage)
    }

    fn new_scope(&self, lineage: &mut Lineage) -> Self {
        DependencyContainerImpl::new_scope(self, lineage)
    }
}

impl Clone for DependencyContainerImpl {
    /// A duplicate on the same scope: it shares both slots.
    fn clone(&self) -> (r: Self)
        ensures
            r == *self,
    {
        DependencyContainerImpl { file: self.file.clone(), scope: self.scope }
    }
}

/// What the singleton accessor returns for a slot holding `slot`, through a
/// handle configured with `file`.
pub open spec fn singleton_value(slot: Option<Printer>, file: Option<String>) -> Printer {
    match slot {
        Some(p) => p,
        None => printer_for(file),
    }
}

/// What the scoped accessor returns for a slot holding `slot`, at instant
/// `at`.
pub open spec fn scoped_value(slot: Option<RealFetcher>, at: Timestamp) -> RealFetcher {
    match slot {
        Some(f) => f,
        None => made_at(at),
    }
}

} // verus!
