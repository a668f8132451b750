//! The fetch state machine: a `Retrieve` value owns the target directory
//! path, the ordered URI list, and the accumulated per-URI failures. A
//! driver (outside this crate) asks for the next pending URI, performs the
//! fetch, and reports the outcome back; the bookkeeping here is verified.
//!
//! An outcome is an `Option<String>`: `None` for a fetch that succeeded,
//! `Some(reason)` for one that failed. A failed fetch is recorded and never
//! aborts the run; only a target path that exists and is not a directory
//! refuses the whole operation, before any fetch is attempted.

use vstd::prelude::*;

verus! {

/// One recorded failure: the URI that failed and the reason given by the
/// transport.
#[derive(Debug, Clone)]
pub struct FetchError {
    pub uri: String,
    pub reason: String,
}

impl View for FetchError {
    type V = (Seq<char>, Seq<char>);

    open spec fn view(&self) -> (Seq<char>, Seq<char>) {
        (self.uri@, self.reason@)
    }
}

impl DeepView for FetchError {
    type V = (Seq<char>, Seq<char>);

    open spec fn deep_view(&self) -> (Seq<char>, Seq<char>) {
        self.view()
    }
}

/// The fatal refusal: the target path exists but is not a directory.
#[derive(Debug, Clone)]
pub struct TargetError {
    pub path: String,
}

impl TargetError {
    /// The refusal, worded as the driver reports it.
    pub fn message(&self) -> (r: String)
        ensures
            r@ == "target directory for benchmarks is not a directory: "@ + self.path@,
    {
        let mut r = String::new();
        r.append("target directory for benchmarks is not a directory: ");
        r.append(self.path.as_str());
        r
    }
}

/// How many of the outcomes are failures.
pub open spec fn failure_count(outcomes: Seq<Option<Seq<char>>>) -> nat
    decreases outcomes.len(),
{
    if outcomes.len() == 0 {
        0
    } else {
        failure_count(outcomes.drop_last()) + (if outcomes.last() is Some {
            1nat
        } else {
            0nat
        })
    }
}

/// The error list a run leaves behind: one `(uri, reason)` pair per failed
/// outcome, in the order of the URI list.
pub open spec fn collected_errors(
    uris: Seq<Seq<char>>,
    outcomes: Seq<Option<Seq<char>>>,
) -> Seq<(Seq<char>, Seq<char>)>
    decreases uris.len(),
{
    if uris.len() == 0 {
        Seq::empty()
    } else {
        let k = uris.len() - 1;
        let prefix = collected_errors(uris.drop_last(), outcomes.drop_last());
        if outcomes[k] is Some {
            prefix + seq![(uris[k], outcomes[k]->Some_0)]
        } else {
            prefix
        }
    }
}

/// An empty URI list collects no errors, whatever the outcomes: the run
/// succeeds trivially.
pub proof fn lemma_empty_list_trivially_succeeds(
    uris: Seq<Seq<char>>,
    outcomes: Seq<Option<Seq<char>>>,
)
    requires
        uris.len() == 0,
        outcomes.len() == 0,
    ensures
        collected_errors(uris, outcomes) == Seq::<(Seq<char>, Seq<char>)>::empty(),
        failure_count(outcomes) == 0,
{
}

/// Whether `e` is the record of some failed URI: a pair of a URI of the
/// list and the reason its outcome gave.
pub open spec fn is_failure_of(
    uris: Seq<Seq<char>>,
    outcomes: Seq<Option<Seq<char>>>,
    e: (Seq<char>, Seq<char>),
) -> bool {
    exists|i: int|
        0 <= i < uris.len() && #[trigger] outcomes[i] is Some && e == (
            uris[i],
            outcomes[i]->Some_0,
        )
}

/// A run over `N` URIs of which `M` fail leaves exactly `M` errors: the
/// error list is as long as the failure count, every entry is the pair of a
/// failed URI and its reason, and every failure contributes its entry.
pub proof fn lemma_failure_tally(uris: Seq<Seq<char>>, outcomes: Seq<Option<Seq<char>>>)
    requires
        uris.len() == outcomes.len(),
    ensures
        collected_errors(uris, outcomes).len() == failure_count(outcomes),
        forall|k: int|
            0 <= k < collected_errors(uris, outcomes).len() ==> is_failure_of(
                uris,
                outcomes,
                #[trigger] collected_errors(uris, outcomes)[k],
            ),
        forall|i: int|
            0 <= i < uris.len() && #[trigger] outcomes[i] is Some ==> collected_errors(
                uris,
                outcomes,
            ).contains((uris[i], outcomes[i]->Some_0)),
    decreases uris.len(),
{
    if uris.len() > 0 {
        let u = uris.drop_last();
        let o = outcomes.drop_last();
        let k = uris.len() - 1;
        lemma_failure_tally(u, o);
        let whole = collected_errors(uris, outcomes);
        let prefix = collected_errors(u, o);
        assert forall|j: int| 0 <= j < whole.len() implies is_failure_of(
            uris,
            outcomes,
            #[trigger] whole[j],
        ) by {
            if j < prefix.len() {
                assert(is_failure_of(u, o, prefix[j]));
                let i = choose|i: int|
                    0 <= i < u.len() && #[trigger] o[i] is Some && prefix[j] == (
                        u[i],
                        o[i]->Some_0,
                    );
                assert(whole[j] == prefix[j]);
                assert(outcomes[i] is Some && whole[j] == (uris[i], outcomes[i]->Some_0));
            } else {
                assert(outcomes[k] is Some && whole[j] == (uris[k], outcomes[k]->Some_0));
            }
        }
        assert forall|i: int|
            0 <= i < uris.len() && #[trigger] outcomes[i] is Some implies whole.contains(
            (uris[i], outcomes[i]->Some_0),
        ) by {
            if i < k {
                assert(o[i] is Some && prefix.contains((u[i], o[i]->Some_0)));
                let j = choose|j: int|
                    0 <= j < prefix.len() && #[trigger] prefix[j] == (u[i], o[i]->Some_0);
                assert(whole[j] == (uris[i], outcomes[i]->Some_0));
            } else {
                assert(outcomes[k] is Some);
                assert(whole[whole.len() - 1] == (uris[i], outcomes[i]->Some_0));
            }
        }
    }
}

/// The error list is exactly the failing pairs, in list order: pair each
/// URI with its outcome, keep the failures, and record each with its
/// reason.
pub proof fn lemma_errors_in_list_order(uris: Seq<Seq<char>>, outcomes: Seq<Option<Seq<char>>>)
    requires
        uris.len() == outcomes.len(),
    ensures
        collected_errors(uris, outcomes) == Seq::new(
            uris.len(),
            |i: int| (uris[i], outcomes[i]),
        ).filter(|p: (Seq<char>, Option<Seq<char>>)| p.1 is Some).map_values(
            |p: (Seq<char>, Option<Seq<char>>)| (p.0, p.1->Some_0),
        ),
    decreases uris.len(),
{
    reveal(Seq::filter);
    let pred = |p: (Seq<char>, Option<Seq<char>>)| p.1 is Some;
    let f = |p: (Seq<char>, Option<Seq<char>>)| (p.0, p.1->Some_0);
    let z = Seq::new(uris.len(), |i: int| (uris[i], outcomes[i]));
    if uris.len() == 0 {
        assert(collected_errors(uris, outcomes) =~= z.filter(pred).map_values(f));
    } else {
        let u = uris.drop_last();
        let o = outcomes.drop_last();
        let k = uris.len() - 1;
        lemma_errors_in_list_order(u, o);
        let zz = Seq::new(u.len(), |i: int| (u[i], o[i]));
        assert(z.drop_last() =~= zz);
        if outcomes[k] is Some {
            assert(pred(z.last()));
            assert(z.filter(pred).map_values(f) =~= zz.filter(pred).map_values(f).push(
                f(z.last()),
            ));
            assert(collected_errors(uris, outcomes) =~= collected_errors(u, o).push(
                (uris[k], outcomes[k]->Some_0),
            ));
        } else {
            assert(!pred(z.last()));
            assert(z.filter(pred) == zz.filter(pred));
        }
    }
}

/// The retriever: target directory, the URI list, how far the run has got,
/// and the failures recorded so far.
#[derive(Debug)]
pub struct Retrieve {
    tgt: String,
    uris: Vec<String>,
    next: usize,
    errs: Vec<FetchError>,
}

impl Retrieve {
    /// The target directory path this retriever writes under.
    pub closed spec fn target(&self) -> Seq<char> {
        self.tgt@
    }

    /// The URI list, in order.
    pub closed spec fn uri_views(&self) -> Seq<Seq<char>> {
        self.uris.deep_view()
    }

    /// How many URIs have had their outcome recorded.
    pub closed spec fn position(&self) -> int {
        self.next as int
    }

    /// The failures recorded so far, in order.
    pub closed spec fn err_views(&self) -> Seq<(Seq<char>, Seq<char>)> {
        self.errs.deep_view()
    }

    /// The retriever never runs past its URI list and never records more
    /// failures than outcomes.
    pub closed spec fn wf(&self) -> bool {
        &&& self.next <= self.uris@.len()
        &&& self.errs@.len() <= self.next
    }

    /// Accepts the target path and builds a fresh retriever, or refuses:
    /// a path that exists and is not a directory is the one fatal error,
    /// raised before any fetch. A missing path, or an existing directory
    /// (populated or not), is accepted.
    pub fn new(tgt: String, tgt_exists: bool, tgt_is_dir: bool, uris: Vec<String>) -> (r: Result<
        Retrieve,
        TargetError,
    >)
        ensures
            r is Err <==> tgt_exists && !tgt_is_dir,
            r is Err ==> (r->Err_0).path@ == tgt@,
            r is Ok ==> {
                let f = r->Ok_0;
                &&& f.wf()
                &&& f.target() == tgt@
                &&& f.uri_views() == uris.deep_view()
                &&& f.position() == 0
                &&& f.err_views() == Seq::<(Seq<char>, Seq<char>)>::empty()
            },
    {
        if tgt_exists && !tgt_is_dir {
            Err(TargetError { path: tgt })
        } else {
            let f = Retrieve { tgt, uris, next: 0, errs: Vec::new() };
            proof {
                assert(f.err_views() =~= Seq::<(Seq<char>, Seq<char>)>::empty());
            }
            Ok(f)
        }
    }

    /// The target directory, for the driver to create and write under.
    pub fn target_dir(&self) -> (r: &String)
        ensures
            r@ == self.target(),
    {
        &self.tgt
    }

    /// The URI whose fetch is due next, or `None` when every URI has had
    /// its outcome recorded.
    pub fn pending(&self) -> (r: Option<&String>)
        requires
            self.wf(),
        ensures
            r is Some <==> self.position() < self.uri_views().len(),
            r is Some ==> (r->Some_0)@ == self.uri_views()[self.position()],
    {
        if self.next < self.uris.len() {
            Some(&self.uris[self.next])
        } else {
            None
        }
    }

    /// Records that the pending URI was fetched successfully: the run
    /// advances and no error is added.
    pub fn record_success(&mut self)
        requires
            old(self).wf(),
            old(self).position() < old(self).uri_views().len(),
        ensures
            final(self).wf(),
            final(self).target() == old(self).target(),
            final(self).uri_views() == old(self).uri_views(),
            final(self).position() == old(self).position() + 1,
            final(self).err_views() == old(self).err_views(),
    {
        let n = self.uris.len();
        assert(self.next < n);
        self.next += 1;
    }

    /// Records that the pending URI failed for the given reason: the run
    /// advances and the pair `(uri, reason)` is appended to the error list.
    pub fn record_failure(&mut self, reason: String)
        requires
            old(self).wf(),
            old(self).position() < old(self).uri_views().len(),
        ensures
            final(self).wf(),
            final(self).target() == old(self).target(),
            final(self).uri_views() == old(self).uri_views(),
            final(self).position() == old(self).position() + 1,
            final(self).err_views() == old(self).err_views() + seq![
                (old(self).uri_views()[old(self).position()], reason@),
            ],
    {
        let n = self.uris.len();
        assert(self.next < n);
        let uri = self.uris[self.next].clone();
        self.errs.push(FetchError { uri, reason });
        self.next += 1;
        proof {
            assert(self.err_views() =~= old(self).err_views() + seq![
                (old(self).uri_views()[old(self).position()], reason@),
            ]);
        }
    }

    /// Closes a finished run: `Ok` exactly when no fetch failed, else the
    /// full list of recorded failures, in order.
    pub fn finish(self) -> (r: Result<(), Vec<FetchError>>)
        requires
            self.wf(),
            self.position() == self.uri_views().len(),
        ensures
            r is Ok <==> self.err_views().len() == 0,
            r is Err ==> (r->Err_0).deep_view() == self.err_views(),
    {
        if self.errs.is_empty() {
            Ok(())
        } else {
            Err(self.errs)
        }
    }

    /// Runs the whole list against the given outcomes, one per URI in
    /// order, and closes the run: `Ok` exactly when every fetch succeeded,
    /// else the error list that `collected_errors` states, with one entry
    /// per failure.
    pub fn run(self, outcomes: Vec<Option<String>>) -> (r: Result<(), Vec<FetchError>>)
        requires
            self.wf(),
            self.position() == 0,
            self.err_views().len() == 0,
            outcomes.deep_view().len() == self.uri_views().len(),
        ensures
            r is Ok <==> failure_count(outcomes.deep_view()) == 0,
            r is Err ==> (r->Err_0).deep_view() == collected_errors(
                self.uri_views(),
                outcomes.deep_view(),
            ),
            r is Err ==> (r->Err_0).deep_view().len() == failure_count(outcomes.deep_view()),
    {
        let ghost u = self.uri_views();
        let ghost o = outcomes.deep_view();
        let mut fetcher = self;
        let mut i: usize = 0;
        proof {
            assert(collected_errors(u.take(0), o.take(0)) =~= Seq::<(
                Seq<char>,
                Seq<char>,
            )>::empty());
            assert(fetcher.err_views() =~= Seq::<(Seq<char>, Seq<char>)>::empty());
        }
        while i < outcomes.len()
            invariant
                fetcher.wf(),
                fetcher.uri_views() == u,
                fetcher.position() == i as int,
                outcomes.deep_view() == o,
                o.len() == u.len(),
                i <= outcomes@.len(),
                outcomes@.len() == o.len(),
                fetcher.err_views() == collected_errors(u.take(i as int), o.take(i as int)),
                fetcher.err_views().len() == failure_count(o.take(i as int)),
            decreases outcomes@.len() - i,
        {
            let ghost before = fetcher.err_views();
            match &outcomes[i] {
                Option::None => fetcher.record_success(),
                Option::Some(reason) => fetcher.record_failure(reason.clone()),
            }
            proof {
                let j = i as int;
                assert(u.take(j + 1).drop_last() =~= u.take(j));
                assert(o.take(j + 1).drop_last() =~= o.take(j));
                assert(o.take(j + 1)[j] == o[j]);
                if o[j] is Some {
                    assert(fetcher.err_views() == before + seq![(u[j], o[j]->Some_0)]);
                    assert(collected_errors(u.take(j + 1), o.take(j + 1)) == collected_errors(
                        u.take(j),
                        o.take(j),
                    ) + seq![(u.take(j + 1)[j], o.take(j + 1)[j]->Some_0)]);
                } else {
                    assert(collected_errors(u.take(j + 1), o.take(j + 1)) == collected_errors(
                        u.take(j),
                        o.take(j),
                    ));
                }
            }
            i += 1;
        }
        proof {
            assert(u.take(u.len() as int) =~= u);
            assert(o.take(o.len() as int) =~= o);
        }
        fetcher.finish()
    }
}

} // verus!
