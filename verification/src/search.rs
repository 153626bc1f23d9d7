//! A search walks an ordered list of probes and stops at the first one that
//! turns up evidence.
use crate::probe::{exists_probes, Answer, AnswerView, Probe, ProbeView, Question, QuestionView};
use vstd::prelude::*;

verus! {

/// A search in progress: the probes, how many of them have missed so far,
/// and what was found.
#[derive(Clone, Debug, PartialEq, Eq)]
pub struct Search {
    probes: Vec<Probe>,
    position: usize,
    hit: Option<String>,
}

pub struct SearchView {
    pub probes: Seq<ProbeView>,
    pub position: nat,
    pub hit: Option<Seq<char>>,
}

impl View for Search {
    type V = SearchView;

    closed spec fn view(&self) -> SearchView {
        SearchView {
            probes: self.probes.deep_view(),
            position: self.position as nat,
            hit: self.hit.deep_view(),
        }
    }
}

impl DeepView for Search {
    type V = SearchView;

    open spec fn deep_view(&self) -> SearchView {
        self.view()
    }
}

/// All that the library can ask of a machine, and what this one would say.
pub type World = spec_fn(QuestionView) -> AnswerView;

impl SearchView {
    /// A search that has asked nothing yet.
    pub open spec fn start(probes: Seq<ProbeView>) -> SearchView {
        SearchView { probes, position: 0, hit: None }
    }

    /// Whether the search is over: something was found, or every probe has
    /// missed.
    pub open spec fn finished(self) -> bool {
        self.hit is Some || self.position >= self.probes.len()
    }

    /// The question of the probe whose turn it is.
    pub open spec fn pending(self) -> Option<QuestionView> {
        if self.finished() {
            None
        } else {
            Some(self.probes[self.position as int].question())
        }
    }

    /// The search after the answer to its pending question. A hit ends it; a
    /// miss hands the turn to the next probe. A finished search stays as it
    /// is.
    pub open spec fn advance(self, answer: AnswerView) -> SearchView {
        if self.finished() {
            self
        } else {
            match self.probes[self.position as int].evidence(answer) {
                Some(found) => SearchView { hit: Some(found), ..self },
                None => SearchView { position: self.position + 1, ..self },
            }
        }
    }

    /// How many probes may still be asked.
    pub open spec fn remaining(self) -> nat {
        if self.finished() {
            0
        } else {
            (self.probes.len() - self.position) as nat
        }
    }

    /// The search driven to its end in `world`.
    pub open spec fn run(self, world: World) -> SearchView
        decreases self.remaining(),
    {
        if self.finished() {
            self
        } else {
            self.advance(world(self.pending()->0)).run(world)
        }
    }

}

/// What the first of `probes`, from the one at `from` on, that finds anything
/// in `world` finds there.
pub open spec fn first_evidence(probes: Seq<ProbeView>, world: World, from: nat) -> Option<Seq<char>>
    decreases probes.len() - from,
{
    if from >= probes.len() {
        None
    } else {
        match probes[from as int].evidence(world(probes[from as int].question())) {
            Some(found) => Some(found),
            None => first_evidence(probes, world, from + 1),
        }
    }
}

/// Driving a search to its end finds what the first successful probe finds,
/// and nothing if no probe succeeds: the probes are tried in their declared
/// order, and the first hit wins.
pub proof fn lemma_run_finds_first(search: SearchView, world: World)
    ensures
        search.run(world).finished(),
        search.run(world).probes == search.probes,
        search.hit is Some ==> search.run(world) == search,
        search.hit is None ==> search.run(world).hit == first_evidence(
            search.probes,
            world,
            search.position,
        ),
    decreases search.remaining(),
{
    if !search.finished() {
        let next = search.advance(world(search.pending()->0));
        lemma_run_finds_first(next, world);
    }
}

/// A search in whose world every probe misses ends with nothing found. A
/// probe that cannot be carried out is such a miss.
pub proof fn lemma_all_miss_finds_nothing(search: SearchView, world: World)
    requires
        search.hit is None,
        forall|i: int|
            search.position <= i < search.probes.len() ==> (#[trigger] search.probes[i]).evidence(
                world(search.probes[i].question()),
            ) is None,
    ensures
        search.run(world).hit is None,
        first_evidence(search.probes, world, search.position) is None,
    decreases search.remaining(),
{
    lemma_run_finds_first(search, world);
    if !search.finished() {
        let probe = search.probes[search.position as int];
        assert(probe.evidence(world(probe.question())) is None);
        let next = search.advance(world(search.pending()->0));
        lemma_all_miss_finds_nothing(next, world);
        lemma_run_finds_first(next, world);
    }
}

/// Whether nothing can be carried out in `world`: every question fails.
pub open spec fn all_fails(world: World) -> bool {
    forall|question: QuestionView| (#[trigger] world(question)) is Failed
}

/// Whether every one of `probes` misses in `world`.
pub open spec fn all_miss(probes: Seq<ProbeView>, world: World) -> bool {
    forall|i: int|
        0 <= i < probes.len() ==> (#[trigger] probes[i]).evidence(world(probes[i].question()))
            is None
}

/// Whether `path` exists in `world`.
pub open spec fn exists_in(world: World, path: Seq<char>) -> bool {
    world(QuestionView::PathExists { path }) == AnswerView::Exists(true)
}

/// Whether `paths[at]` is the first of `paths` that exists in `world`.
pub open spec fn is_first_existing(paths: Seq<Seq<char>>, world: World, at: int) -> bool {
    &&& 0 <= at < paths.len()
    &&& exists_in(world, paths[at])
    &&& forall|j: int| 0 <= j < at ==> !exists_in(world, #[trigger] paths[j])
}

/// Whether none of `paths` exists in `world`.
pub open spec fn none_exists(paths: Seq<Seq<char>>, world: World) -> bool {
    forall|j: int| 0 <= j < paths.len() ==> !exists_in(world, #[trigger] paths[j])
}

/// A search finds nothing where nothing can be carried out: a failure to
/// look is a miss, never an error.
pub proof fn lemma_failures_find_nothing(probes: Seq<ProbeView>, world: World)
    requires
        all_fails(world),
    ensures
        SearchView::start(probes).run(world).finished(),
        SearchView::start(probes).run(world).hit is None,
{
    let search = SearchView::start(probes);
    assert forall|i: int| 0 <= i < probes.len() implies (#[trigger] probes[i]).evidence(
        world(probes[i].question()),
    ) is None by {
        assert(world(probes[i].question()) is Failed);
    }
    lemma_run_finds_first(search, world);
    lemma_all_miss_finds_nothing(search, world);
}

/// The probes of `exists_probes(paths)` from `from` on find the first of
/// those paths that exists.
proof fn lemma_exists_probes_find_first(
    probes: Seq<ProbeView>,
    offset: nat,
    paths: Seq<Seq<char>>,
    world: World,
    from: nat,
)
    requires
        probes.len() == offset + paths.len(),
        forall|i: int| 0 <= i < paths.len() ==> probes[offset + i] == exists_probes(paths)[i],
        from <= paths.len(),
        forall|j: int| 0 <= j < from ==> !exists_in(world, #[trigger] paths[j]),
    ensures
        match first_evidence(probes, world, offset + from) {
            Some(found) => exists|at: int|
                is_first_existing(paths, world, at) && #[trigger] paths[at] == found,
            None => none_exists(paths, world),
        },
    decreases paths.len() - from,
{
    if from < paths.len() {
        let probe = probes[(offset + from) as int];
        assert(probe == exists_probes(paths)[from as int]);
        if exists_in(world, paths[from as int]) {
            assert(is_first_existing(paths, world, from as int));
        } else {
            lemma_exists_probes_find_first(probes, offset, paths, world, from + 1);
        }
    }
}

/// Misses at the head of a list of probes are passed over.
proof fn lemma_skip_misses(probes: Seq<ProbeView>, world: World, from: nat, upto: nat)
    requires
        from <= upto <= probes.len(),
        forall|i: int|
            from <= i < upto ==> (#[trigger] probes[i]).evidence(world(probes[i].question()))
                is None,
    ensures
        first_evidence(probes, world, from) == first_evidence(probes, world, upto),
    decreases upto - from,
{
    if from < upto {
        lemma_skip_misses(probes, world, from + 1, upto);
    }
}

/// The order of the fallback: when the lookups on the search path miss, a
/// search over them and then over `paths` finds the first of `paths` that
/// exists, and finds nothing if none of them exists.
pub proof fn lemma_fallback_order(lookups: Seq<ProbeView>, paths: Seq<Seq<char>>, world: World)
    requires
        all_miss(lookups, world),
    ensures
        match SearchView::start(lookups + exists_probes(paths)).run(world).hit {
            Some(found) => exists|at: int|
                is_first_existing(paths, world, at) && #[trigger] paths[at] == found,
            None => none_exists(paths, world),
        },
{
    let probes = lookups + exists_probes(paths);
    lemma_run_finds_first(SearchView::start(probes), world);
    assert forall|i: int| 0 <= i < lookups.len() implies (#[trigger] probes[i]).evidence(
        world(probes[i].question()),
    ) is None by {
        assert(probes[i] == lookups[i]);
    }
    lemma_skip_misses(probes, world, 0, lookups.len());
    lemma_exists_probes_find_first(probes, lookups.len(), paths, world, 0);
}

/// Probes that follow others are asked as if they stood alone.
proof fn lemma_first_evidence_shift(
    head: Seq<ProbeView>,
    tail: Seq<ProbeView>,
    world: World,
    from: nat,
)
    requires
        from <= tail.len(),
    ensures
        first_evidence(head + tail, world, head.len() + from) == first_evidence(tail, world, from),
    decreases tail.len() - from,
{
    if from < tail.len() {
        assert((head + tail)[(head.len() + from) as int] == tail[from as int]);
        lemma_first_evidence_shift(head, tail, world, from + 1);
    }
}

/// Probes that come first are asked first, and those that follow only if
/// the first find nothing.
proof fn lemma_first_evidence_in_turn(
    head: Seq<ProbeView>,
    tail: Seq<ProbeView>,
    world: World,
    from: nat,
)
    requires
        from <= head.len(),
    ensures
        first_evidence(head + tail, world, from) == (match first_evidence(head, world, from) {
            Some(found) => Some(found),
            None => first_evidence(tail, world, 0),
        }),
    decreases head.len() - from,
{
    if from < head.len() {
        assert((head + tail)[from as int] == head[from as int]);
        lemma_first_evidence_in_turn(head, tail, world, from + 1);
    } else {
        lemma_first_evidence_shift(head, tail, world, 0);
    }
}

/// A search over two lists of probes, one after the other, finds what a
/// search over the first finds, and where that finds nothing, what a
/// search over the second finds.
pub proof fn lemma_search_in_turn(head: Seq<ProbeView>, tail: Seq<ProbeView>, world: World)
    ensures
        SearchView::start(head + tail).run(world).hit == (match SearchView::start(head).run(
            world,
        ).hit {
            Some(found) => Some(found),
            None => SearchView::start(tail).run(world).hit,
        }),
{
    lemma_run_finds_first(SearchView::start(head + tail), world);
    lemma_run_finds_first(SearchView::start(head), world);
    lemma_run_finds_first(SearchView::start(tail), world);
    lemma_first_evidence_in_turn(head, tail, world, 0);
}

/// What a search over the one probe `probe` finds.
pub proof fn lemma_search_one(probe: ProbeView, world: World)
    ensures
        SearchView::start(seq![probe]).run(world).hit == probe.evidence(world(probe.question())),
{
    let search = SearchView::start(seq![probe]);
    lemma_run_finds_first(search, world);
    reveal_with_fuel(first_evidence, 2);
}

impl Search {
    /// A search over `probes`, in their order.
    pub fn new(probes: Vec<Probe>) -> (r: Search)
        ensures
            r@ == SearchView::start(probes.deep_view()),
    {
        Search { probes, position: 0, hit: None }
    }

    /// Whether the search is over.
    pub fn is_finished(&self) -> (r: bool)
        ensures
            r == self@.finished(),
    {
        self.hit.is_some() || self.position >= self.probes.len()
    }

    /// What to ask next; `None` once the search is over.
    pub fn pending(&self) -> (r: Option<Question>)
        ensures
            r.deep_view() == self@.pending(),
    {
        if self.is_finished() {
            None
        } else {
            assert(self.probes.deep_view()[self.position as int] == self.probes@[self.position as int]@);
            Some(self.probes[self.position].question())
        }
    }

    /// Takes the answer to the pending question.
    pub fn advance(self, answer: &Answer) -> (r: Search)
        ensures
            r@ == self@.advance(answer@),
    {
        if self.is_finished() {
            return self;
        }
        assert(self.probes.deep_view()[self.position as int] == self.probes@[self.position as int]@);
        let count: usize = self.probes.len();
        let found = self.probes[self.position].evidence(answer);
        match found {
            Some(path) => Search { probes: self.probes, position: self.position, hit: Some(path) },
            None => {
                assert(self.position < count);
                Search { probes: self.probes, position: self.position + 1, hit: None }
            },
        }
    }

    /// What was found, once the search is over: `Some(None)` says that every
    /// probe missed, `None` that the search is still going.
    pub fn outcome(&self) -> (r: Option<Option<String>>)
        ensures
            r.deep_view() == self@.outcome(),
    {
        if self.is_finished() {
            Some(self.hit.clone())
        } else {
            None
        }
    }
}

impl SearchView {
    /// What was found, once the search is over.
    pub open spec fn outcome(self) -> Option<Option<Seq<char>>> {
        if self.finished() {
            Some(self.hit)
        } else {
            None
        }
    }
}

} // verus!
