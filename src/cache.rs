use vstd::prelude::*;

use crate::event::{
    ChangeEvent, last_relevant_path, lemma_unrelated_events_ignored, opt_path_view, paths_view,
    relevant_change, touches,
};

verus! {

/// What one access to a watching cache did.
#[derive(Debug)]
pub enum Refresh<E> {
    /// No drained event touched a watched resource; nothing was rebuilt.
    Unchanged,
    /// A watched resource changed (the path is that of the last such event) and the
    /// rebuild succeeded; the new artifact is now current.
    Rebuilt(String),
    /// A watched resource changed and the rebuild failed with the error; the previous
    /// artifact is still current.
    Failed(String, E),
}

/// The path reported by a refresh, if it saw a change.
pub open spec fn refresh_path<E>(r: Refresh<E>) -> Option<Seq<char>> {
    match r {
        Refresh::Unchanged => None,
        Refresh::Rebuilt(p) => Some(p@),
        Refresh::Failed(p, _) => Some(p@),
    }
}

/// The artifact that is current after one access, given the one before it, the watched
/// paths, the batch of events drained and what a rebuild returns: a rebuild happens only
/// when the batch touches a watched path, and only a successful one replaces the artifact.
pub open spec fn after_access<A, E>(
    current: A,
    watched: Seq<Seq<char>>,
    events: Seq<ChangeEvent>,
    outcome: Result<A, E>,
) -> A {
    if touches(events, watched) {
        match outcome {
            Ok(a) => a,
            Err(_) => current,
        }
    } else {
        current
    }
}

/// The artifact that is current after a series of accesses, each given by its batch of
/// events and what its rebuild returns.
pub open spec fn after_accesses<A, E>(
    current: A,
    watched: Seq<Seq<char>>,
    accesses: Seq<(Seq<ChangeEvent>, Result<A, E>)>,
) -> A
    decreases accesses.len(),
{
    if accesses.len() == 0 {
        current
    } else {
        let last = accesses.last();
        after_access(after_accesses(current, watched, accesses.drop_last()), watched, last.0, last.1)
    }
}

/// A series of accesses in which no batch touches a watched path leaves the artifact as
/// it was, whatever a rebuild would have returned.
pub proof fn lemma_quiet_accesses_keep_artifact<A, E>(
    current: A,
    watched: Seq<Seq<char>>,
    accesses: Seq<(Seq<ChangeEvent>, Result<A, E>)>,
)
    requires
        forall|i: int| 0 <= i < accesses.len() ==> !touches(#[trigger] accesses[i].0, watched),
    ensures
        after_accesses(current, watched, accesses) == current,
    decreases accesses.len(),
{
    if accesses.len() > 0 {
        let init = accesses.drop_last();
        assert forall|i: int| 0 <= i < init.len() implies !touches(#[trigger] init[i].0, watched) by {
            assert(init[i] == accesses[i]);
        }
        lemma_quiet_accesses_keep_artifact(current, watched, init);
        assert(!touches(accesses[accesses.len() - 1].0, watched));
    }
}

/// A series of accesses none of which both touches a watched path and builds
/// successfully leaves the artifact as it was: failed rebuilds never replace it, however
/// many follow one another.
pub proof fn lemma_failed_rebuilds_keep_artifact<A, E>(
    current: A,
    watched: Seq<Seq<char>>,
    accesses: Seq<(Seq<ChangeEvent>, Result<A, E>)>,
)
    requires
        forall|i: int|
            0 <= i < accesses.len() ==> (#[trigger] accesses[i]).1 is Err || !touches(
                accesses[i].0,
                watched,
            ),
    ensures
        after_accesses(current, watched, accesses) == current,
    decreases accesses.len(),
{
    if accesses.len() > 0 {
        let init = accesses.drop_last();
        assert forall|i: int| 0 <= i < init.len() implies (#[trigger] init[i]).1 is Err || !touches(
            init[i].0,
            watched,
        ) by {
            assert(init[i] == accesses[i]);
        }
        lemma_failed_rebuilds_keep_artifact(current, watched, init);
        assert(accesses[accesses.len() - 1] == accesses.last());
    }
}

/// An access whose batch touches a watched path, however many of its events do, and
/// whose rebuild succeeds makes that rebuild's artifact current.
pub proof fn lemma_touched_access_takes_new_artifact<A, E>(
    current: A,
    watched: Seq<Seq<char>>,
    events: Seq<ChangeEvent>,
    built: A,
)
    requires
        touches(events, watched),
    ensures
        after_access::<A, E>(current, watched, events, Ok(built)) == built,
{
}

/// After any series of accesses, one whose batch touches a watched path and whose
/// rebuild succeeds makes that rebuild's artifact current, stale or not before it: a
/// failure is retried on the next relevant change, and its success replaces the artifact.
pub proof fn lemma_successful_rebuild_replaces<A, E>(
    current: A,
    watched: Seq<Seq<char>>,
    accesses: Seq<(Seq<ChangeEvent>, Result<A, E>)>,
    events: Seq<ChangeEvent>,
    built: A,
)
    requires
        touches(events, watched),
    ensures
        after_accesses(current, watched, accesses.push((events, Ok(built)))) == built,
{
    let all = accesses.push((events, Ok::<A, E>(built)));
    assert(all.drop_last() =~= accesses);
    assert(all.last() == (events, Ok::<A, E>(built)));
}

/// Events about paths that are not watched never lead to a rebuild: a batch made only
/// of them leaves the artifact as it was, whatever a rebuild would have returned.
pub proof fn lemma_unrelated_events_never_rebuild<A, E>(
    current: A,
    watched: Seq<Seq<char>>,
    unrelated: Seq<ChangeEvent>,
    outcome: Result<A, E>,
)
    requires
        forall|i: int| 0 <= i < unrelated.len() ==> !watched.contains(#[trigger] unrelated[i].path@),
    ensures
        !touches(unrelated, watched),
        after_access(current, watched, unrelated, outcome) == current,
{
    let nothing = Seq::<ChangeEvent>::empty();
    lemma_unrelated_events_ignored(nothing, unrelated, watched);
    assert(nothing + unrelated =~= unrelated);
}

/// The rebuild cache of a watching cell: the current artifact and the paths of the
/// resources it was built from.
pub struct ArtifactCache<A> {
    resources: Vec<String>,
    artifact: A,
}

impl<A> ArtifactCache<A> {
    /// The artifact that is current.
    pub closed spec fn current(&self) -> A {
        self.artifact
    }

    /// The paths of the watched resources.
    pub closed spec fn watched(&self) -> Seq<Seq<char>> {
        paths_view(self.resources@)
    }

    /// A cache over `resources` whose current artifact is `initial`.
    pub fn new(resources: Vec<String>, initial: A) -> (r: Self)
        ensures
            r.current() == initial,
            r.watched() == paths_view(resources@),
    {
        ArtifactCache { resources, artifact: initial }
    }

    /// Builds the first artifact with `build` and holds it; construction fails with the
    /// build's error, and no cache exists, when the build fails.
    pub fn create<E, B>(resources: Vec<String>, build: B) -> (r: Result<Self, E>)
        where
            B: FnOnce() -> Result<A, E>,
        requires
            build.requires(()),
        ensures
            r matches Ok(c) ==> build.ensures((), Ok(c.current())) && c.watched() == paths_view(
                resources@,
            ),
            r matches Err(e) ==> build.ensures((), Err(e)),
    {
        match build() {
            Ok(a) => Ok(ArtifactCache { resources, artifact: a }),
            Err(e) => Err(e),
        }
    }

    /// The paths of the watched resources, which a rebuild reads.
    pub fn resources(&self) -> (r: &Vec<String>)
        ensures
            paths_view(r@) == self.watched(),
    {
        &self.resources
    }

    /// The current artifact.
    pub fn artifact(&self) -> (r: &A)
        ensures
            *r == self.current(),
    {
        &self.artifact
    }

    /// The current artifact, for the caller to use mutably.
    pub fn artifact_mut(&mut self) -> (r: &mut A)
        ensures
            *r == old(self).current(),
            final(self).current() == *final(r),
            final(self).watched() == old(self).watched(),
    {
        &mut self.artifact
    }

    /// Decides whether a drained batch of events calls for a rebuild: the path of its last
    /// event that creates or modifies a watched resource, or `None`.
    pub fn pending_change(&self, events: &Vec<ChangeEvent>) -> (r: Option<String>)
        ensures
            opt_path_view(r) == last_relevant_path(events@, self.watched()),
            r is Some <==> touches(events@, self.watched()),
    {
        relevant_change(events, &self.resources)
    }

    /// One access of a watching cell, given the batch of events drained since the last
    /// one. When no event touches a watched resource, nothing is rebuilt and the artifact
    /// stays. Otherwise `rebuild` is called once, however many events matched: its
    /// artifact replaces the current one when it succeeds, and the current one stays when
    /// it fails.
    pub fn refresh<E, B>(&mut self, events: &Vec<ChangeEvent>, rebuild: B) -> (r: Refresh<E>)
        where
            B: FnOnce() -> Result<A, E>,
        requires
            touches(events@, old(self).watched()) ==> rebuild.requires(()),
        ensures
            final(self).watched() == old(self).watched(),
            refresh_path(r) == last_relevant_path(events@, old(self).watched()),
            r is Unchanged <==> !touches(events@, old(self).watched()),
            r is Unchanged ==> final(self).current() == old(self).current(),
            r is Rebuilt ==> rebuild.ensures((), Ok(final(self).current())),
            r matches Refresh::Failed(_, e) ==> rebuild.ensures((), Err(e)) && final(self).current()
                == old(self).current(),
            exists|o: Result<A, E>|
                (r is Unchanged || rebuild.ensures((), o)) && final(self).current() == after_access(
                    old(self).current(),
                    old(self).watched(),
                    events@,
                    o,
                ),
    {
        match self.pending_change(events) {
            None => {
                proof {
                    let o: Result<A, E> = Ok(self.artifact);
                    assert(self.current() == after_access(self.current(), self.watched(), events@, o));
                }
                Refresh::Unchanged
            },
            Some(changed) => {
                let outcome = rebuild();
                match outcome {
                    Ok(a) => {
                        let ghost o: Result<A, E> = Ok(a);
                        self.artifact = a;
                        assert(self.current() == after_access(old(self).current(), self.watched(), events@, o));
                        Refresh::Rebuilt(changed)
                    },
                    Err(e) => {
                        let ghost o: Result<A, E> = Err(e);
                        assert(self.current() == after_access(old(self).current(), self.watched(), events@, o));
                        Refresh::Failed(changed, e)
                    },
                }
            },
        }
    }

    /// The access of a watching cell: refreshes from the drained `events` as `refresh`
    /// does, then lends out the artifact that is current afterwards, with what the refresh
    /// did.
    pub fn pso<E, B>(&mut self, events: &Vec<ChangeEvent>, rebuild: B) -> (r: (Refresh<E>, &mut A))
        where
            B: FnOnce() -> Result<A, E>,
        requires
            touches(events@, old(self).watched()) ==> rebuild.requires(()),
        ensures
            final(self).watched() == old(self).watched(),
            final(self).current() == *final(r.1),
            refresh_path(r.0) == last_relevant_path(events@, old(self).watched()),
            r.0 is Unchanged <==> !touches(events@, old(self).watched()),
            r.0 is Unchanged ==> *r.1 == old(self).current(),
            r.0 is Rebuilt ==> rebuild.ensures((), Ok(*r.1)),
            r.0 matches Refresh::Failed(_, e) ==> rebuild.ensures((), Err(e)) && *r.1 == old(
                self,
            ).current(),
            exists|o: Result<A, E>|
                (r.0 is Unchanged || rebuild.ensures((), o)) && *r.1 == after_access(
                    old(self).current(),
                    old(self).watched(),
                    events@,
                    o,
                ),
    {
        let done = self.refresh(events, rebuild);
        (done, &mut self.artifact)
    }
}

} // verus!
