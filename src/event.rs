use vstd::prelude::*;

verus! {

/// What happened to a path, as reported by the filesystem watch service.
#[derive(Clone, Copy, Debug, PartialEq, Eq)]
pub enum ChangeKind {
    Created,
    Modified,
    Other,
}

/// One change notification: a path and what happened to it.
#[derive(Clone, Debug)]
pub struct ChangeEvent {
    pub path: String,
    pub kind: ChangeKind,
}

impl ChangeEvent {
    pub fn new(path: String, kind: ChangeKind) -> (r: ChangeEvent)
        ensures
            r.path == path,
            r.kind == kind,
    {
        ChangeEvent { path, kind }
    }
}

/// The text of each path in a list.
pub open spec fn paths_view(paths: Seq<String>) -> Seq<Seq<char>> {
    paths.map_values(|p: String| p@)
}

/// Creating or modifying a file can change what a rebuild would read; other kinds cannot.
pub open spec fn kind_triggers(kind: ChangeKind) -> bool {
    kind == ChangeKind::Created || kind == ChangeKind::Modified
}

/// An event invalidates the artifact when it creates or modifies one of the watched
/// paths, compared exactly.
pub open spec fn is_relevant(e: ChangeEvent, watched: Seq<Seq<char>>) -> bool {
    kind_triggers(e.kind) && watched.contains(e.path@)
}

/// Some event of the batch invalidates the artifact.
pub open spec fn touches(events: Seq<ChangeEvent>, watched: Seq<Seq<char>>) -> bool {
    exists|i: int| 0 <= i < events.len() && #[trigger] is_relevant(events[i], watched)
}

/// The path of the last relevant event of the batch, if there is one.
pub open spec fn last_relevant_path(events: Seq<ChangeEvent>, watched: Seq<Seq<char>>) -> Option<
    Seq<char>,
>
    decreases events.len(),
{
    if events.len() == 0 {
        None
    } else if is_relevant(events.last(), watched) {
        Some(events.last().path@)
    } else {
        last_relevant_path(events.drop_last(), watched)
    }
}

/// The text of an optional path.
pub open spec fn opt_path_view(p: Option<String>) -> Option<Seq<char>> {
    match p {
        Some(s) => Some(s@),
        None => None,
    }
}

/// A batch has a last relevant path exactly when it holds a relevant event, and that
/// path belongs to a relevant event of the batch.
pub proof fn lemma_last_relevant_path(events: Seq<ChangeEvent>, watched: Seq<Seq<char>>)
    ensures
        last_relevant_path(events, watched) is Some <==> touches(events, watched),
        last_relevant_path(events, watched) is Some ==> exists|i: int|
            0 <= i < events.len() && #[trigger] is_relevant(events[i], watched)
                && events[i].path@ == last_relevant_path(events, watched)->0,
    decreases events.len(),
{
    if events.len() > 0 {
        let init = events.drop_last();
        lemma_last_relevant_path(init, watched);
        if !is_relevant(events.last(), watched) {
            if touches(events, watched) {
                let i = choose|i: int| 0 <= i < events.len() && #[trigger] is_relevant(events[i], watched);
                assert(i < events.len() - 1);
                assert(init[i] == events[i]);
            }
            if touches(init, watched) {
                let i = choose|i: int| 0 <= i < init.len() && #[trigger] is_relevant(init[i], watched);
                assert(init[i] == events[i]);
            }
            if last_relevant_path(init, watched) is Some {
                let i = choose|i: int|
                    0 <= i < init.len() && #[trigger] is_relevant(init[i], watched)
                        && init[i].path@ == last_relevant_path(init, watched)->0;
                assert(init[i] == events[i]);
            }
        } else {
            assert(is_relevant(events[events.len() - 1], watched));
        }
    }
}

/// Appending events for paths that are not watched changes neither whether a batch
/// invalidates the artifact nor which path is reported for it.
pub proof fn lemma_unrelated_events_ignored(
    events: Seq<ChangeEvent>,
    unrelated: Seq<ChangeEvent>,
    watched: Seq<Seq<char>>,
)
    requires
        forall|i: int| 0 <= i < unrelated.len() ==> !watched.contains(#[trigger] unrelated[i].path@),
    ensures
        last_relevant_path(events + unrelated, watched) == last_relevant_path(events, watched),
        touches(events + unrelated, watched) == touches(events, watched),
    decreases unrelated.len(),
{
    if unrelated.len() > 0 {
        let shorter = unrelated.drop_last();
        lemma_unrelated_events_ignored(events, shorter, watched);
        assert((events + unrelated).drop_last() =~= events + shorter);
        assert(!is_relevant(unrelated[unrelated.len() - 1], watched));
        assert((events + unrelated).last() == unrelated[unrelated.len() - 1]);
    } else {
        assert(events + unrelated =~= events);
    }
    lemma_last_relevant_path(events + unrelated, watched);
    lemma_last_relevant_path(events, watched);
}

/// Whether `path` is one of `paths`, compared exactly.
pub fn contains_path(path: &String, paths: &Vec<String>) -> (r: bool)
    ensures
        r == paths_view(paths@).contains(path@),
{
    let mut i: usize = 0;
    while i < paths.len()
        invariant
            0 <= i <= paths.len(),
            forall|j: int| 0 <= j < i ==> paths@[j]@ != path@,
        decreases paths.len() - i,
    {
        if paths[i] == *path {
            assert(paths_view(paths@)[i as int] == path@);
            return true;
        }
        i = i + 1;
    }
    proof {
        if paths_view(paths@).contains(path@) {
            let j = choose|j: int| 0 <= j < paths_view(paths@).len() && paths_view(paths@)[j] == path@;
            assert(paths@[j]@ == path@);
        }
    }
    false
}

/// Whether the event invalidates an artifact built from `watched`.
pub fn event_is_relevant(e: &ChangeEvent, watched: &Vec<String>) -> (r: bool)
    ensures
        r == is_relevant(*e, paths_view(watched@)),
{
    let triggers = match e.kind {
        ChangeKind::Created => true,
        ChangeKind::Modified => true,
        ChangeKind::Other => false,
    };
    triggers && contains_path(&e.path, watched)
}

/// Scans a drained batch of events and returns the path of the last one that invalidates
/// an artifact built from `watched`, or `None` when no event does.
pub fn relevant_change(events: &Vec<ChangeEvent>, watched: &Vec<String>) -> (r: Option<String>)
    ensures
        opt_path_view(r) == last_relevant_path(events@, paths_view(watched@)),
        r is Some <==> touches(events@, paths_view(watched@)),
{
    let ghost w = paths_view(watched@);
    let mut found: Option<String> = None;
    let mut i: usize = 0;
    while i < events.len()
        invariant
            0 <= i <= events.len(),
            w == paths_view(watched@),
            opt_path_view(found) == last_relevant_path(events@.take(i as int), w),
        decreases events.len() - i,
    {
        let ghost before = events@.take(i as int);
        assert(events@.take(i as int + 1).drop_last() =~= before);
        assert(events@.take(i as int + 1).last() == events@[i as int]);
        if event_is_relevant(&events[i], watched) {
            found = Some(events[i].path.clone());
        }
        i = i + 1;
    }
    assert(events@.take(events.len() as int) =~= events@);
    proof {
        lemma_last_relevant_path(events@, w);
    }
    found
}

} // verus!
