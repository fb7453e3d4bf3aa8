use vstd::prelude::*;
use crate::event::Event;
use crate::registry::{
    empty_model, lemma_track_wf, lemma_untrack_wf, lemma_update_wf, mapped_spec, model_wf,
    track_model, unmapped_spec, untrack_model, update_model,
    Registry, RegistryModel,
};
use crate::window::{BuildOutcome, Window};

verus! {

/// What handling an event or a fetch result did, for the caller to report.
#[derive(Clone, Copy, Debug, PartialEq, Eq, Structural)]
pub enum Note {
    /// The window is now tracked.
    Added,
    /// The window was tracked already; nothing changed.
    AlreadyTracked,
    /// The window had left the hierarchy by the time its fetch resolved.
    Unviewable,
    /// A query for the window failed; it is not tracked.
    FetchFailed,
    /// The window is no longer tracked.
    Untracked,
    /// The event named a window that is not tracked; nothing changed.
    UnknownWindow,
    /// The window's descriptor now records it as mapped.
    Mapped,
    /// The window's descriptor now records it as unmapped.
    Unmapped,
    /// A window was created under a parent other than the root; ignored.
    NotChildOfRoot,
    /// A notice that this core observes without acting on.
    Observed,
    /// An event of a kind this core does not know.
    Unhandled,
    /// A record that could not be decoded.
    Undecodable,
}

/// What the caller does next.
#[derive(Clone, Copy, Debug, PartialEq, Eq, Structural)]
pub enum Step {
    /// Query the attributes and geometry of this window, build the outcome
    /// with `Window::from_replies`, and hand it to `complete_add`.
    Fetch(u32),
    /// The event has been handled.
    Done(Note),
    /// The event stream has ended: leave the loop.
    Finished,
}

/// First half of the add path: a window is fetched only if it is not
/// tracked yet.
pub open spec fn add_step(m: RegistryModel, id: u32) -> Step {
    if m.windows.contains_key(id) {
        Step::Done(Note::AlreadyTracked)
    } else {
        Step::Fetch(id)
    }
}

/// Second half of the add path: the window is tracked if its fetch built a
/// descriptor.
pub open spec fn complete_model(m: RegistryModel, id: u32, outcome: BuildOutcome) -> RegistryModel {
    match outcome {
        BuildOutcome::Built(w) => track_model(m, id, w),
        _ => m,
    }
}

/// The note that the second half of the add path gives.
pub open spec fn complete_note(m: RegistryModel, id: u32, outcome: BuildOutcome) -> Note {
    match outcome {
        BuildOutcome::Built(_) => if m.windows.contains_key(id) {
            Note::AlreadyTracked
        } else {
            Note::Added
        },
        BuildOutcome::Unviewable => Note::Unviewable,
        BuildOutcome::Failed => Note::FetchFailed,
    }
}

/// The registry after the add path has run on each child in turn, with
/// the fetch outcome that stands at the same index.
pub open spec fn seed_model(m: RegistryModel, children: Seq<u32>, outcomes: Seq<BuildOutcome>) -> RegistryModel
    decreases children.len(),
{
    if children.len() == 0 || outcomes.len() == 0 {
        m
    } else {
        complete_model(
            seed_model(m, children.drop_last(), outcomes.drop_last()),
            children.last(),
            outcomes.last(),
        )
    }
}

/// The registry after one turn of the dispatch loop.
pub open spec fn dispatch_model(m: RegistryModel, root: u32, next: Option<Event>) -> RegistryModel {
    match next {
        Some(Event::DestroyNotify { window }) => untrack_model(m, window),
        Some(Event::ReparentNotify { window, parent }) => if parent == root {
            m
        } else {
            untrack_model(m, window)
        },
        Some(Event::MapNotify { window }) => update_model(m, window, |w: Window| mapped_spec(w)),
        Some(Event::UnmapNotify { window }) => update_model(m, window, |w: Window| unmapped_spec(w)),
        _ => m,
    }
}

/// The note for an event on a window that must be tracked to be acted on.
pub open spec fn known_note(m: RegistryModel, window: u32, done: Note) -> Note {
    if m.windows.contains_key(window) {
        done
    } else {
        Note::UnknownWindow
    }
}

/// What one turn of the dispatch loop asks of the caller.
pub open spec fn dispatch_step(m: RegistryModel, root: u32, next: Option<Event>) -> Step {
    match next {
        None => Step::Finished,
        Some(e) => match e {
            Event::CreateNotify { window, parent } => if parent == root {
                add_step(m, window)
            } else {
                Step::Done(Note::NotChildOfRoot)
            },
            Event::DestroyNotify { window } => Step::Done(known_note(m, window, Note::Untracked)),
            Event::ReparentNotify { window, parent } => if parent == root {
                add_step(m, window)
            } else {
                Step::Done(known_note(m, window, Note::Untracked))
            },
            Event::MapNotify { window } => Step::Done(known_note(m, window, Note::Mapped)),
            Event::UnmapNotify { window } => Step::Done(known_note(m, window, Note::Unmapped)),
            Event::Unknown { .. } => Step::Done(Note::Unhandled),
            Event::Undecodable => Step::Done(Note::Undecodable),
            _ => Step::Done(Note::Observed),
        },
    }
}

/// Every state the registry can reach keeps its invariant: each tracked
/// window stands in the stack once, and the stack holds nothing else.
pub proof fn lemma_steps_keep_invariant(
    m: RegistryModel,
    root: u32,
    next: Option<Event>,
    id: u32,
    outcome: BuildOutcome,
)
    requires
        model_wf(m),
    ensures
        model_wf(dispatch_model(m, root, next)),
        model_wf(complete_model(m, id, outcome)),
{
    match next {
        Some(Event::DestroyNotify { window }) => lemma_untrack_wf(m, window),
        Some(Event::ReparentNotify { window, parent }) => lemma_untrack_wf(m, window),
        Some(Event::MapNotify { window }) => lemma_update_wf(m, window, |w: Window| mapped_spec(w)),
        Some(Event::UnmapNotify { window }) => lemma_update_wf(
            m,
            window,
            |w: Window| unmapped_spec(w),
        ),
        _ => {},
    }
    match outcome {
        BuildOutcome::Built(w) => lemma_track_wf(m, id, w),
        _ => {},
    }
}

/// Initial sync keeps the invariant too.
pub proof fn lemma_seed_keeps_invariant(m: RegistryModel, children: Seq<u32>, outcomes: Seq<BuildOutcome>)
    requires
        model_wf(m),
    ensures
        model_wf(seed_model(m, children, outcomes)),
    decreases children.len(),
{
    if children.len() > 0 && outcomes.len() > 0 {
        lemma_seed_keeps_invariant(m, children.drop_last(), outcomes.drop_last());
        lemma_steps_keep_invariant(
            seed_model(m, children.drop_last(), outcomes.drop_last()),
            0,
            None,
            children.last(),
            outcomes.last(),
        );
    }
}

/// A window whose fetch reports it unviewable is never added: not by the
/// add path after an event, and not by initial sync, where every fetch of
/// it came back without a descriptor. No event adds a window by itself.
pub proof fn lemma_unviewable_never_added(
    m: RegistryModel,
    root: u32,
    next: Option<Event>,
    id: u32,
    children: Seq<u32>,
    outcomes: Seq<BuildOutcome>,
)
    requires
        children.len() == outcomes.len(),
    ensures
        complete_model(m, id, BuildOutcome::Unviewable) == m,
        !m.windows.contains_key(id) ==> !dispatch_model(m, root, next).windows.contains_key(id),
        !m.windows.contains_key(id) && (forall|k: int|
            0 <= k < children.len() && #[trigger] children[k] == id
                ==> !(outcomes[k] is Built)) ==> !seed_model(
            m,
            children,
            outcomes,
        ).windows.contains_key(id),
    decreases children.len(),
{
    if children.len() > 0 && outcomes.len() > 0 {
        let c = children.drop_last();
        let o = outcomes.drop_last();
        if !m.windows.contains_key(id) && (forall|k: int|
            0 <= k < children.len() && #[trigger] children[k] == id
                ==> !(outcomes[k] is Built)) {
            assert forall|k: int|
                0 <= k < c.len() && #[trigger] c[k] == id implies !(o[k] is Built) by {
                assert(children[k] == c[k]);
                assert(outcomes[k] == o[k]);
            }
            assert(children[children.len() - 1] == children.last());
            assert(outcomes[outcomes.len() - 1] == outcomes.last());
        }
        lemma_unviewable_never_added(m, root, next, id, c, o);
    }
}

/// Reparenting a window away from the root untracks it, whether it was
/// tracked or not; reparenting any window under the root changes nothing
/// yet and starts the add path, which fetches the window unless it is
/// tracked already.
pub proof fn lemma_reparent_symmetry(m: RegistryModel, root: u32, window: u32, parent: u32)
    requires
        model_wf(m),
    ensures
        parent != root ==> {
            let after = dispatch_model(m, root, Some(Event::ReparentNotify { window, parent }));
            &&& after == untrack_model(m, window)
            &&& !after.windows.contains_key(window)
            &&& !after.stack.contains(window)
        },
        parent == root ==> {
            &&& dispatch_model(m, root, Some(Event::ReparentNotify { window, parent })) == m
            &&& dispatch_step(m, root, Some(Event::ReparentNotify { window, parent })) == add_step(
                m,
                window,
            )
            &&& !m.windows.contains_key(window) ==> dispatch_step(
                m,
                root,
                Some(Event::ReparentNotify { window, parent }),
            ) == Step::Fetch(window)
        },
{
    lemma_untrack_wf(m, window);
}

/// A map notice on a tracked window sets `mapped` and `needs_rebind`,
/// whatever they were; an unmap notice clears `mapped` and leaves
/// `needs_rebind` as it was. Neither touches the geometry or the stack.
pub proof fn lemma_map_unmap(m: RegistryModel, root: u32, window: u32)
    requires
        m.windows.contains_key(window),
    ensures
        ({
            let after = dispatch_model(m, root, Some(Event::MapNotify { window }));
            let (w0, w1) = (m.windows[window], after.windows[window]);
            &&& after.windows.contains_key(window)
            &&& w1.mapped && w1.needs_rebind
            &&& w1.x == w0.x && w1.y == w0.y && w1.w == w0.w && w1.h == w0.h
            &&& w1.border == w0.border
            &&& after.stack == m.stack
        }),
        ({
            let after = dispatch_model(m, root, Some(Event::UnmapNotify { window }));
            let (w0, w1) = (m.windows[window], after.windows[window]);
            &&& after.windows.contains_key(window)
            &&& !w1.mapped && w1.needs_rebind == w0.needs_rebind
            &&& w1.x == w0.x && w1.y == w0.y && w1.w == w0.w && w1.h == w0.h
            &&& w1.border == w0.border
            &&& after.stack == m.stack
        }),
{
}

/// When the event stream has ended the loop is told to finish, and the
/// registry is left as it was.
pub proof fn lemma_end_of_stream(m: RegistryModel, root: u32)
    ensures
        dispatch_model(m, root, None) == m,
        dispatch_step(m, root, None) == Step::Finished,
{
}

/// The registry of the windows under one root, and the decisions that keep
/// it up to date as events arrive.
pub struct Compositor {
    root: u32,
    registry: Registry,
}

impl View for Compositor {
    type V = RegistryModel;

    closed spec fn view(&self) -> RegistryModel {
        self.registry@
    }
}

impl Compositor {
    /// The invariant of every compositor this type hands out.
    pub open spec fn wf(&self) -> bool {
        model_wf(self@)
    }

    /// The root window, as a spec value.
    pub closed spec fn root_spec(&self) -> u32 {
        self.root
    }

    /// A compositor for the windows under `root`, tracking none yet.
    pub fn new(root: u32) -> (r: Compositor)
        ensures
            r.wf(),
            r@ == empty_model(),
            r.root_spec() == root,
    {
        Compositor { root, registry: Registry::new() }
    }

    /// The root window.
    pub fn root(&self) -> (r: u32)
        ensures
            r == self.root_spec(),
    {
        self.root
    }

    /// Read access to the tracked windows.
    pub fn registry(&self) -> (r: &Registry)
        ensures
            r@ == self@,
    {
        &self.registry
    }

    /// First half of the add path: asks for a fetch of `id` unless it is
    /// tracked already.
    pub fn begin_add(&self, id: u32) -> (r: Step)
        ensures
            r == add_step(self@, id),
    {
        if self.registry.contains(id) {
            Step::Done(Note::AlreadyTracked)
        } else {
            Step::Fetch(id)
        }
    }

    /// Second half of the add path: tracks `id` if its fetch built a
    /// descriptor; an unviewable or failed fetch changes nothing.
    pub fn complete_add(&mut self, id: u32, outcome: BuildOutcome) -> (r: Note)
        requires
            old(self).wf(),
        ensures
            final(self).wf(),
            final(self).root_spec() == old(self).root_spec(),
            final(self)@ == complete_model(old(self)@, id, outcome),
            r == complete_note(old(self)@, id, outcome),
    {
        match outcome {
            BuildOutcome::Built(w) => {
                if self.registry.track(id, w) {
                    Note::Added
                } else {
                    Note::AlreadyTracked
                }
            },
            BuildOutcome::Unviewable => Note::Unviewable,
            BuildOutcome::Failed => Note::FetchFailed,
        }
    }

    /// Initial sync: runs the add path on each child of the root, in the
    /// order given, with the fetch outcome at the same index.
    pub fn seed(&mut self, children: &Vec<u32>, outcomes: &Vec<BuildOutcome>)
        requires
            old(self).wf(),
            children@.len() == outcomes@.len(),
        ensures
            final(self).wf(),
            final(self).root_spec() == old(self).root_spec(),
            final(self)@ == seed_model(old(self)@, children@, outcomes@),
    {
        let ghost start = self@;
        let mut i: usize = 0;
        while i < children.len()
            invariant
                self.wf(),
                self.root_spec() == old(self).root_spec(),
                children@.len() == outcomes@.len(),
                0 <= i <= children@.len(),
                self@ == seed_model(start, children@.take(i as int), outcomes@.take(i as int)),
            decreases children@.len() - i,
        {
            proof {
                assert(children@.take(i + 1).drop_last() =~= children@.take(i as int));
                assert(outcomes@.take(i + 1).drop_last() =~= outcomes@.take(i as int));
            }
            self.complete_add(children[i], outcomes[i]);
            i = i + 1;
        }
        proof {
            assert(children@.take(i as int) =~= children@);
            assert(outcomes@.take(i as int) =~= outcomes@);
        }
    }

    /// One turn of the dispatch loop. `next` is the next event, or `None`
    /// once the stream has ended. Creation and reparenting under the root
    /// take the add path; destruction and reparenting elsewhere untrack;
    /// map and unmap notices update the descriptor; the rest is observed.
    pub fn dispatch(&mut self, next: Option<Event>) -> (r: Step)
        requires
            old(self).wf(),
        ensures
            final(self).wf(),
            final(self).root_spec() == old(self).root_spec(),
            final(self)@ == dispatch_model(old(self)@, old(self).root_spec(), next),
            r == dispatch_step(old(self)@, old(self).root_spec(), next),
    {
        let e = match next {
            Some(e) => e,
            None => return Step::Finished,
        };
        match e {
            Event::CreateNotify { window, parent } => {
                if parent == self.root {
                    self.begin_add(window)
                } else {
                    Step::Done(Note::NotChildOfRoot)
                }
            },
            Event::DestroyNotify { window } => {
                if self.registry.untrack(window) {
                    Step::Done(Note::Untracked)
                } else {
                    Step::Done(Note::UnknownWindow)
                }
            },
            Event::ReparentNotify { window, parent } => {
                if parent == self.root {
                    self.begin_add(window)
                } else if self.registry.untrack(window) {
                    Step::Done(Note::Untracked)
                } else {
                    Step::Done(Note::UnknownWindow)
                }
            },
            Event::MapNotify { window } => {
                if self.registry.set_mapped(window) {
                    Step::Done(Note::Mapped)
                } else {
                    Step::Done(Note::UnknownWindow)
                }
            },
            Event::UnmapNotify { window } => {
                if self.registry.set_unmapped(window) {
                    Step::Done(Note::Unmapped)
                } else {
                    Step::Done(Note::UnknownWindow)
                }
            },
            Event::Unknown { .. } => Step::Done(Note::Unhandled),
            Event::Undecodable => Step::Done(Note::Undecodable),
            _ => Step::Done(Note::Observed),
        }
    }
}

} // verus!
