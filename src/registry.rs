use vstd::prelude::*;
use std::collections::HashMap;
use std::collections::VecDeque;
use crate::window::Window;

verus! {

broadcast use vstd::std_specs::hash::group_hash_axioms;

/// Mathematical value of a registry: the descriptor of each tracked window
/// and the stacking order.
pub struct RegistryModel {
    pub windows: Map<u32, Window>,
    pub stack: Seq<u32>,
}

/// The registry's invariant: every tracked window stands in the stack
/// exactly once, and the stack holds nothing else.
pub open spec fn model_wf(m: RegistryModel) -> bool {
    &&& m.stack.no_duplicates()
    &&& forall|id: u32| #[trigger] m.stack.contains(id) <==> m.windows.contains_key(id)
}

/// Index of the last occurrence of `id` in `s`, or -1 where there is none.
pub open spec fn last_index_of(s: Seq<u32>, id: u32) -> int
    decreases s.len(),
{
    if s.len() == 0 {
        -1
    } else if s.last() == id {
        s.len() - 1
    } else {
        last_index_of(s.drop_last(), id)
    }
}

/// Tracking `id` with descriptor `w`: nothing changes if it is tracked already.
pub open spec fn track_model(m: RegistryModel, id: u32, w: Window) -> RegistryModel {
    if m.windows.contains_key(id) {
        m
    } else {
        RegistryModel { windows: m.windows.insert(id, w), stack: m.stack.push(id) }
    }
}

/// Untracking `id`: nothing changes if it is not tracked; otherwise its
/// descriptor goes and so does its last occurrence in the stack.
pub open spec fn untrack_model(m: RegistryModel, id: u32) -> RegistryModel {
    if !m.windows.contains_key(id) {
        m
    } else {
        RegistryModel {
            windows: m.windows.remove(id),
            stack: m.stack.remove(last_index_of(m.stack, id)),
        }
    }
}

/// Applies `f` to the descriptor of `id`, if `id` is tracked.
pub open spec fn update_model(m: RegistryModel, id: u32, f: spec_fn(Window) -> Window) -> RegistryModel {
    if m.windows.contains_key(id) {
        RegistryModel { windows: m.windows.insert(id, f(m.windows[id])), stack: m.stack }
    } else {
        m
    }
}

/// A descriptor after a map notice.
pub open spec fn mapped_spec(w: Window) -> Window {
    Window { mapped: true, needs_rebind: true, ..w }
}

/// A descriptor after an unmap notice.
pub open spec fn unmapped_spec(w: Window) -> Window {
    Window { mapped: false, ..w }
}

/// The empty registry.
pub open spec fn empty_model() -> RegistryModel {
    RegistryModel { windows: Map::empty(), stack: Seq::empty() }
}

/// The last occurrence of `id`, where it occurs.
proof fn lemma_last_index_of(s: Seq<u32>, id: u32)
    ensures
        -1 <= last_index_of(s, id) < s.len(),
        last_index_of(s, id) >= 0 ==> s[last_index_of(s, id)] == id,
        forall|j: int| last_index_of(s, id) < j < s.len() ==> s[j] != id,
        s.contains(id) ==> last_index_of(s, id) >= 0,
    decreases s.len(),
{
    if s.len() > 0 {
        lemma_last_index_of(s.drop_last(), id);
        if s.last() != id && s.contains(id) {
            let k = choose|k: int| 0 <= k < s.len() && s[k] == id;
            assert(s.drop_last()[k] == id);
        }
        if s.last() != id {
            assert forall|j: int| last_index_of(s, id) < j < s.len() implies s[j] != id by {
                if j < s.len() - 1 {
                    assert(s[j] == s.drop_last()[j]);
                }
            }
        }
    }
}

/// An index `i` holding `id` with no `id` after it is the last occurrence.
proof fn lemma_last_index_is(s: Seq<u32>, id: u32, i: int)
    requires
        0 <= i < s.len(),
        s[i] == id,
        forall|j: int| i < j < s.len() ==> s[j] != id,
    ensures
        last_index_of(s, id) == i,
{
    lemma_last_index_of(s, id);
}

/// Tracking keeps the invariant.
pub proof fn lemma_track_wf(m: RegistryModel, id: u32, w: Window)
    requires
        model_wf(m),
    ensures
        model_wf(track_model(m, id, w)),
{
    if !m.windows.contains_key(id) {
        let s = m.stack.push(id);
        assert forall|x: u32| #[trigger] s.contains(x) <==> m.stack.contains(x) || x == id by {
            if s.contains(x) {
                let k = choose|k: int| 0 <= k < s.len() && s[k] == x;
                if k < m.stack.len() {
                    assert(m.stack[k] == x);
                }
            }
            if x == id {
                assert(s[s.len() - 1] == id);
            }
            if m.stack.contains(x) {
                let k = choose|k: int| 0 <= k < m.stack.len() && m.stack[k] == x;
                assert(s[k] == x);
            }
        }
        assert forall|a: int, b: int| 0 <= a < s.len() && 0 <= b < s.len() && a != b implies s[a]
            != s[b] by {
            if a < m.stack.len() && b == m.stack.len() {
                assert(m.stack.contains(s[a]));
            }
            if b < m.stack.len() && a == m.stack.len() {
                assert(m.stack.contains(s[b]));
            }
        }
    }
}

/// Untracking keeps the invariant.
pub proof fn lemma_untrack_wf(m: RegistryModel, id: u32)
    requires
        model_wf(m),
    ensures
        model_wf(untrack_model(m, id)),
        !untrack_model(m, id).windows.contains_key(id),
{
    if m.windows.contains_key(id) {
        assert(m.stack.contains(id));
        lemma_last_index_of(m.stack, id);
        let i = last_index_of(m.stack, id);
        let s = m.stack.remove(i);
        assert forall|x: u32| #[trigger] s.contains(x) <==> m.stack.contains(x) && x != id by {
            if s.contains(x) {
                let k = choose|k: int| 0 <= k < s.len() && s[k] == x;
                if k < i {
                    assert(m.stack[k] == x);
                } else {
                    assert(m.stack[k + 1] == x);
                }
            }
            if m.stack.contains(x) && x != id {
                let k = choose|k: int| 0 <= k < m.stack.len() && m.stack[k] == x;
                if k < i {
                    assert(s[k] == x);
                } else {
                    assert(s[k - 1] == x);
                }
            }
        }
        assert forall|a: int, b: int| 0 <= a < s.len() && 0 <= b < s.len() && a != b implies s[a]
            != s[b] by {
            let a2 = if a < i { a } else { a + 1 };
            let b2 = if b < i { b } else { b + 1 };
            assert(s[a] == m.stack[a2]);
            assert(s[b] == m.stack[b2]);
        }
    }
}

/// Updating a descriptor keeps the invariant.
pub proof fn lemma_update_wf(m: RegistryModel, id: u32, f: spec_fn(Window) -> Window)
    requires
        model_wf(m),
    ensures
        model_wf(update_model(m, id, f)),
{
}

/// Tracking an identifier a second time, with any descriptor, changes
/// nothing: only the first call has an effect.
pub proof fn lemma_track_idempotent(m: RegistryModel, id: u32, w1: Window, w2: Window)
    ensures
        track_model(track_model(m, id, w1), id, w2) == track_model(m, id, w1),
        track_model(m, id, w1).windows.contains_key(id),
{
}

/// Untracking an identifier that is not tracked changes nothing, so
/// untracking one a second time changes nothing either.
pub proof fn lemma_untrack_idempotent(m: RegistryModel, id: u32)
    requires
        model_wf(m),
    ensures
        !m.windows.contains_key(id) ==> untrack_model(m, id) == m,
        untrack_model(untrack_model(m, id), id) == untrack_model(m, id),
{
    lemma_untrack_wf(m, id);
}

/// Mapping of window identifiers to descriptors, with the stacking order
/// kept in lockstep.
pub struct Registry {
    windows: HashMap<u32, Window>,
    stack: VecDeque<u32>,
}

impl View for Registry {
    type V = RegistryModel;

    closed spec fn view(&self) -> RegistryModel {
        RegistryModel { windows: self.windows@, stack: self.stack@ }
    }
}

impl Registry {
    /// The invariant of every registry this type hands out.
    pub open spec fn wf(&self) -> bool {
        model_wf(self@)
    }

    /// An empty registry.
    pub fn new() -> (r: Registry)
        ensures
            r.wf(),
            r@ == empty_model(),
    {
        let r = Registry { windows: HashMap::new(), stack: VecDeque::new() };
        assert(r@.windows =~= Map::empty());
        r
    }

    /// Whether `id` is tracked.
    pub fn contains(&self, id: u32) -> (r: bool)
        ensures
            r == self@.windows.contains_key(id),
    {
        self.windows.contains_key(&id)
    }

    /// Descriptor of `id`, if it is tracked.
    pub fn get(&self, id: u32) -> (r: Option<Window>)
        ensures
            r == (if self@.windows.contains_key(id) {
                Some(self@.windows[id])
            } else {
                None
            }),
    {
        match self.windows.get(&id) {
            Some(w) => Some(*w),
            None => None,
        }
    }

    /// Number of tracked windows.
    pub fn len(&self) -> (r: usize)
        requires
            self.wf(),
        ensures
            r == self@.windows.dom().len(),
    {
        self.windows.len()
    }

    /// Tracks `id` with descriptor `w`, at the end of the stack. Returns
    /// false, and changes nothing, where `id` is tracked already.
    pub fn track(&mut self, id: u32, w: Window) -> (r: bool)
        requires
            old(self).wf(),
        ensures
            final(self).wf(),
            final(self)@ == track_model(old(self)@, id, w),
            r == !old(self)@.windows.contains_key(id),
    {
        proof {
            lemma_track_wf(self@, id, w);
        }
        if self.windows.contains_key(&id) {
            return false;
        }
        self.windows.insert(id, w);
        self.stack.push_back(id);
        true
    }

    /// Stops tracking `id`: its descriptor goes, and so does its last
    /// occurrence in the stack. Returns false, and changes nothing, where
    /// `id` is not tracked.
    pub fn untrack(&mut self, id: u32) -> (r: bool)
        requires
            old(self).wf(),
        ensures
            final(self).wf(),
            final(self)@ == untrack_model(old(self)@, id),
            r == old(self)@.windows.contains_key(id),
    {
        proof {
            lemma_untrack_wf(self@, id);
        }
        if !self.windows.contains_key(&id) {
            return false;
        }
        proof {
            assert(self@.stack.contains(id));
            lemma_last_index_of(self@.stack, id);
        }
        let mut i: usize = self.stack.len();
        while i > 0 && self.stack[i - 1] != id
            invariant
                0 <= i <= self@.stack.len(),
                self@.stack.contains(id),
                forall|j: int| i <= j < self@.stack.len() ==> self@.stack[j] != id,
            decreases i,
        {
            i = i - 1;
        }
        proof {
            if i == 0 {
                let k = choose|k: int| 0 <= k < self@.stack.len() && self@.stack[k] == id;
                assert(false);
            }
        }
        let ghost before = self@;
        let k: usize = i - 1;
        proof {
            lemma_last_index_is(before.stack, id, k as int);
        }
        self.windows.remove(&id);
        self.stack.remove(k);
        assert(self@.windows =~= before.windows.remove(id));
        true
    }

    /// Records a map notice for `id`: mapped, and in need of a rebind.
    /// Returns false, and changes nothing, where `id` is not tracked.
    pub fn set_mapped(&mut self, id: u32) -> (r: bool)
        requires
            old(self).wf(),
        ensures
            final(self).wf(),
            final(self)@ == update_model(old(self)@, id, |w: Window| mapped_spec(w)),
            r == old(self)@.windows.contains_key(id),
    {
        proof {
            lemma_update_wf(self@, id, |w: Window| mapped_spec(w));
        }
        match self.windows.get(&id) {
            Some(w) => {
                let nw = Window { mapped: true, needs_rebind: true, ..*w };
                self.windows.insert(id, nw);
                true
            },
            None => false,
        }
    }

    /// Records an unmap notice for `id`: not mapped, the rebind flag as it
    /// was. Returns false, and changes nothing, where `id` is not tracked.
    pub fn set_unmapped(&mut self, id: u32) -> (r: bool)
        requires
            old(self).wf(),
        ensures
            final(self).wf(),
            final(self)@ == update_model(old(self)@, id, |w: Window| unmapped_spec(w)),
            r == old(self)@.windows.contains_key(id),
    {
        proof {
            lemma_update_wf(self@, id, |w: Window| unmapped_spec(w));
        }
        match self.windows.get(&id) {
            Some(w) => {
                let nw = Window { mapped: false, ..*w };
                self.windows.insert(id, nw);
                true
            },
            None => false,
        }
    }

    /// The stacking order, one identifier per tracked window.
    pub fn stack(&self) -> (r: Vec<u32>)
        ensures
            r@ == self@.stack,
    {
        let mut r: Vec<u32> = Vec::new();
        let mut i: usize = 0;
        while i < self.stack.len()
            invariant
                0 <= i <= self@.stack.len(),
                r@ == self@.stack.take(i as int),
            decreases self@.stack.len() - i,
        {
            r.push(self.stack[i]);
            i = i + 1;
            assert(r@ =~= self@.stack.take(i as int));
        }
        assert(r@ =~= self@.stack);
        r
    }
}

} // verus!
