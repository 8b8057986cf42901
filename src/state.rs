use vstd::prelude::*;

use crate::recents::{
    keep_last, lemma_pushed, paths_of, pushed, pushed_all, recents_ok, without, MAX_RECENTS,
};

verus! {

/// What the viewer remembers between events: the file on display and the
/// recently-used list, oldest first.
pub struct AppState {
    current_path: Option<String>,
    recents: Vec<String>,
}

impl AppState {
    #[verifier::type_invariant]
    spec fn inv(&self) -> bool {
        recents_ok(paths_of(self.recents@))
    }

    /// The path of the file on display, if any.
    pub closed spec fn current_view(&self) -> Option<Seq<char>> {
        match self.current_path {
            Some(p) => Some(p@),
            None => None,
        }
    }

    /// The recently-used paths, oldest first.
    pub closed spec fn recents_view(&self) -> Seq<Seq<char>> {
        paths_of(self.recents@)
    }

    /// A state with no file on display and no recent files.
    pub fn new() -> (r: AppState)
        ensures
            r.current_view() is None,
            r.recents_view() == Seq::<Seq<char>>::empty(),
    {
        let r = AppState { current_path: None, recents: Vec::new() };
        assert(paths_of(r.recents@) =~= Seq::<Seq<char>>::empty());
        r
    }

    /// The recently-used paths, oldest first.
    pub fn recents(&self) -> (r: &Vec<String>)
        ensures
            paths_of(r@) == self.recents_view(),
            recents_ok(self.recents_view()),
    {
        proof {
            use_type_invariant(self);
        }
        &self.recents
    }

    /// The path of the file on display, if any.
    pub fn current_path(&self) -> (r: Option<String>)
        ensures
            match r {
                Some(p) => self.current_view() == Some(p@),
                None => self.current_view() is None,
            },
    {
        match &self.current_path {
            Some(p) => Some(p.clone()),
            None => None,
        }
    }

    /// Makes `path` the file on display; the recently-used list is unchanged.
    pub fn set_current_path(&mut self, path: String)
        ensures
            final(self).current_view() == Some(path@),
            final(self).recents_view() == old(self).recents_view(),
    {
        proof {
            use_type_invariant(&*self);
        }
        self.current_path = Some(path);
    }

    /// Replaces the recently-used list by the one that opening `entries` in
    /// order builds from an empty list. A saved list that is well formed is
    /// kept as it is (see `lemma_pushed_all_ok`).
    pub fn restore_recents(&mut self, entries: &Vec<String>)
        ensures
            final(self).recents_view() == pushed_all(paths_of(entries@)),
            recents_ok(final(self).recents_view()),
            final(self).current_view() == old(self).current_view(),
    {
        let ghost e = paths_of(entries@);
        let mut fresh = AppState::new();
        assert(e.subrange(0, 0) =~= Seq::<Seq<char>>::empty());
        let mut i: usize = 0;
        while i < entries.len()
            invariant
                0 <= i <= entries.len(),
                e == paths_of(entries@),
                fresh.recents_view() == pushed_all(e.subrange(0, i as int)),
            decreases entries.len() - i,
        {
            push_recent(&mut fresh, &entries[i]);
            proof {
                let t = e.subrange(0, i + 1);
                assert(t.drop_last() =~= e.subrange(0, i as int));
                assert(t.last() == entries@[i as int]@);
            }
            i += 1;
        }
        assert(e.subrange(0, e.len() as int) =~= e);
        proof {
            use_type_invariant(&fresh);
        }
        self.recents = fresh.recents;
    }
}

/// Records that `path` was opened: it moves to the end of the recently-used
/// list, and the oldest entries beyond `MAX_RECENTS` are dropped.
pub fn push_recent(state: &mut AppState, path: &String)
    ensures
        final(state).recents_view() == pushed(old(state).recents_view(), path@),
        final(state).current_view() == old(state).current_view(),
        recents_ok(final(state).recents_view()),
        final(state).recents_view().last() == path@,
{
    proof {
        use_type_invariant(&*state);
    }
    let ghost s = paths_of(state.recents@);
    let mut kept: Vec<String> = Vec::new();
    assert(s.subrange(0, 0) =~= Seq::<Seq<char>>::empty());
    assert(paths_of(kept@) =~= Seq::<Seq<char>>::empty());
    let mut i: usize = 0;
    while i < state.recents.len()
        invariant
            0 <= i <= state.recents.len(),
            s == paths_of(state.recents@),
            paths_of(kept@) == without(s.subrange(0, i as int), path@),
        decreases state.recents.len() - i,
    {
        let same: bool = state.recents[i] == *path;
        proof {
            let t = s.subrange(0, i + 1);
            assert(t.drop_last() =~= s.subrange(0, i as int));
            assert(t.last() == state.recents@[i as int]@);
        }
        if !same {
            let ghost before = kept@;
            kept.push(state.recents[i].clone());
            assert(paths_of(kept@) =~= paths_of(before).push(state.recents@[i as int]@));
        }
        i += 1;
    }
    assert(s.subrange(0, s.len() as int) =~= s);
    let ghost before = kept@;
    kept.push(path.clone());
    assert(paths_of(kept@) =~= paths_of(before).push(path@));
    let ghost w = paths_of(kept@);
    let mut out: Vec<String>;
    if kept.len() > MAX_RECENTS {
        let off: usize = kept.len() - MAX_RECENTS;
        out = Vec::new();
        let mut j: usize = off;
        assert(paths_of(out@) =~= w.subrange(off as int, off as int));
        while j < kept.len()
            invariant
                off <= j <= kept.len(),
                w == paths_of(kept@),
                paths_of(out@) == w.subrange(off as int, j as int),
            decreases kept.len() - j,
        {
            let ghost prev = out@;
            out.push(kept[j].clone());
            assert(paths_of(out@) =~= paths_of(prev).push(kept@[j as int]@));
            assert(paths_of(out@) =~= w.subrange(off as int, j + 1));
            j += 1;
        }
    } else {
        out = kept;
    }
    assert(paths_of(out@) == keep_last(w, MAX_RECENTS as nat));
    proof {
        lemma_pushed(s, path@);
    }
    state.recents = out;
}

/// The recently-used paths as the list shows them: most recent first.
pub fn recents_model(state: &AppState) -> (r: Vec<String>)
    ensures
        r@.len() == state.recents_view().len(),
        forall|i: int|
            0 <= i < r@.len() ==> #[trigger] r@[i]@ == state.recents_view()[r@.len() - 1 - i],
{
    let v = state.recents();
    let mut r: Vec<String> = Vec::new();
    let mut k: usize = v.len();
    while k > 0
        invariant
            k <= v.len(),
            paths_of(v@) == state.recents_view(),
            r@.len() == v.len() - k,
            forall|i: int| 0 <= i < r@.len() ==> #[trigger] r@[i]@ == v@[v.len() - 1 - i]@,
        decreases k,
    {
        k -= 1;
        r.push(v[k].clone());
    }
    r
}

/// The number of recently-used paths.
pub fn recents_count(state: &AppState) -> (r: i32)
    ensures
        r == state.recents_view().len(),
{
    let v = state.recents();
    v.len() as i32
}

} // verus!
