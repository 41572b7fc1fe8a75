//! The executable row store and its verified mutation gateway.

use std::collections::VecDeque;

use vstd::prelude::*;

use crate::model::{
    CacheModel, StoreModel, filter_rows, lemma_filter_rows_len, lemma_filter_rows_push,
    spec_build_cache, spec_clear_dirty, spec_clear_user_modification, spec_extend,
    spec_mark_dirty, spec_mark_user_modification, spec_replace, spec_retain, spec_take,
};

verus! {

/// The Presentation Cache as this core owns it. The derived index/selection
/// structure itself is built and consumed by the rendering boundary; this
/// core tracks only the cache's presence and its user-modification
/// condition (a boolean flag, the documented choice for the otherwise
/// unspecified uncommitted-edit sub-state).
#[derive(Debug)]
struct UiState {
    user_modification: bool,
}

/// One retain pass, witnessed by the per-row verdict sequence `keep`: each
/// verdict is a possible answer of the predicate on the corresponding prior
/// row, and the store stepped by [`spec_retain`] with those verdicts.
pub open spec fn retain_transition<R, F: Fn(&R) -> bool>(
    pre: StoreModel<R>,
    post: StoreModel<R>,
    f: F,
    keep: Seq<bool>,
) -> bool {
    &&& keep.len() == pre.rows.len()
    &&& (forall|i: int| 0 <= i < keep.len() ==> call_ensures(f, (&pre.rows[i],), keep[i]))
    &&& post == spec_retain(pre, keep)
}

/// An ordered store of application row records, guarding its rows behind a
/// fixed mutation gateway so that every mutation applies its declared
/// invalidation effect to the Presentation Cache.
#[derive(Debug)]
pub struct Spreadsheet<R> {
    /// Row Collection: the single source of truth, in insertion order.
    rows: VecDeque<R>,

    /// Dirty Flag: "changed since last acknowledged", independent of the
    /// Presentation Cache.
    dirty_flag: bool,

    /// Presentation Cache: absent means "not built / needs rebuild".
    ui: Option<UiState>,
}

impl<R> View for Spreadsheet<R> {
    type V = StoreModel<R>;

    closed spec fn view(&self) -> StoreModel<R> {
        StoreModel {
            rows: self.rows@,
            cache: match self.ui {
                Some(u) => Some(CacheModel { user_modification: u.user_modification }),
                None => None,
            },
            dirty: self.dirty_flag,
        }
    }
}

impl<R> Default for Spreadsheet<R> {
    /// An empty store: no rows, no cache, Dirty Flag clear.
    fn default() -> (s: Self)
        ensures
            s@ == StoreModel::<R>::init(Seq::empty()),
    {
        Spreadsheet { rows: VecDeque::new(), dirty_flag: false, ui: None }
    }
}

impl<R> Spreadsheet<R> {
    /// Creates an empty store.
    pub fn new() -> (s: Self)
        ensures
            s@ == StoreModel::<R>::init(Seq::empty()),
    {
        Spreadsheet { rows: VecDeque::new(), dirty_flag: false, ui: None }
    }

    /// Bulk-loads a store from an initial ordered collection of rows. The
    /// rows are adopted in their given order; the Presentation Cache starts
    /// absent and the Dirty Flag false.
    pub fn from_rows(rows: VecDeque<R>) -> (s: Self)
        ensures
            s@ == StoreModel::<R>::init(rows@),
    {
        Spreadsheet { rows, dirty_flag: false, ui: None }
    }

    /// The number of rows currently in the store.
    pub fn len(&self) -> (r: usize)
        ensures
            r == self@.rows.len(),
    {
        self.rows.len()
    }

    /// True when the store holds no rows.
    pub fn is_empty(&self) -> (r: bool)
        ensures
            r == (self@.rows.len() == 0),
    {
        self.rows.len() == 0
    }

    /// A borrowing iterator over the rows in store order, valid until the
    /// next mutation.
    pub fn iter<'a>(&'a self) -> (r: std::collections::vec_deque::Iter<'a, R>)
        ensures
            vstd::std_specs::iter::IteratorSpec::remaining(&r) == self@.rows.as_ref(),
    {
        self.rows.iter()
    }

    /// Removes and returns the entire current row collection, in order,
    /// leaving the store empty.
    ///
    /// Unlike `retain` and `extend`, this wholesale removal deliberately
    /// leaves the Presentation Cache and the Dirty Flag untouched: `take`
    /// and `replace` are meant for owners that swap whole collections and
    /// drive the cache lifecycle themselves. An owner that keeps a cache
    /// built across such a call must tear it down itself.
    pub fn take(&mut self) -> (r: VecDeque<R>)
        ensures
            r@ == old(self)@.rows,
            final(self)@ == spec_take(old(self)@),
    {
        let mut out: VecDeque<R> = VecDeque::new();
        core::mem::swap(&mut self.rows, &mut out);
        out
    }

    /// Swaps in a new row collection and returns the previous one, in order.
    ///
    /// As for `take`, the Presentation Cache and the Dirty Flag are
    /// deliberately left untouched.
    pub fn replace(&mut self, new: VecDeque<R>) -> (r: VecDeque<R>)
        ensures
            r@ == old(self)@.rows,
            final(self)@ == spec_replace(old(self)@, new@),
    {
        let mut out = new;
        core::mem::swap(&mut self.rows, &mut out);
        out
    }

    /// Appends the given rows at the tail, preserving their order, and
    /// always invalidates the Presentation Cache: appended rows may need new
    /// index entries, so the cache is conservatively torn down whatever its
    /// prior state.
    pub fn extend(&mut self, items: VecDeque<R>)
        ensures
            final(self)@ == spec_extend(old(self)@, items@),
    {
        self.ui = None;
        let mut tail = items;
        self.rows.append(&mut tail);
    }

    /// Removes every row for which the predicate answers false, preserving
    /// the relative order of the survivors, and invalidates the Presentation
    /// Cache exactly when at least one row was removed: no-op filters never
    /// cost a cache rebuild.
    pub fn retain<F: Fn(&R) -> bool>(&mut self, f: F)
        requires
            forall|i: int|
                0 <= i < old(self)@.rows.len() ==> call_requires(f, (&old(self)@.rows[i],)),
        ensures
            exists|keep: Seq<bool>| retain_transition(old(self)@, final(self)@, f, keep),
            final(self)@.dirty == old(self)@.dirty,
            final(self)@.rows.len() <= old(self)@.rows.len(),
            final(self)@.rows.len() < old(self)@.rows.len() ==> final(self)@.cache is None,
            final(self)@.rows.len() == old(self)@.rows.len() ==> final(self)@.rows == old(
                self,
            )@.rows && final(self)@.cache == old(self)@.cache,
    {
        let ghost orig = self.rows@;
        let ghost mut keep: Seq<bool> = Seq::empty();
        let mut kept: VecDeque<R> = VecDeque::new();
        let mut removed_any = false;
        while self.rows.len() > 0
            invariant
                self@.dirty == old(self)@.dirty,
                self@.cache == old(self)@.cache,
                keep.len() + self.rows@.len() == orig.len(),
                self.rows@ == orig.subrange(keep.len() as int, orig.len() as int),
                forall|i: int| 0 <= i < orig.len() ==> call_requires(f, (&orig[i],)),
                forall|i: int| 0 <= i < keep.len() ==> call_ensures(f, (&orig[i],), keep[i]),
                kept@ == filter_rows(orig.take(keep.len() as int), keep),
                removed_any <==> !(forall|i: int| 0 <= i < keep.len() ==> keep[i]),
            decreases self.rows@.len(),
        {
            let row = self.rows.pop_front().unwrap();
            assert(row == orig[keep.len() as int]);
            let verdict = f(&row);
            proof {
                let prefix = orig.take(keep.len() as int);
                assert(orig.take(keep.len() as int + 1) =~= prefix.push(row));
                lemma_filter_rows_push(prefix, keep, row, verdict);
            }
            if verdict {
                kept.push_back(row);
            } else {
                removed_any = true;
            }
            proof {
                let prev = keep;
                keep = keep.push(verdict);
                assert(forall|i: int| 0 <= i < prev.len() ==> keep[i] == prev[i]);
                assert(keep[keep.len() - 1] == verdict);
            }
        }
        proof {
            assert(orig.take(orig.len() as int) =~= orig);
            lemma_filter_rows_len(orig, keep);
        }
        self.rows.append(&mut kept);
        if removed_any {
            self.ui = None;
        }
        proof {
            assert(self.rows@ =~= filter_rows(orig, keep));
            assert(self@ =~= spec_retain(old(self)@, keep));
            assert(retain_transition(old(self)@, self@, f, keep));
        }
    }

    /// Acknowledges modifications by clearing the Dirty Flag. Cache validity
    /// is independent state and is never cleared along with the flag.
    pub fn clear_dirty_flag(&mut self)
        ensures
            final(self)@ == spec_clear_dirty(old(self)@),
    {
        self.dirty_flag = false;
    }

    /// The current Dirty Flag value.
    pub fn is_dirty(&self) -> (r: bool)
        ensures
            r == self@.dirty,
    {
        self.dirty_flag
    }

    /// The external write capability for the Dirty Flag: the interactive
    /// editing path (outside this core's mutation gateway) records an
    /// unacknowledged modification.
    pub fn mark_dirty(&mut self)
        ensures
            final(self)@ == spec_mark_dirty(old(self)@),
    {
        self.dirty_flag = true;
    }

    /// True when the Presentation Cache is currently built.
    pub fn has_cache(&self) -> (r: bool)
        ensures
            r == self@.cache_present(),
    {
        self.ui.is_some()
    }

    /// The lazy rebuild step taken by the rendering boundary before a draw:
    /// builds a fresh cache (with no uncommitted edits) when absent, and
    /// leaves a present cache untouched.
    pub fn build_cache(&mut self)
        ensures
            final(self)@ == spec_build_cache(old(self)@),
    {
        if self.ui.is_none() {
            self.ui = Some(UiState { user_modification: false });
        }
    }

    /// True only if a Presentation Cache is present and it reports
    /// uncommitted interactive edits; false whenever the cache is absent.
    /// The uncommitted-edit condition is deliberately modelled as a single
    /// boolean flag owned by the cache.
    pub fn has_user_modification(&self) -> (r: bool)
        ensures
            r == self@.user_modification(),
    {
        match &self.ui {
            Some(u) => u.user_modification,
            None => false,
        }
    }

    /// Clears the uncommitted-edit condition on the cache if one is present;
    /// a no-op otherwise.
    pub fn clear_user_modification_flag(&mut self)
        ensures
            final(self)@ == spec_clear_user_modification(old(self)@),
    {
        match &mut self.ui {
            Some(u) => {
                u.user_modification = false;
            },
            None => {},
        }
    }

    /// The editing path recording an uncommitted interactive edit on a
    /// present cache; a no-op when the cache is absent, since edits only
    /// happen through a built cache.
    pub fn mark_user_modification(&mut self)
        ensures
            final(self)@ == spec_mark_user_modification(old(self)@),
    {
        match &mut self.ui {
            Some(u) => {
                u.user_modification = true;
            },
            None => {},
        }
    }
}

} // verus!
