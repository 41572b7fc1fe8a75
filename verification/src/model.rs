//! Ghost model of the row store and of every mutation-gateway operation.
//!
//! Each executable operation on [`crate::store::Spreadsheet`] promises in its
//! contract that the store's view steps by the corresponding transition
//! function defined here. The proof functions at the bottom state the laws
//! that the transitions obey: when the Presentation Cache survives a
//! `retain`, how row counts evolve over arbitrary operation sequences, and
//! that `take`/`replace` and `clear_dirty_flag` behave as advertised.

use vstd::prelude::*;

verus! {

/// Ghost model of the Presentation Cache. The index/selection/edit-buffer
/// internals are owned by the rendering boundary and opaque to this core;
/// the core tracks only whether the cache exists and whether it holds
/// uncommitted interactive edits.
#[verifier::ext_equal]
pub struct CacheModel {
    /// True while the cache holds uncommitted interactive edits.
    pub user_modification: bool,
}

/// Ghost model of the whole store: the ordered rows, the optional
/// Presentation Cache, and the Dirty Flag.
#[verifier::ext_equal]
pub struct StoreModel<R> {
    pub rows: Seq<R>,
    pub cache: Option<CacheModel>,
    pub dirty: bool,
}

impl<R> StoreModel<R> {
    /// A freshly constructed store: the given rows, no cache, Dirty Flag
    /// clear.
    pub open spec fn init(rows: Seq<R>) -> StoreModel<R> {
        StoreModel { rows, cache: None, dirty: false }
    }

    pub open spec fn cache_present(self) -> bool {
        self.cache is Some
    }

    /// The user-modification condition; false whenever the cache is absent.
    pub open spec fn user_modification(self) -> bool {
        match self.cache {
            Some(c) => c.user_modification,
            None => false,
        }
    }
}

/// The rows surviving a retain pass: `rows[i]` is kept exactly when
/// `keep[i]`, and survivors stay in their relative order.
pub open spec fn filter_rows<R>(rows: Seq<R>, keep: Seq<bool>) -> Seq<R>
    recommends
        keep.len() == rows.len(),
    decreases rows.len(),
{
    if rows.len() == 0 {
        Seq::empty()
    } else {
        let rest = filter_rows(rows.drop_last(), keep.drop_last());
        if keep.last() {
            rest.push(rows.last())
        } else {
            rest
        }
    }
}

/// How many marks in `keep` are true.
pub open spec fn count_true(keep: Seq<bool>) -> nat
    decreases keep.len(),
{
    if keep.len() == 0 {
        0
    } else {
        count_true(keep.drop_last()) + if keep.last() {
            1nat
        } else {
            0nat
        }
    }
}

/// `retain`: keeps the rows marked true, and invalidates the Presentation
/// Cache exactly when at least one row was removed. The Dirty Flag is
/// untouched.
pub open spec fn spec_retain<R>(m: StoreModel<R>, keep: Seq<bool>) -> StoreModel<R>
    recommends
        keep.len() == m.rows.len(),
{
    StoreModel {
        rows: filter_rows(m.rows, keep),
        cache: if filter_rows(m.rows, keep).len() == m.rows.len() {
            m.cache
        } else {
            None
        },
        dirty: m.dirty,
    }
}

/// `extend`: appends the items at the tail and always invalidates the
/// Presentation Cache, whatever its prior state.
pub open spec fn spec_extend<R>(m: StoreModel<R>, items: Seq<R>) -> StoreModel<R> {
    StoreModel { rows: m.rows + items, cache: None, dirty: m.dirty }
}

/// `take`: removes all rows. The Presentation Cache and the Dirty Flag are
/// deliberately untouched, an asymmetry with `retain`/`extend`; see the
/// note on [`crate::store::Spreadsheet::take`].
pub open spec fn spec_take<R>(m: StoreModel<R>) -> StoreModel<R> {
    StoreModel { rows: Seq::empty(), cache: m.cache, dirty: m.dirty }
}

/// `replace`: swaps in a whole new row collection. Cache and Dirty Flag are
/// untouched, as for `spec_take`.
pub open spec fn spec_replace<R>(m: StoreModel<R>, new_rows: Seq<R>) -> StoreModel<R> {
    StoreModel { rows: new_rows, cache: m.cache, dirty: m.dirty }
}

/// `clear_dirty_flag`: acknowledges modifications. Cache validity is
/// independent state and is never implicitly cleared with the flag.
pub open spec fn spec_clear_dirty<R>(m: StoreModel<R>) -> StoreModel<R> {
    StoreModel { rows: m.rows, cache: m.cache, dirty: false }
}

/// The external write capability for the Dirty Flag (exercised by the
/// interactive editing path, outside the mutation gateway).
pub open spec fn spec_mark_dirty<R>(m: StoreModel<R>) -> StoreModel<R> {
    StoreModel { rows: m.rows, cache: m.cache, dirty: true }
}

/// Lazy rebuild of the Presentation Cache: builds a fresh cache (with no
/// uncommitted edits) when absent, and leaves a present cache untouched.
pub open spec fn spec_build_cache<R>(m: StoreModel<R>) -> StoreModel<R> {
    StoreModel {
        rows: m.rows,
        cache: match m.cache {
            Some(c) => Some(c),
            None => Some(CacheModel { user_modification: false }),
        },
        dirty: m.dirty,
    }
}

/// `clear_user_modification_flag`: clears the uncommitted-edit condition on
/// a present cache; a no-op when the cache is absent.
pub open spec fn spec_clear_user_modification<R>(m: StoreModel<R>) -> StoreModel<R> {
    StoreModel {
        rows: m.rows,
        cache: match m.cache {
            Some(_) => Some(CacheModel { user_modification: false }),
            None => None,
        },
        dirty: m.dirty,
    }
}

/// The editing path recording an uncommitted edit on a present cache; a
/// no-op when the cache is absent (edits only happen through a built cache).
pub open spec fn spec_mark_user_modification<R>(m: StoreModel<R>) -> StoreModel<R> {
    StoreModel {
        rows: m.rows,
        cache: match m.cache {
            Some(_) => Some(CacheModel { user_modification: true }),
            None => None,
        },
        dirty: m.dirty,
    }
}

/// Filtering one more row appends it to the survivors exactly when its mark
/// is true.
pub proof fn lemma_filter_rows_push<R>(rows: Seq<R>, keep: Seq<bool>, x: R, b: bool)
    requires
        keep.len() == rows.len(),
    ensures
        filter_rows(rows.push(x), keep.push(b)) == (if b {
            filter_rows(rows, keep).push(x)
        } else {
            filter_rows(rows, keep)
        }),
{
    assert(rows.push(x).drop_last() =~= rows);
    assert(keep.push(b).drop_last() =~= keep);
}

/// The survivors of a retain pass number exactly the true marks: never more
/// rows than before, the full count exactly when every mark is true, and in
/// that case the rows themselves are unchanged.
pub proof fn lemma_filter_rows_len<R>(rows: Seq<R>, keep: Seq<bool>)
    requires
        keep.len() == rows.len(),
    ensures
        filter_rows(rows, keep).len() == count_true(keep),
        count_true(keep) <= rows.len(),
        count_true(keep) == rows.len() <==> (forall|i: int| 0 <= i < keep.len() ==> keep[i]),
        count_true(keep) == rows.len() ==> filter_rows(rows, keep) == rows,
    decreases rows.len(),
{
    if rows.len() == 0 {
        assert(filter_rows(rows, keep) =~= rows);
    } else {
        lemma_filter_rows_len(rows.drop_last(), keep.drop_last());
        assert(forall|i: int| 0 <= i < keep.len() - 1 ==> keep.drop_last()[i] == keep[i]);
        if count_true(keep) == rows.len() {
            assert(keep.last());
            assert(forall|i: int| 0 <= i < keep.len() ==> keep[i]);
            assert(filter_rows(rows, keep) =~= rows);
        }
        if forall|i: int| 0 <= i < keep.len() ==> keep[i] {
            assert(forall|i: int| 0 <= i < keep.drop_last().len() ==> keep.drop_last()[i]);
        }
    }
}

/// `retain` invalidates the Presentation Cache exactly when it removes a
/// row: if at least one row is marked for removal the cache is absent
/// afterwards; if every row is kept, both the rows and a previously present
/// cache are left exactly as they were.
pub proof fn lemma_retain_cache_invalidation<R>(m: StoreModel<R>, keep: Seq<bool>)
    requires
        keep.len() == m.rows.len(),
    ensures
        (exists|i: int| 0 <= i < keep.len() && !keep[i]) ==> spec_retain(m, keep).cache is None,
        (forall|i: int| 0 <= i < keep.len() ==> keep[i]) ==> spec_retain(m, keep).cache
            == m.cache,
        (forall|i: int| 0 <= i < keep.len() ==> keep[i]) ==> spec_retain(m, keep).rows == m.rows,
{
    lemma_filter_rows_len(m.rows, keep);
}

/// `extend` always leaves the Presentation Cache absent, whatever its prior
/// state, while appending the items in order at the tail.
pub proof fn lemma_extend_invalidates<R>(m: StoreModel<R>, items: Seq<R>)
    ensures
        spec_extend(m, items).cache is None,
        spec_extend(m, items).rows == m.rows + items,
        spec_extend(m, items).dirty == m.dirty,
{
}

/// `take` followed by `replace(x)` equals, for row content purposes,
/// observing the store's rows and then setting them to `x`: the store is
/// empty in between, and afterwards holds exactly `x` with the cache and the
/// Dirty Flag carried through unchanged. (`take`'s own contract states that
/// its returned value is the prior row content.)
pub proof fn lemma_take_then_replace<R>(m: StoreModel<R>, x: Seq<R>)
    ensures
        spec_take(m).rows == Seq::<R>::empty(),
        spec_replace(spec_take(m), x) == spec_replace(m, x),
        spec_replace(spec_take(m), x).rows == x,
        spec_replace(spec_take(m), x).cache == m.cache,
        spec_replace(spec_take(m), x).dirty == m.dirty,
{
    assert(spec_replace(spec_take(m), x) =~= spec_replace(m, x));
}

/// Clearing the Dirty Flag is idempotent: clearing twice yields the same
/// state as clearing once.
pub proof fn lemma_clear_dirty_idempotent<R>(m: StoreModel<R>)
    ensures
        spec_clear_dirty(spec_clear_dirty(m)) == spec_clear_dirty(m),
{
    assert(spec_clear_dirty(spec_clear_dirty(m)) =~= spec_clear_dirty(m));
}

/// One mutation-gateway operation (or dirty-flag / cache-lifecycle call),
/// as it acts on the ghost model. A `Retain` carries the per-row verdicts of
/// its predicate.
pub enum StoreOp<R> {
    Extend(Seq<R>),
    Retain(Seq<bool>),
    Take,
    Replace(Seq<R>),
    ClearDirty,
    MarkDirty,
    BuildCache,
    ClearUserModification,
    MarkUserModification,
}

pub open spec fn apply_op<R>(m: StoreModel<R>, op: StoreOp<R>) -> StoreModel<R> {
    match op {
        StoreOp::Extend(items) => spec_extend(m, items),
        StoreOp::Retain(keep) => spec_retain(m, keep),
        StoreOp::Take => spec_take(m),
        StoreOp::Replace(new_rows) => spec_replace(m, new_rows),
        StoreOp::ClearDirty => spec_clear_dirty(m),
        StoreOp::MarkDirty => spec_mark_dirty(m),
        StoreOp::BuildCache => spec_build_cache(m),
        StoreOp::ClearUserModification => spec_clear_user_modification(m),
        StoreOp::MarkUserModification => spec_mark_user_modification(m),
    }
}

pub open spec fn apply_ops<R>(m: StoreModel<R>, ops: Seq<StoreOp<R>>) -> StoreModel<R>
    decreases ops.len(),
{
    if ops.len() == 0 {
        m
    } else {
        apply_ops(apply_op(m, ops[0]), ops.drop_first())
    }
}

/// Every `Retain` in the sequence carries one verdict per row present when
/// it runs.
pub open spec fn ops_well_formed<R>(m: StoreModel<R>, ops: Seq<StoreOp<R>>) -> bool
    decreases ops.len(),
{
    ops.len() == 0 || {
        &&& (ops[0] matches StoreOp::Retain(keep) ==> keep.len() == m.rows.len())
        &&& ops_well_formed(apply_op(m, ops[0]), ops.drop_first())
    }
}

/// The row count that a sequence of operations must leave behind, computed
/// from the operations alone: `Extend` adds its items, `Retain` leaves its
/// true verdicts, `Take` empties the store, `Replace` installs its new rows,
/// and flag or cache calls change nothing.
pub open spec fn surviving_count<R>(n: nat, ops: Seq<StoreOp<R>>) -> nat
    decreases ops.len(),
{
    if ops.len() == 0 {
        n
    } else {
        let next = match ops[0] {
            StoreOp::Extend(items) => n + items.len(),
            StoreOp::Retain(keep) => count_true(keep),
            StoreOp::Take => 0nat,
            StoreOp::Replace(new_rows) => new_rows.len(),
            _ => n,
        };
        surviving_count(next, ops.drop_first())
    }
}

/// Over any well-formed sequence of the operations above, the model's row
/// count always equals the true count of surviving rows, computed
/// independently from the operations alone.
pub proof fn lemma_length_tracks_operations<R>(m: StoreModel<R>, ops: Seq<StoreOp<R>>)
    requires
        ops_well_formed(m, ops),
    ensures
        apply_ops(m, ops).rows.len() == surviving_count(m.rows.len(), ops),
    decreases ops.len(),
{
    if ops.len() > 0 {
        let m1 = apply_op(m, ops[0]);
        match ops[0] {
            StoreOp::Retain(keep) => {
                lemma_filter_rows_len(m.rows, keep);
            },
            _ => {},
        }
        lemma_length_tracks_operations(m1, ops.drop_first());
    }
}

/// Construction from an initial ordered row sequence yields exactly those
/// rows in that order, an absent Presentation Cache, and a false Dirty Flag.
pub proof fn lemma_construction<R>(rows: Seq<R>)
    ensures
        StoreModel::init(rows).rows == rows,
        StoreModel::init(rows).cache is None,
        !StoreModel::init(rows).dirty,
{
}

} // verus!
