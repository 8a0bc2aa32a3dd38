//! Selectable virtualized list state.
//!
//! Tracks an ordered collection of rows, the selected row, the rendered
//! height of every row above the fold, and the scroll offset that keeps the
//! selected row visible. The collection is replaced wholesale on every
//! refresh, never patched in place.

use vstd::prelude::*;

verus! {

/// Sum of the first `n` entries of a height sequence.
pub open spec fn sum_prefix(heights: Seq<usize>, n: int) -> int
    decreases n,
{
    if n <= 0 {
        0
    } else {
        sum_prefix(heights, n - 1) + heights[n - 1]
    }
}

/// Prefix sums of heights are non-negative and grow with the prefix length.
pub proof fn lemma_sum_prefix_mono(heights: Seq<usize>, a: int, b: int)
    requires
        0 <= a <= b,
    ensures
        0 <= sum_prefix(heights, a) <= sum_prefix(heights, b),
    decreases b,
{
    if b > 0 {
        if a == b {
            lemma_sum_prefix_mono(heights, a - 1, b - 1);
        } else {
            lemma_sum_prefix_mono(heights, a, b - 1);
        }
    }
}

/// The row selected after a circular move one step down.
pub open spec fn wrap_next(i: int, len: int) -> int {
    if i >= len - 1 {
        0
    } else {
        i + 1
    }
}

/// The row selected after a circular move one step up.
pub open spec fn wrap_prev(i: int, len: int) -> int {
    if i == 0 {
        len - 1
    } else {
        i - 1
    }
}

/// The selection after the items are replaced wholesale.
///
/// An empty new collection clears the selection. A list that was empty and
/// becomes non-empty lands on row zero. Otherwise the prior selection is
/// kept while still in range and clamped to the new last row when the new
/// collection is shorter.
pub open spec fn replaced_selection(
    old_len: int,
    old_sel: Option<usize>,
    new_len: int,
) -> Option<usize> {
    if new_len == 0 {
        None
    } else if old_len == 0 {
        Some(0usize)
    } else {
        match old_sel {
            Some(i) => if i < new_len {
                Some(i)
            } else {
                Some((new_len - 1) as usize)
            },
            None => Some(0usize),
        }
    }
}

/// How a list state changes under a circular move one row down: rows and
/// heights are untouched, an empty list is left alone, and otherwise the
/// selection wraps forward with the scroll offset recomputed for it.
pub open spec fn advanced_by_next<R>(pre: ListState<R>, post: ListState<R>) -> bool {
    &&& post.items@ == pre.items@
    &&& post.row_heights@ == pre.row_heights@
    &&& (pre.items@.len() == 0 ==> post == pre)
    &&& (pre.items@.len() > 0 ==> {
        &&& post.selected == Some(wrap_next(pre.sel_int(), pre.items@.len() as int) as usize)
        &&& post.scroll_offset == sum_prefix(
            pre.row_heights@,
            wrap_next(pre.sel_int(), pre.items@.len() as int),
        )
    })
}

/// How a list state changes under a circular move one row up; the mirror
/// image of [`advanced_by_next`].
pub open spec fn advanced_by_previous<R>(pre: ListState<R>, post: ListState<R>) -> bool {
    &&& post.items@ == pre.items@
    &&& post.row_heights@ == pre.row_heights@
    &&& (pre.items@.len() == 0 ==> post == pre)
    &&& (pre.items@.len() > 0 ==> {
        &&& post.selected == Some(wrap_prev(pre.sel_int(), pre.items@.len() as int) as usize)
        &&& post.scroll_offset == sum_prefix(
            pre.row_heights@,
            wrap_prev(pre.sel_int(), pre.items@.len() as int),
        )
    })
}

/// How a list state changes when its rows are replaced wholesale by
/// `items`, whose rendered heights are `heights`: the trailing height is
/// dropped from the bookkeeping, the selection follows
/// [`replaced_selection`], and the scroll offset is recomputed.
pub open spec fn replaced<R>(
    pre: ListState<R>,
    post: ListState<R>,
    items: Seq<R>,
    heights: Seq<usize>,
) -> bool {
    &&& post.items@ == items
    &&& post.row_heights@ == if items.len() == 0 {
        Seq::<usize>::empty()
    } else {
        heights.subrange(0, items.len() - 1)
    }
    &&& post.selected == replaced_selection(pre.items@.len() as int, pre.selected, items.len() as int)
    &&& post.scroll_offset == sum_prefix(post.row_heights@, post.sel_int())
}

/// State of one virtualized, selectable list of rows of type `R`.
pub struct ListState<R> {
    /// The rows, in display order.
    pub items: Vec<R>,
    /// The selected row, if any.
    pub selected: Option<usize>,
    /// Rendered height of each row except the trailing one; only rows above
    /// the fold take part in the offset arithmetic.
    pub row_heights: Vec<usize>,
    /// Sum of the heights of the rows above the selected one.
    pub scroll_offset: usize,
}

impl<R> ListState<R> {
    /// The selected index as a mathematical integer, zero when nothing is
    /// selected.
    pub open spec fn sel_int(&self) -> int {
        match self.selected {
            Some(i) => i as int,
            None => 0,
        }
    }

    /// Structural invariant of the list state.
    ///
    /// A row is selected exactly when the list is non-empty, the selection
    /// is in range, there is one stored height per row above the last, the
    /// total height fits the machine word, and the scroll offset is the sum
    /// of the heights above the selection.
    pub open spec fn wf(&self) -> bool {
        &&& (self.selected is None <==> self.items@.len() == 0)
        &&& (self.selected matches Some(i) ==> (i as int) < self.items@.len())
        &&& self.row_heights@.len() == if self.items@.len() == 0 {
            0int
        } else {
            self.items@.len() - 1
        }
        &&& sum_prefix(self.row_heights@, self.row_heights@.len() as int) <= usize::MAX
        &&& self.scroll_offset == sum_prefix(self.row_heights@, self.sel_int())
    }

    /// A fresh list with no rows and no selection.
    pub fn new() -> (r: ListState<R>)
        ensures
            r.items@.len() == 0,
            r.selected is None,
            r.row_heights@.len() == 0,
            r.scroll_offset == 0,
            r.wf(),
    {
        ListState { items: Vec::new(), selected: None, row_heights: Vec::new(), scroll_offset: 0 }
    }

    /// Select the given row and recompute the scroll offset as the sum of
    /// the heights of the rows above it.
    pub fn select(&mut self, index: usize)
        requires
            old(self).wf(),
            (index as int) < old(self).items@.len(),
        ensures
            final(self).items@ == old(self).items@,
            final(self).row_heights@ == old(self).row_heights@,
            final(self).selected == Some(index),
            final(self).scroll_offset == sum_prefix(old(self).row_heights@, index as int),
            final(self).wf(),
    {
        self.selected = Some(index);
        self.scroll_offset = sum_heights_below(&self.row_heights, index);
    }

    /// Move the selection one row down, wrapping from the last row to row
    /// zero. Does nothing on an empty list.
    pub fn next(&mut self)
        requires
            old(self).wf(),
        ensures
            advanced_by_next(*old(self), *final(self)),
            final(self).wf(),
    {
        if self.items.len() == 0 {
            return ;
        }
        let index: usize = match self.selected {
            Some(i) => if i >= self.items.len() - 1 {
                0
            } else {
                i + 1
            },
            None => 0,
        };
        self.select(index);
    }

    /// Move the selection one row up, wrapping from row zero to the last
    /// row. Does nothing on an empty list.
    pub fn previous(&mut self)
        requires
            old(self).wf(),
        ensures
            advanced_by_previous(*old(self), *final(self)),
            final(self).wf(),
    {
        if self.items.len() == 0 {
            return ;
        }
        let index: usize = match self.selected {
            Some(i) => if i == 0 {
                self.items.len() - 1
            } else {
                i - 1
            },
            None => 0,
        };
        self.select(index);
    }

    /// Replace the rows wholesale.
    ///
    /// `heights` carries the rendered height of each new row; the trailing
    /// row's height is dropped from the stored bookkeeping. The selection
    /// follows [`replaced_selection`] and the scroll offset is recomputed
    /// for the new heights.
    pub fn replace_items(&mut self, new_items: Vec<R>, heights: Vec<usize>)
        requires
            old(self).wf(),
            heights@.len() == new_items@.len(),
            sum_prefix(heights@, heights@.len() as int) <= usize::MAX,
        ensures
            replaced(*old(self), *final(self), new_items@, heights@),
            final(self).wf(),
    {
        let was_empty = self.items.len() == 0;
        let old_selected = self.selected;
        let new_len = new_items.len();
        self.items = new_items;
        let mut trimmed = heights;
        if new_len == 0 {
            trimmed.truncate(0);
        } else {
            trimmed.truncate(new_len - 1);
        }
        proof {
            assert(trimmed@ =~= if new_len == 0 {
                Seq::<usize>::empty()
            } else {
                heights@.subrange(0, new_len - 1)
            });
            lemma_sum_prefix_subrange(heights@, trimmed@.len() as int);
        }
        self.row_heights = trimmed;
        let index: usize = if new_len == 0 {
            self.selected = None;
            self.scroll_offset = 0;
            return ;
        } else if was_empty {
            0
        } else {
            match old_selected {
                Some(i) => if i < new_len {
                    i
                } else {
                    new_len - 1
                },
                None => 0,
            }
        };
        self.selected = Some(index);
        self.scroll_offset = sum_heights_below(&self.row_heights, index);
    }

    /// The selected row, if any; yields a row exactly when the list is
    /// non-empty.
    pub fn selected_item(&self) -> (r: Option<&R>)
        requires
            self.wf(),
        ensures
            r is Some <==> self.items@.len() > 0,
            r matches Some(x) ==> self.selected matches Some(i) && *x == self.items@[i as int],
    {
        match self.selected {
            Some(i) => Some(&self.items[i]),
            None => None,
        }
    }

    /// Scrollbar geometry: total height of the rows above the fold, and the
    /// current scroll position within it.
    pub fn scrollbar_geometry(&self) -> (r: (usize, usize))
        requires
            self.wf(),
        ensures
            r.0 == sum_prefix(self.row_heights@, self.row_heights@.len() as int),
            r.1 == self.scroll_offset,
    {
        let content_length = sum_heights_below(&self.row_heights, self.row_heights.len());
        (content_length, self.scroll_offset)
    }

    /// Number of rows.
    pub fn len(&self) -> (r: usize)
        ensures
            r == self.items@.len(),
    {
        self.items.len()
    }
}

/// Sum of the first `upto` stored heights, computed without overflow.
fn sum_heights_below(heights: &Vec<usize>, upto: usize) -> (r: usize)
    requires
        upto <= heights@.len(),
        sum_prefix(heights@, heights@.len() as int) <= usize::MAX,
    ensures
        r == sum_prefix(heights@, upto as int),
{
    let mut acc: usize = 0;
    let mut j: usize = 0;
    while j < upto
        invariant
            j <= upto <= heights@.len(),
            sum_prefix(heights@, heights@.len() as int) <= usize::MAX,
            acc == sum_prefix(heights@, j as int),
        decreases upto - j,
    {
        proof {
            lemma_sum_prefix_mono(heights@, j + 1, heights@.len() as int);
        }
        acc = acc + heights[j];
        j = j + 1;
    }
    acc
}

/// Whether the heights sum to at most the machine word.
pub fn heights_total_fits(heights: &Vec<usize>) -> (r: bool)
    ensures
        r == (sum_prefix(heights@, heights@.len() as int) <= usize::MAX),
{
    let mut total: usize = 0;
    let mut i: usize = 0;
    while i < heights.len()
        invariant
            i <= heights@.len(),
            total == sum_prefix(heights@, i as int),
        decreases heights@.len() - i,
    {
        let h = heights[i];
        if total > usize::MAX - h {
            proof {
                lemma_sum_prefix_mono(heights@, i + 1, heights@.len() as int);
            }
            return false;
        }
        total = total + h;
        i = i + 1;
    }
    true
}

/// Cutting a height sequence after `n` entries keeps every prefix sum up to
/// `n` unchanged.
proof fn lemma_sum_prefix_subrange(heights: Seq<usize>, n: int)
    requires
        0 <= n <= heights.len(),
    ensures
        forall|k: int|
            0 <= k <= n ==> #[trigger] sum_prefix(heights.subrange(0, n), k) == sum_prefix(
                heights,
                k,
            ),
{
    assert forall|k: int| 0 <= k <= n implies #[trigger] sum_prefix(heights.subrange(0, n), k)
        == sum_prefix(heights, k) by {
        lemma_sum_prefix_subrange_one(heights, n, k);
    }
}

proof fn lemma_sum_prefix_subrange_one(heights: Seq<usize>, n: int, k: int)
    requires
        0 <= k <= n <= heights.len(),
    ensures
        sum_prefix(heights.subrange(0, n), k) == sum_prefix(heights, k),
    decreases k,
{
    if k > 0 {
        lemma_sum_prefix_subrange_one(heights, n, k - 1);
    }
}

/// A row is selected exactly when the list holds rows: an empty list
/// selects nothing, a non-empty list always selects something.
pub proof fn lemma_selected_iff_nonempty<R>(l: ListState<R>)
    requires
        l.wf(),
    ensures
        l.selected is None <==> l.items@.len() == 0,
{
}

/// Moving down one row and then up one row restores the selection, and so
/// does moving up and then down; holds for every selection of a non-empty
/// list.
pub proof fn lemma_next_previous_inverse(i: int, len: int)
    requires
        len > 0,
        0 <= i < len,
    ensures
        wrap_prev(wrap_next(i, len), len) == i,
        wrap_next(wrap_prev(i, len), len) == i,
{
}

/// Replacing the rows twice with the same collection and heights leaves the
/// same selection, and therefore the same scroll offset, as replacing them
/// once; the stored heights agree because both runs store the same trimmed
/// height sequence.
pub proof fn lemma_replace_items_idempotent(
    old_len: int,
    old_sel: Option<usize>,
    new_len: int,
    heights: Seq<usize>,
)
    requires
        old_len >= 0,
        new_len >= 0,
    ensures
        replaced_selection(new_len, replaced_selection(old_len, old_sel, new_len), new_len)
            == replaced_selection(old_len, old_sel, new_len),
        sum_prefix(
            heights,
            match replaced_selection(new_len, replaced_selection(old_len, old_sel, new_len), new_len) {
                Some(i) => i as int,
                None => 0,
            },
        ) == sum_prefix(
            heights,
            match replaced_selection(old_len, old_sel, new_len) {
                Some(i) => i as int,
                None => 0,
            },
        ),
{
}

} // verus!
