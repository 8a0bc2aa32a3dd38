//! The image list view: rows of images, a selection, a refresh cadence
//! counter, and a one-shot error banner for failed removals.

use vstd::prelude::*;
use crate::events::{AppEvent, KeyCode, KeyPress, REFRESH_AFTER_TICK};
use crate::list::{
    advanced_by_next, advanced_by_previous, heights_total_fits, replaced, sum_prefix, ListState,
};
use crate::patterns::{regex_compiles, regex_find_text, CompiledPattern};
use crate::sorting::{insertion_sort, sort_spec, SortKey};
use crate::text::{
    count_text_lines, dec_text, find_sep, first_sep, i64_to_string, joined_lines, join_lines,
    seg_count, string_views, trim_plain, trim_spec,
};
use crate::time::{time_ago_from, time_ago_text};

verus! {

/// One listed image, reduced to the plain values the projection reads.
#[derive(Clone, Debug, PartialEq, Eq)]
pub struct ImageRecord {
    /// The image id as listed, a digest of the shape `kind:value`.
    pub id: String,
    pub repo_tags: Vec<String>,
    pub size: i64,
    pub created: i64,
}

impl SortKey for ImageRecord {
    /// Older images sort first; the caller reverses for newest-first.
    open spec fn key_le(&self, other: &Self) -> bool {
        self.created <= other.created
    }

    fn le(&self, other: &Self) -> (r: bool) {
        self.created <= other.created
    }
}

/// The id cell of an image row: the value part of a `kind:value` digest,
/// or the whole id when it has no separator.
pub open spec fn image_id_text(id: Seq<char>) -> Seq<char> {
    let a = first_sep(id, ':');
    if a == id.len() {
        id
    } else {
        let rest = id.skip(a + 1);
        rest.subrange(0, first_sep(rest, ':'))
    }
}

/// How an image display row reads off a listed record.
pub open spec fn image_row_matches_record(
    row: ImageTableRow,
    rec: ImageRecord,
    now: int,
) -> bool {
    &&& row.id@ == image_id_text(rec.id@)
    &&& row.tags@ == joined_lines(string_views(rec.repo_tags@))
    &&& row.size@ == dec_text(rec.size as int)
    &&& row.created@ == time_ago_text(now, rec.created as int)
}

/// One image, projected to display strings. `tags` holds one repository
/// tag per line.
#[derive(Clone, Debug, PartialEq, Eq)]
pub struct ImageTableRow {
    pub id: String,
    pub tags: String,
    pub size: String,
    pub created: String,
}

/// Rendered height of an image row: three lines for a row without tags,
/// else one line per tag plus the two border lines.
pub open spec fn image_row_height(tags: Seq<char>) -> usize {
    if seg_count(tags) == 0 {
        3usize
    } else if seg_count(tags) + 2 > usize::MAX {
        usize::MAX
    } else {
        (seg_count(tags) + 2) as usize
    }
}

/// The rendered heights of a row collection, in order.
pub open spec fn image_row_heights(items: Seq<ImageTableRow>) -> Seq<usize> {
    items.map_values(|r: ImageTableRow| image_row_height(r.tags@))
}

/// The total rendered height stays within the machine word.
pub open spec fn image_heights_fit(items: Seq<ImageTableRow>) -> bool {
    sum_prefix(image_row_heights(items), items.len() as int) <= usize::MAX
}

/// The command the image view emits for a key, given the selected row:
/// quit keys always emit, removal keys emit only with a selected row (the
/// force key asks for a forced removal), everything else emits nothing.
pub open spec fn image_key_command(code: KeyCode, sel: Option<ImageTableRow>) -> Option<
    AppEvent,
> {
    match code {
        KeyCode::Esc => Some(AppEvent::Quit),
        KeyCode::Delete => match sel {
            Some(row) => Some(AppEvent::RemoveImage(row.id, false)),
            None => None,
        },
        KeyCode::Char(c) => if c == 'q' {
            Some(AppEvent::Quit)
        } else if c == 'd' {
            match sel {
                Some(row) => Some(AppEvent::RemoveImage(row.id, false)),
                None => None,
            }
        } else if c == 'f' {
            match sel {
                Some(row) => Some(AppEvent::RemoveImage(row.id, true)),
                None => None,
            }
        } else {
            None
        },
        _ => None,
    }
}

/// How one key press moves the view from `pre` to `post` and what
/// command `r` it emits: a pending banner swallows the key; else
/// navigation moves the selection and the emitted command follows
/// [`image_key_command`].
pub open spec fn image_key_step(
    pre: ImageTable,
    post: ImageTable,
    code: KeyCode,
    r: Option<AppEvent>,
) -> bool {
    &&& (pre.err is Some ==> {
        &&& r is None
        &&& post.err is None
        &&& post.list == pre.list
        &&& post.skipped_ticks == pre.skipped_ticks
    })
    &&& (pre.err is None ==> {
        &&& post.err is None
        &&& post.skipped_ticks == pre.skipped_ticks
        &&& r == image_key_command(code, pre.spec_selected())
        &&& match code {
            KeyCode::Down => advanced_by_next(pre.list, post.list),
            KeyCode::Up => advanced_by_previous(pre.list, post.list),
            KeyCode::Char(c) => if c == 'j' {
                advanced_by_next(pre.list, post.list)
            } else if c == 'k' {
                advanced_by_previous(pre.list, post.list)
            } else {
                post.list == pre.list
            },
            _ => post.list == pre.list,
        }
    })
}

/// How one clock tick moves the view from `pre` to `post` and what
/// command `r` it emits: the cadence counter climbs until it passes its
/// threshold, then resets while a refresh is requested.
pub open spec fn image_tick_step(pre: ImageTable, post: ImageTable, r: Option<AppEvent>) -> bool {
    &&& post.list == pre.list
    &&& post.err == pre.err
    &&& (pre.skipped_ticks <= REFRESH_AFTER_TICK ==> post.skipped_ticks == pre.skipped_ticks + 1
        && r is None)
    &&& (pre.skipped_ticks > REFRESH_AFTER_TICK ==> post.skipped_ticks == 0 && r == Some(
        AppEvent::UpdateImages,
    ))
}

/// How a refresh result moves the view from `pre` to `post`: the rows are
/// replaced wholesale with recomputed heights, unless their total height
/// would not fit the machine word, in which case the old rows stay.
pub open spec fn image_refresh_step(pre: ImageTable, post: ImageTable, items: Seq<ImageTableRow>) -> bool {
    &&& post.err == pre.err
    &&& post.skipped_ticks == pre.skipped_ticks
    &&& (image_heights_fit(items) ==> replaced(pre.list, post.list, items, image_row_heights(items)))
    &&& (!image_heights_fit(items) ==> post.list == pre.list)
}

/// State of the image list view.
pub struct ImageTable {
    pub list: ListState<ImageTableRow>,
    /// Ticks seen since the last refresh request.
    pub skipped_ticks: u8,
    /// One-shot error banner; the next key press dismisses it.
    pub err: Option<String>,
}

impl ImageTable {
    pub open spec fn wf(&self) -> bool {
        self.list.wf()
    }

    /// The selected row, if the list is non-empty.
    pub open spec fn spec_selected(&self) -> Option<ImageTableRow> {
        if self.list.items@.len() > 0 {
            Some(self.list.items@[self.list.sel_int()])
        } else {
            None
        }
    }

    /// An empty image view.
    pub fn new() -> (r: ImageTable)
        ensures
            r.list.items@.len() == 0,
            r.list.selected is None,
            r.skipped_ticks == 0,
            r.err is None,
            r.wf(),
    {
        ImageTable { list: ListState::new(), skipped_ticks: 0, err: None }
    }

    /// Route one key press; a pending error banner swallows it.
    pub fn handle_key_event(&mut self, key: KeyPress) -> (r: Option<AppEvent>)
        requires
            old(self).wf(),
        ensures
            final(self).wf(),
            image_key_step(*old(self), *final(self), key.code, r),
    {
        if self.err.is_some() {
            self.err = None;
            return None;
        }
        match key.code {
            KeyCode::Esc => Some(AppEvent::Quit),
            KeyCode::Down => {
                self.list.next();
                None
            },
            KeyCode::Up => {
                self.list.previous();
                None
            },
            KeyCode::Delete => match self.list.selected_item() {
                Some(row) => Some(AppEvent::RemoveImage(row.id.clone(), false)),
                None => None,
            },
            KeyCode::Char(c) => if c == 'q' {
                Some(AppEvent::Quit)
            } else if c == 'j' {
                self.list.next();
                None
            } else if c == 'k' {
                self.list.previous();
                None
            } else if c == 'd' {
                match self.list.selected_item() {
                    Some(row) => Some(AppEvent::RemoveImage(row.id.clone(), false)),
                    None => None,
                }
            } else if c == 'f' {
                match self.list.selected_item() {
                    Some(row) => Some(AppEvent::RemoveImage(row.id.clone(), true)),
                    None => None,
                }
            } else {
                None
            },
            _ => None,
        }
    }

    /// One clock tick: requests an image list refresh on the cadence.
    pub fn tick(&mut self) -> (r: Option<AppEvent>)
        requires
            old(self).wf(),
        ensures
            final(self).wf(),
            image_tick_step(*old(self), *final(self), r),
    {
        if self.skipped_ticks <= REFRESH_AFTER_TICK {
            self.skipped_ticks = self.skipped_ticks + 1;
            return None;
        }
        self.skipped_ticks = 0;
        Some(AppEvent::UpdateImages)
    }

    /// Replace the rows wholesale; heights are recomputed from the tags.
    pub fn update_with_items(&mut self, items: Vec<ImageTableRow>)
        requires
            old(self).wf(),
        ensures
            final(self).wf(),
            image_refresh_step(*old(self), *final(self), items@),
    {
        let heights = compute_image_heights(&items);
        if heights_total_fits(&heights) {
            self.list.replace_items(items, heights);
        }
    }

    /// The selected row, if any.
    pub fn get_selected_image(&self) -> (r: Option<&ImageTableRow>)
        requires
            self.wf(),
        ensures
            r is Some <==> self.spec_selected() is Some,
            r matches Some(row) ==> Some(*row) == self.spec_selected(),
    {
        self.list.selected_item()
    }

    /// Footer text: the pending error banner if one is set, else the key
    /// legend.
    pub fn footer_text(&self) -> (r: String)
        ensures
            match self.err {
                Some(e) => r == e,
                None => r@ == " <Del/D> remove | <F> force remove"@,
            },
    {
        match &self.err {
            Some(e) => e.clone(),
            None => " <Del/D> remove | <F> force remove".to_owned(),
        }
    }

    /// Raise the one-shot error banner for a failed image removal, as
    /// [`image_err_banner`] states.
    pub fn show_remove_img_err(&mut self, err: String)
        ensures
            final(self).list == old(self).list,
            final(self).skipped_ticks == old(self).skipped_ticks,
            final(self).err matches Some(e) && e@ == image_err_banner(err@),
    {
        let found = match CompiledPattern::compile(
            r"\((?:cannot|must) be forced\) - image is being used by (?:running|stopped) container \w+",
        ) {
            Some(p) => p.find_first(err.as_str()),
            None => None,
        };
        let msg = match found {
            Some(m) => m,
            None => "Something went wrong...".to_owned(),
        };
        let mut out = "[ERR] ".to_owned();
        out.append(trim_plain(msg.as_str()).as_str());
        self.err = Some(out);
    }
}

impl ImageTableRow {
    /// Project one listed record to a display row, seen from the clock
    /// reading `now`, as [`image_row_matches_record`] states.
    pub fn from(record: &ImageRecord, now: i64) -> (r: ImageTableRow)
        ensures
            image_row_matches_record(r, *record, now as int),
    {
        let n = record.id.unicode_len();
        let a = find_sep(record.id.as_str(), ':');
        let id = if a == n {
            record.id.clone()
        } else {
            let rest = record.id.as_str().substring_char(a + 1, n);
            let b = find_sep(rest, ':');
            proof {
                assert(rest@ =~= record.id@.skip(a + 1));
            }
            rest.substring_char(0, b).to_owned()
        };
        let tags = join_lines(&record.repo_tags);
        let size = i64_to_string(record.size);
        let created = time_ago_from(now, record.created);
        ImageTableRow { id, tags, size, created }
    }

    /// Project a whole daemon listing, newest image first, each record
    /// read off as [`image_row_matches_record`] states, seen from the
    /// clock reading `now`.
    pub fn from_list(records: Vec<ImageRecord>, now: i64) -> (r: Vec<ImageTableRow>)
        ensures
            r@.len() == sort_spec(records@).reverse().len(),
            forall|i: int|
                0 <= i < r@.len() ==> image_row_matches_record(
                    #[trigger] r@[i],
                    sort_spec(records@).reverse()[i],
                    now as int,
                ),
    {
        let ghost records_view = records@;
        let sorted = insertion_sort(records);
        let n = sorted.len();
        let mut rows: Vec<ImageTableRow> = Vec::new();
        let mut i: usize = 0;
        while i < n
            invariant
                i <= n,
                n == sorted@.len(),
                sorted@ == sort_spec(records_view),
                rows@.len() == i,
                forall|k: int|
                    0 <= k < i ==> image_row_matches_record(
                        #[trigger] rows@[k],
                        sorted@[n - 1 - k],
                        now as int,
                    ),
            decreases n - i,
        {
            rows.push(ImageTableRow::from(&sorted[n - 1 - i], now));
            i = i + 1;
        }
        proof {
            assert(sort_spec(records_view).reverse().len() == n);
            assert(forall|k: int|
                0 <= k < n ==> sort_spec(records_view).reverse()[k] == sorted@[n - 1 - k]);
        }
        rows
    }
}

/// The banner shown after a failed image removal: the in-use explanation
/// picked out of the daemon's message, trimmed; or a generic line when
/// the message has no such part.
pub open spec fn image_err_banner(err: Seq<char>) -> Seq<char> {
    let pat =
        r"\((?:cannot|must) be forced\) - image is being used by (?:running|stopped) container \w+"@;
    let found = if regex_compiles(pat) {
        regex_find_text(pat, err)
    } else {
        None
    };
    "[ERR] "@ + trim_spec(
        match found {
            Some(m) => m,
            None => "Something went wrong..."@,
        },
    )
}

/// The rendered height of each row, as [`image_row_heights`] states.
fn compute_image_heights(items: &Vec<ImageTableRow>) -> (r: Vec<usize>)
    ensures
        r@ == image_row_heights(items@),
{
    let mut heights: Vec<usize> = Vec::new();
    let mut i: usize = 0;
    while i < items.len()
        invariant
            i <= items@.len(),
            heights@ == image_row_heights(items@.subrange(0, i as int)),
        decreases items@.len() - i,
    {
        let segs = count_text_lines(items[i].tags.as_str());
        let h: usize = if segs == 0 {
            3
        } else if segs > usize::MAX - 2 {
            usize::MAX
        } else {
            segs + 2
        };
        heights.push(h);
        proof {
            assert(items@.subrange(0, i + 1).drop_last() =~= items@.subrange(0, i as int));
            assert(heights@ =~= image_row_heights(items@.subrange(0, i + 1)));
        }
        i = i + 1;
    }
    proof {
        assert(items@.subrange(0, items@.len() as int) =~= items@);
    }
    heights
}

} // verus!
