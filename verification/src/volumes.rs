//! The volume list view: rows of volumes at a constant rendered height, a
//! selection, a refresh cadence counter, and a one-shot error banner for
//! failed removals.

use vstd::prelude::*;
use crate::events::{AppEvent, KeyCode, KeyPress, REFRESH_AFTER_TICK};
use crate::list::{
    advanced_by_next, advanced_by_previous, heights_total_fits, replaced, sum_prefix, ListState,
};
use crate::patterns::{regex_capture_text, regex_compiles, CompiledPattern};
use crate::sorting::{chars_le, insertion_sort, sort_spec, str_chars_le, SortKey};
use crate::text::{prefix_chars, take_prefix};

verus! {

/// One listed volume, reduced to the plain values the projection reads.
#[derive(Clone, Debug, PartialEq, Eq)]
pub struct VolumeRecord {
    pub name: String,
    pub driver: String,
    pub created_at: Option<String>,
}

impl SortKey for VolumeRecord {
    /// Volumes sort by name.
    open spec fn key_le(&self, other: &Self) -> bool {
        chars_le(self.name@, other.name@)
    }

    fn le(&self, other: &Self) -> (r: bool) {
        str_chars_le(self.name.as_str(), other.name.as_str())
    }
}

/// How a volume display row reads off a listed record: name and driver
/// as listed, and an absent creation time as empty text.
pub open spec fn volume_row_matches_record(row: VolumeTableRow, rec: VolumeRecord) -> bool {
    &&& row.name@ == rec.name@
    &&& row.driver@ == rec.driver@
    &&& row.created_at@ == match rec.created_at {
        Some(s) => s@,
        None => Seq::<char>::empty(),
    }
}

/// Rendered height of every volume and network row.
pub const RESOURCE_ROW_HEIGHT: usize = 3;

/// One volume, projected to display strings.
#[derive(Clone, Debug, PartialEq, Eq)]
pub struct VolumeTableRow {
    pub name: String,
    pub driver: String,
    pub created_at: String,
}

/// Constant rendered heights for `n` rows.
pub open spec fn constant_row_heights(n: nat) -> Seq<usize> {
    Seq::new(n, |i: int| RESOURCE_ROW_HEIGHT)
}

/// The total rendered height stays within the machine word.
pub open spec fn constant_heights_fit(n: nat) -> bool {
    sum_prefix(constant_row_heights(n), n as int) <= usize::MAX
}

/// Build the constant height vector for `n` rows.
pub fn compute_constant_heights(n: usize) -> (r: Vec<usize>)
    ensures
        r@ == constant_row_heights(n as nat),
{
    let mut heights: Vec<usize> = Vec::new();
    let mut i: usize = 0;
    while i < n
        invariant
            i <= n,
            heights@ =~= constant_row_heights(i as nat),
        decreases n - i,
    {
        heights.push(RESOURCE_ROW_HEIGHT);
        i = i + 1;
    }
    proof {
        assert(heights@ =~= constant_row_heights(n as nat));
    }
    heights
}

/// The command the volume view emits for a key, given the selected row:
/// quit keys always emit, removal keys emit only with a selected row (the
/// force key asks for a forced removal), everything else emits nothing.
pub open spec fn volume_key_command(code: KeyCode, sel: Option<VolumeTableRow>) -> Option<
    AppEvent,
> {
    match code {
        KeyCode::Esc => Some(AppEvent::Quit),
        KeyCode::Delete => match sel {
            Some(row) => Some(AppEvent::RemoveVolume(row.name, false)),
            None => None,
        },
        KeyCode::Char(c) => if c == 'q' {
            Some(AppEvent::Quit)
        } else if c == 'd' {
            match sel {
                Some(row) => Some(AppEvent::RemoveVolume(row.name, false)),
                None => None,
            }
        } else if c == 'f' {
            match sel {
                Some(row) => Some(AppEvent::RemoveVolume(row.name, true)),
                None => None,
            }
        } else {
            None
        },
        _ => None,
    }
}

/// How one key press moves the view from `pre` to `post` and what
/// command `r` it emits: a pending banner swallows the key; else
/// navigation moves the selection and the emitted command follows
/// [`volume_key_command`].
pub open spec fn volume_key_step(
    pre: VolumeTable,
    post: VolumeTable,
    code: KeyCode,
    r: Option<AppEvent>,
) -> bool {
    &&& (pre.err is Some ==> {
        &&& r is None
        &&& post.err is None
        &&& post.list == pre.list
        &&& post.skipped_ticks == pre.skipped_ticks
    })
    &&& (pre.err is None ==> {
        &&& post.err is None
        &&& post.skipped_ticks == pre.skipped_ticks
        &&& r == volume_key_command(code, pre.spec_selected())
        &&& match code {
            KeyCode::Down => advanced_by_next(pre.list, post.list),
            KeyCode::Up => advanced_by_previous(pre.list, post.list),
            KeyCode::Char(c) => if c == 'j' {
                advanced_by_next(pre.list, post.list)
            } else if c == 'k' {
                advanced_by_previous(pre.list, post.list)
            } else {
                post.list == pre.list
            },
            _ => post.list == pre.list,
        }
    })
}

/// How one clock tick moves the view from `pre` to `post` and what
/// command `r` it emits: the cadence counter climbs until it passes its
/// threshold, then resets while a refresh is requested.
pub open spec fn volume_tick_step(pre: VolumeTable, post: VolumeTable, r: Option<AppEvent>) -> bool {
    &&& post.list == pre.list
    &&& post.err == pre.err
    &&& (pre.skipped_ticks <= REFRESH_AFTER_TICK ==> post.skipped_ticks == pre.skipped_ticks + 1
        && r is None)
    &&& (pre.skipped_ticks > REFRESH_AFTER_TICK ==> post.skipped_ticks == 0 && r == Some(
        AppEvent::UpdateVolumes,
    ))
}

/// How a refresh result moves the view from `pre` to `post`: the rows are
/// replaced wholesale with recomputed heights, unless their total height
/// would not fit the machine word, in which case the old rows stay.
pub open spec fn volume_refresh_step(pre: VolumeTable, post: VolumeTable, items: Seq<VolumeTableRow>) -> bool {
    &&& post.err == pre.err
    &&& post.skipped_ticks == pre.skipped_ticks
    &&& (constant_heights_fit(items.len()) ==> replaced(pre.list, post.list, items, constant_row_heights(items.len())))
    &&& (!constant_heights_fit(items.len()) ==> post.list == pre.list)
}

/// State of the volume list view.
pub struct VolumeTable {
    pub list: ListState<VolumeTableRow>,
    /// Ticks seen since the last refresh request.
    pub skipped_ticks: u8,
    /// One-shot error banner; the next key press dismisses it.
    pub err: Option<String>,
}

impl VolumeTable {
    pub open spec fn wf(&self) -> bool {
        self.list.wf()
    }

    /// The selected row, if the list is non-empty.
    pub open spec fn spec_selected(&self) -> Option<VolumeTableRow> {
        if self.list.items@.len() > 0 {
            Some(self.list.items@[self.list.sel_int()])
        } else {
            None
        }
    }

    /// An empty volume view.
    pub fn new() -> (r: VolumeTable)
        ensures
            r.list.items@.len() == 0,
            r.list.selected is None,
            r.skipped_ticks == 0,
            r.err is None,
            r.wf(),
    {
        VolumeTable { list: ListState::new(), skipped_ticks: 0, err: None }
    }

    /// Route one key press; a pending error banner swallows it.
    pub fn handle_key_event(&mut self, key: KeyPress) -> (r: Option<AppEvent>)
        requires
            old(self).wf(),
        ensures
            final(self).wf(),
            volume_key_step(*old(self), *final(self), key.code, r),
    {
        if self.err.is_some() {
            self.err = None;
            return None;
        }
        match key.code {
            KeyCode::Esc => Some(AppEvent::Quit),
            KeyCode::Down => {
                self.list.next();
                None
            },
            KeyCode::Up => {
                self.list.previous();
                None
            },
            KeyCode::Delete => match self.list.selected_item() {
                Some(row) => Some(AppEvent::RemoveVolume(row.name.clone(), false)),
                None => None,
            },
            KeyCode::Char(c) => if c == 'q' {
                Some(AppEvent::Quit)
            } else if c == 'j' {
                self.list.next();
                None
            } else if c == 'k' {
                self.list.previous();
                None
            } else if c == 'd' {
                match self.list.selected_item() {
                    Some(row) => Some(AppEvent::RemoveVolume(row.name.clone(), false)),
                    None => None,
                }
            } else if c == 'f' {
                match self.list.selected_item() {
                    Some(row) => Some(AppEvent::RemoveVolume(row.name.clone(), true)),
                    None => None,
                }
            } else {
                None
            },
            _ => None,
        }
    }

    /// One clock tick: requests a volume list refresh on the cadence.
    pub fn tick(&mut self) -> (r: Option<AppEvent>)
        requires
            old(self).wf(),
        ensures
            final(self).wf(),
            volume_tick_step(*old(self), *final(self), r),
    {
        if self.skipped_ticks <= REFRESH_AFTER_TICK {
            self.skipped_ticks = self.skipped_ticks + 1;
            return None;
        }
        self.skipped_ticks = 0;
        Some(AppEvent::UpdateVolumes)
    }

    /// Replace the rows wholesale; every row renders at the constant
    /// height.
    pub fn update_with_items(&mut self, items: Vec<VolumeTableRow>)
        requires
            old(self).wf(),
        ensures
            final(self).wf(),
            volume_refresh_step(*old(self), *final(self), items@),
    {
        let heights = compute_constant_heights(items.len());
        if heights_total_fits(&heights) {
            self.list.replace_items(items, heights);
        }
    }

    /// The selected row, if any.
    pub fn get_selected_volume(&self) -> (r: Option<&VolumeTableRow>)
        requires
            self.wf(),
        ensures
            r is Some <==> self.spec_selected() is Some,
            r matches Some(row) ==> Some(*row) == self.spec_selected(),
    {
        self.list.selected_item()
    }

    /// Footer text: the pending error banner if one is set, else the key
    /// legend.
    pub fn footer_text(&self) -> (r: String)
        ensures
            match self.err {
                Some(e) => r == e,
                None => r@ == " <Del/D> remove | <F> force remove"@,
            },
    {
        match &self.err {
            Some(e) => e.clone(),
            None => " <Del/D> remove | <F> force remove".to_owned(),
        }
    }

    /// Raise the one-shot error banner for a failed volume removal, as
    /// [`volume_err_banner`] states.
    pub fn show_remove_volume_err(&mut self, err: String)
        ensures
            final(self).list == old(self).list,
            final(self).skipped_ticks == old(self).skipped_ticks,
            final(self).err matches Some(e) && e@ == volume_err_banner(err@),
    {
        let cap = match CompiledPattern::compile(r"\[([a-z0-9]+)\]") {
            Some(p) => p.capture_first(err.as_str()),
            None => None,
        };
        let banner = match cap {
            Some(c) => {
                let mut out = "[ERR] Volume is in use by container: ".to_owned();
                out.append(take_prefix(c.as_str(), 15).as_str());
                out.append("...");
                proof {
                    assert(out@ =~= volume_err_banner(err@));
                }
                out
            },
            None => "[ERR] Something went wrong...".to_owned(),
        };
        self.err = Some(banner);
    }
}

impl VolumeTableRow {
    /// Project one listed record to a display row, as
    /// [`volume_row_matches_record`] states.
    pub fn from(record: &VolumeRecord) -> (r: VolumeTableRow)
        ensures
            volume_row_matches_record(r, *record),
    {
        VolumeTableRow {
            name: record.name.clone(),
            driver: record.driver.clone(),
            created_at: match &record.created_at {
                Some(s) => s.clone(),
                None => String::new(),
            },
        }
    }

    /// Project a whole daemon listing, sorted by name, each record read
    /// off as [`volume_row_matches_record`] states.
    pub fn from_list(records: Vec<VolumeRecord>) -> (r: Vec<VolumeTableRow>)
        ensures
            r@.len() == sort_spec(records@).len(),
            forall|i: int|
                0 <= i < r@.len() ==> volume_row_matches_record(
                    #[trigger] r@[i],
                    sort_spec(records@)[i],
                ),
    {
        let sorted = insertion_sort(records);
        let mut rows: Vec<VolumeTableRow> = Vec::new();
        let mut i: usize = 0;
        while i < sorted.len()
            invariant
                i <= sorted@.len(),
                rows@.len() == i,
                forall|k: int|
                    0 <= k < i ==> volume_row_matches_record(#[trigger] rows@[k], sorted@[k]),
            decreases sorted@.len() - i,
        {
            rows.push(VolumeTableRow::from(&sorted[i]));
            i = i + 1;
        }
        rows
    }
}

/// The banner shown after a failed volume removal: the in-use container's
/// id, cut to fifteen characters, picked out of the daemon's message by
/// the bracket pattern; or a generic line when the message has no such
/// bracketed id.
pub open spec fn volume_err_banner(err: Seq<char>) -> Seq<char> {
    let cap = if regex_compiles(r"\[([a-z0-9]+)\]"@) {
        regex_capture_text(r"\[([a-z0-9]+)\]"@, err)
    } else {
        None
    };
    match cap {
        Some(c) => "[ERR] Volume is in use by container: "@ + prefix_chars(c, 15) + "..."@,
        None => "[ERR] Something went wrong..."@,
    }
}

} // verus!
