//! The network list view: rows of networks at a constant rendered height,
//! a selection, a refresh cadence counter, and a one-shot error banner for
//! failed removals.

use vstd::prelude::*;
use crate::events::{AppEvent, KeyCode, KeyPress, REFRESH_AFTER_TICK};
use crate::list::{
    advanced_by_next, advanced_by_previous, heights_total_fits, replaced, ListState,
};
use crate::patterns::{
    regex_capture_text, regex_compiles, regex_strip_first, CompiledPattern,
};
use crate::sorting::{chars_le, insertion_sort, sort_spec, str_chars_le, SortKey};
use crate::text::{prefix_chars, take_prefix, trim_plain, trim_spec};
use crate::volumes::{compute_constant_heights, constant_heights_fit, constant_row_heights};

verus! {

/// One listed network, reduced to the plain values the projection reads.
#[derive(Clone, Debug, PartialEq, Eq)]
pub struct NetworkRecord {
    pub id: Option<String>,
    pub name: Option<String>,
    pub driver: Option<String>,
    pub created: Option<String>,
}

/// The name text a record displays: its name, or a dash when absent.
pub open spec fn network_name_text(rec: NetworkRecord) -> Seq<char> {
    match rec.name {
        Some(s) => s@,
        None => "-"@,
    }
}

impl SortKey for NetworkRecord {
    /// Networks sort by displayed name.
    open spec fn key_le(&self, other: &Self) -> bool {
        chars_le(network_name_text(*self), network_name_text(*other))
    }

    fn le(&self, other: &Self) -> (r: bool) {
        let a = match &self.name {
            Some(s) => s.as_str(),
            None => "-",
        };
        let b = match &other.name {
            Some(s) => s.as_str(),
            None => "-",
        };
        str_chars_le(a, b)
    }
}

/// The creation-time cell: the raw creation text with its fractional
/// seconds stripped by the fraction pattern.
pub open spec fn network_created_text(created: Option<String>) -> Seq<char> {
    let raw = match created {
        Some(s) => s@,
        None => Seq::<char>::empty(),
    };
    if regex_compiles(r"\.\d+"@) {
        regex_strip_first(r"\.\d+"@, raw)
    } else {
        raw
    }
}

/// How a network display row reads off a listed record: the id cut to
/// twelve characters with an ellipsis, absent values as a dash, and the
/// creation time as [`network_created_text`] states.
pub open spec fn network_row_matches_record(row: NetworkTableRow, rec: NetworkRecord) -> bool {
    &&& row.id@ == prefix_chars(
        match rec.id {
            Some(s) => s@,
            None => "-"@,
        },
        12,
    ) + "..."@
    &&& row.name@ == network_name_text(rec)
    &&& row.driver@ == match rec.driver {
        Some(s) => s@,
        None => "-"@,
    }
    &&& row.created_at@ == network_created_text(rec.created)
}

/// One network, projected to display strings.
#[derive(Clone, Debug, PartialEq, Eq)]
pub struct NetworkTableRow {
    pub id: String,
    pub name: String,
    pub driver: String,
    pub created_at: String,
}

/// The command the network view emits for a key, given the selected row:
/// quit keys always emit, the removal key emits only with a selected row,
/// everything else emits nothing.
pub open spec fn network_key_command(code: KeyCode, sel: Option<NetworkTableRow>) -> Option<
    AppEvent,
> {
    match code {
        KeyCode::Esc => Some(AppEvent::Quit),
        KeyCode::Delete => match sel {
            Some(row) => Some(AppEvent::RemoveNetwork(row.name)),
            None => None,
        },
        KeyCode::Char(c) => if c == 'q' {
            Some(AppEvent::Quit)
        } else if c == 'd' {
            match sel {
                Some(row) => Some(AppEvent::RemoveNetwork(row.name)),
                None => None,
            }
        } else {
            None
        },
        _ => None,
    }
}

/// How one key press moves the view from `pre` to `post` and what
/// command `r` it emits: a pending banner swallows the key; else
/// navigation moves the selection and the emitted command follows
/// [`network_key_command`].
pub open spec fn network_key_step(
    pre: NetworkTable,
    post: NetworkTable,
    code: KeyCode,
    r: Option<AppEvent>,
) -> bool {
    &&& (pre.err is Some ==> {
        &&& r is None
        &&& post.err is None
        &&& post.list == pre.list
        &&& post.skipped_ticks == pre.skipped_ticks
    })
    &&& (pre.err is None ==> {
        &&& post.err is None
        &&& post.skipped_ticks == pre.skipped_ticks
        &&& r == network_key_command(code, pre.spec_selected())
        &&& match code {
            KeyCode::Down => advanced_by_next(pre.list, post.list),
            KeyCode::Up => advanced_by_previous(pre.list, post.list),
            KeyCode::Char(c) => if c == 'j' {
                advanced_by_next(pre.list, post.list)
            } else if c == 'k' {
                advanced_by_previous(pre.list, post.list)
            } else {
                post.list == pre.list
            },
            _ => post.list == pre.list,
        }
    })
}

/// How one clock tick moves the view from `pre` to `post` and what
/// command `r` it emits: the cadence counter climbs until it passes its
/// threshold, then resets while a refresh is requested.
pub open spec fn network_tick_step(pre: NetworkTable, post: NetworkTable, r: Option<AppEvent>) -> bool {
    &&& post.list == pre.list
    &&& post.err == pre.err
    &&& (pre.skipped_ticks <= REFRESH_AFTER_TICK ==> post.skipped_ticks == pre.skipped_ticks + 1
        && r is None)
    &&& (pre.skipped_ticks > REFRESH_AFTER_TICK ==> post.skipped_ticks == 0 && r == Some(
        AppEvent::UpdateNetworks,
    ))
}

/// How a refresh result moves the view from `pre` to `post`: the rows are
/// replaced wholesale with recomputed heights, unless their total height
/// would not fit the machine word, in which case the old rows stay.
pub open spec fn network_refresh_step(pre: NetworkTable, post: NetworkTable, items: Seq<NetworkTableRow>) -> bool {
    &&& post.err == pre.err
    &&& post.skipped_ticks == pre.skipped_ticks
    &&& (constant_heights_fit(items.len()) ==> replaced(pre.list, post.list, items, constant_row_heights(items.len())))
    &&& (!constant_heights_fit(items.len()) ==> post.list == pre.list)
}

/// State of the network list view.
pub struct NetworkTable {
    pub list: ListState<NetworkTableRow>,
    /// Ticks seen since the last refresh request.
    pub skipped_ticks: u8,
    /// One-shot error banner; the next key press dismisses it.
    pub err: Option<String>,
}

impl NetworkTable {
    pub open spec fn wf(&self) -> bool {
        self.list.wf()
    }

    /// The selected row, if the list is non-empty.
    pub open spec fn spec_selected(&self) -> Option<NetworkTableRow> {
        if self.list.items@.len() > 0 {
            Some(self.list.items@[self.list.sel_int()])
        } else {
            None
        }
    }

    /// An empty network view.
    pub fn new() -> (r: NetworkTable)
        ensures
            r.list.items@.len() == 0,
            r.list.selected is None,
            r.skipped_ticks == 0,
            r.err is None,
            r.wf(),
    {
        NetworkTable { list: ListState::new(), skipped_ticks: 0, err: None }
    }

    /// Route one key press; a pending error banner swallows it.
    pub fn handle_key_event(&mut self, key: KeyPress) -> (r: Option<AppEvent>)
        requires
            old(self).wf(),
        ensures
            final(self).wf(),
            network_key_step(*old(self), *final(self), key.code, r),
    {
        if self.err.is_some() {
            self.err = None;
            return None;
        }
        match key.code {
            KeyCode::Esc => Some(AppEvent::Quit),
            KeyCode::Down => {
                self.list.next();
                None
            },
            KeyCode::Up => {
                self.list.previous();
                None
            },
            KeyCode::Delete => match self.list.selected_item() {
                Some(row) => Some(AppEvent::RemoveNetwork(row.name.clone())),
                None => None,
            },
            KeyCode::Char(c) => if c == 'q' {
                Some(AppEvent::Quit)
            } else if c == 'j' {
                self.list.next();
                None
            } else if c == 'k' {
                self.list.previous();
                None
            } else if c == 'd' {
                match self.list.selected_item() {
                    Some(row) => Some(AppEvent::RemoveNetwork(row.name.clone())),
                    None => None,
                }
            } else {
                None
            },
            _ => None,
        }
    }

    /// One clock tick: requests a network list refresh on the cadence.
    pub fn tick(&mut self) -> (r: Option<AppEvent>)
        requires
            old(self).wf(),
        ensures
            final(self).wf(),
            network_tick_step(*old(self), *final(self), r),
    {
        if self.skipped_ticks <= REFRESH_AFTER_TICK {
            self.skipped_ticks = self.skipped_ticks + 1;
            return None;
        }
        self.skipped_ticks = 0;
        Some(AppEvent::UpdateNetworks)
    }

    /// Replace the rows wholesale; every row renders at the constant
    /// height.
    pub fn update_with_items(&mut self, items: Vec<NetworkTableRow>)
        requires
            old(self).wf(),
        ensures
            final(self).wf(),
            network_refresh_step(*old(self), *final(self), items@),
    {
        let heights = compute_constant_heights(items.len());
        if heights_total_fits(&heights) {
            self.list.replace_items(items, heights);
        }
    }

    /// The selected row, if any.
    pub fn get_selected_network(&self) -> (r: Option<&NetworkTableRow>)
        requires
            self.wf(),
        ensures
            r is Some <==> self.spec_selected() is Some,
            r matches Some(row) ==> Some(*row) == self.spec_selected(),
    {
        self.list.selected_item()
    }

    /// Footer text: the pending error banner if one is set, else the key
    /// legend.
    pub fn footer_text(&self) -> (r: String)
        ensures
            match self.err {
                Some(e) => r == e,
                None => r@ == " <Del/D> remove"@,
            },
    {
        match &self.err {
            Some(e) => e.clone(),
            None => " <Del/D> remove".to_owned(),
        }
    }

    /// Raise the one-shot error banner for a failed network removal, as
    /// [`network_err_banner`] states.
    pub fn show_remove_network_err(&mut self, err: String)
        ensures
            final(self).list == old(self).list,
            final(self).skipped_ticks == old(self).skipped_ticks,
            final(self).err matches Some(e) && e@ == network_err_banner(err@),
    {
        let cap = match CompiledPattern::compile(r":(?:[^:]+:)?\s*([^\(]+)") {
            Some(p) => p.capture_first(err.as_str()),
            None => None,
        };
        let msg = match cap {
            Some(c) => c,
            None => "Something went wrong...".to_owned(),
        };
        let mut out = "[ERR] ".to_owned();
        out.append(trim_plain(msg.as_str()).as_str());
        self.err = Some(out);
    }
}

impl NetworkTableRow {
    /// Project one listed record to a display row, as
    /// [`network_row_matches_record`] states.
    pub fn from(record: &NetworkRecord) -> (r: NetworkTableRow)
        ensures
            network_row_matches_record(r, *record),
    {
        let mut id = match &record.id {
            Some(s) => take_prefix(s.as_str(), 12),
            None => take_prefix("-", 12),
        };
        id.append("...");
        let name = match &record.name {
            Some(s) => s.clone(),
            None => "-".to_owned(),
        };
        let driver = match &record.driver {
            Some(s) => s.clone(),
            None => "-".to_owned(),
        };
        let raw = match &record.created {
            Some(s) => s.clone(),
            None => String::new(),
        };
        let created_at = match CompiledPattern::compile(r"\.\d+") {
            Some(p) => p.strip_first(raw.as_str()),
            None => raw,
        };
        NetworkTableRow { id, name, driver, created_at }
    }

    /// Project a whole daemon listing, sorted by displayed name, each
    /// record read off as [`network_row_matches_record`] states.
    pub fn from_list(records: Vec<NetworkRecord>) -> (r: Vec<NetworkTableRow>)
        ensures
            r@.len() == sort_spec(records@).len(),
            forall|i: int|
                0 <= i < r@.len() ==> network_row_matches_record(
                    #[trigger] r@[i],
                    sort_spec(records@)[i],
                ),
    {
        let sorted = insertion_sort(records);
        let mut rows: Vec<NetworkTableRow> = Vec::new();
        let mut i: usize = 0;
        while i < sorted.len()
            invariant
                i <= sorted@.len(),
                rows@.len() == i,
                forall|k: int|
                    0 <= k < i ==> network_row_matches_record(#[trigger] rows@[k], sorted@[k]),
            decreases sorted@.len() - i,
        {
            rows.push(NetworkTableRow::from(&sorted[i]));
            i = i + 1;
        }
        rows
    }
}

/// The banner shown after a failed network removal: the reason picked out
/// of the daemon's message after its last heading, trimmed; or a generic
/// line when the message has no such part.
pub open spec fn network_err_banner(err: Seq<char>) -> Seq<char> {
    let cap = if regex_compiles(r":(?:[^:]+:)?\s*([^\(]+)"@) {
        regex_capture_text(r":(?:[^:]+:)?\s*([^\(]+)"@, err)
    } else {
        None
    };
    "[ERR] "@ + trim_spec(
        match cap {
            Some(c) => c,
            None => "Something went wrong..."@,
        },
    )
}

} // verus!
