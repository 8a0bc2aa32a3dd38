//! The container list view: rows of containers, a selection, a show-all
//! toggle, a refresh cadence counter, and a one-shot error banner.

use vstd::prelude::*;
use crate::events::{AppEvent, KeyCode, KeyPress, REFRESH_AFTER_TICK};
use crate::list::{
    advanced_by_next, advanced_by_previous, heights_total_fits, replaced, sum_prefix, ListState,
};
use crate::sorting::{chars_le, insertion_sort, sort_spec, str_chars_le, SortKey};
use crate::text::{
    count_text_lines, dec_digits, is_running_state, joined_lines, join_lines, seg_count,
    string_views, u64_to_string,
};

verus! {

/// One published port of a listed container, reduced to the plain values
/// the projection reads.
#[derive(Clone, Debug, PartialEq, Eq)]
pub struct PortRecord {
    pub private_port: u16,
    pub public_port: Option<u16>,
    pub typ: Option<PortProtocol>,
}

/// The transport protocol of a published port.
#[derive(Clone, Copy, Debug, PartialEq, Eq, Structural)]
pub enum PortProtocol {
    Empty,
    Tcp,
    Udp,
    Sctp,
}

/// A fully published port: private and public number and the protocol.
#[derive(Clone, Copy, Debug, PartialEq, Eq, Structural)]
pub struct PortKey {
    pub private_port: u16,
    pub public_port: u16,
    pub protocol: PortProtocol,
}

impl SortKey for PortKey {
    open spec fn key_le(&self, other: &Self) -> bool {
        self.private_port <= other.private_port
    }

    fn le(&self, other: &Self) -> (r: bool) {
        self.private_port <= other.private_port
    }
}

/// One listed container, reduced to the plain values the projection
/// reads.
#[derive(Clone, Debug, PartialEq, Eq)]
pub struct ContainerRecord {
    pub id: Option<String>,
    pub names: Option<Vec<String>>,
    pub image: Option<String>,
    pub state: Option<String>,
    pub ports: Option<Vec<PortRecord>>,
}

/// The state text a record displays: its state, or a dash when absent.
pub open spec fn record_state_text(rec: ContainerRecord) -> Seq<char> {
    match rec.state {
        Some(s) => s@,
        None => "-"@,
    }
}

/// Whether a state text begins with the running marker.
pub open spec fn starts_running(s: Seq<char>) -> bool {
    s.len() > 0 && s[0] == 'r'
}

impl SortKey for ContainerRecord {
    /// Running containers sort first; ties fall back to the state text.
    open spec fn key_le(&self, other: &Self) -> bool {
        let a = record_state_text(*self);
        let b = record_state_text(*other);
        if starts_running(a) && !starts_running(b) {
            true
        } else if !starts_running(a) && starts_running(b) {
            false
        } else {
            chars_le(a, b)
        }
    }

    fn le(&self, other: &Self) -> (r: bool) {
        let a = state_str(&self.state);
        let b = state_str(&other.state);
        let a_r = starts_r(a);
        let b_r = starts_r(b);
        if a_r && !b_r {
            true
        } else if !a_r && b_r {
            false
        } else {
            str_chars_le(a, b)
        }
    }
}

fn state_str<'a>(state: &'a Option<String>) -> (r: &'a str)
    ensures
        r@ == match state {
            Some(s) => s@,
            None => "-"@,
        },
{
    match state {
        Some(s) => s.as_str(),
        None => "-",
    }
}

fn starts_r(s: &str) -> (r: bool)
    ensures
        r == starts_running(s@),
{
    s.unicode_len() > 0 && s.get_char(0) == 'r'
}

/// The keys of the fully published ports, in arrival order.
pub open spec fn port_keys(ports: Seq<PortRecord>) -> Seq<PortKey>
    decreases ports.len(),
{
    if ports.len() == 0 {
        Seq::<PortKey>::empty()
    } else {
        let rest = port_keys(ports.drop_last());
        let p = ports.last();
        match (p.public_port, p.typ) {
            (Some(public_port), Some(protocol)) => rest.push(
                PortKey { private_port: p.private_port, public_port, protocol },
            ),
            _ => rest,
        }
    }
}

/// The sequence with each run of equal adjacent keys collapsed to one.
pub open spec fn dedup_adjacent(s: Seq<PortKey>) -> Seq<PortKey>
    decreases s.len(),
{
    if s.len() <= 1 {
        s
    } else if s.last() == s[s.len() - 2] {
        dedup_adjacent(s.drop_last())
    } else {
        dedup_adjacent(s.drop_last()).push(s.last())
    }
}

/// The display text of a port's protocol.
pub open spec fn protocol_text(t: PortProtocol) -> Seq<char> {
    match t {
        PortProtocol::Empty => Seq::<char>::empty(),
        PortProtocol::Tcp => "tcp"@,
        PortProtocol::Udp => "udp"@,
        PortProtocol::Sctp => "sctp"@,
    }
}

/// One display line for a published port.
pub open spec fn port_line(k: PortKey) -> Seq<char> {
    dec_digits(k.private_port as int) + seq![':'] + dec_digits(k.public_port as int) + seq!['/']
        + protocol_text(k.protocol)
}

/// The display line of each key.
pub open spec fn port_lines_of(keys: Seq<PortKey>) -> Seq<Seq<char>> {
    keys.map_values(|k: PortKey| port_line(k))
}

/// The ports cell of a container row: the fully published ports, sorted
/// by private port with ties in arrival order, duplicates collapsed, one
/// line each.
pub open spec fn ports_text(ports: Seq<PortRecord>) -> Seq<char> {
    joined_lines(port_lines_of(dedup_adjacent(sort_spec(port_keys(ports)))))
}

fn protocol_str(t: PortProtocol) -> (r: &'static str)
    ensures
        r@ == protocol_text(t),
{
    match t {
        PortProtocol::Empty => {
            proof {
                reveal_strlit("");
                assert(""@ =~= Seq::<char>::empty());
            }
            ""
        },
        PortProtocol::Tcp => "tcp",
        PortProtocol::Udp => "udp",
        PortProtocol::Sctp => "sctp",
    }
}

fn port_line_string(k: PortKey) -> (r: String)
    ensures
        r@ == port_line(k),
{
    let mut out = u64_to_string(k.private_port as u64);
    out.append(":");
    let public_text = u64_to_string(k.public_port as u64);
    out.append(public_text.as_str());
    out.append("/");
    out.append(protocol_str(k.protocol));
    proof {
        reveal_strlit(":");
        reveal_strlit("/");
        assert(":"@ =~= seq![':']);
        assert("/"@ =~= seq!['/']);
        assert(out@ =~= port_line(k));
    }
    out
}

/// Render the ports cell, as [`ports_text`] states.
pub fn get_ports_text(ports: &Vec<PortRecord>) -> (r: String)
    ensures
        r@ == ports_text(ports@),
{
    let mut keys: Vec<PortKey> = Vec::new();
    let mut i: usize = 0;
    while i < ports.len()
        invariant
            i <= ports@.len(),
            keys@ == port_keys(ports@.subrange(0, i as int)),
        decreases ports@.len() - i,
    {
        match (&ports[i].public_port, &ports[i].typ) {
            (Some(public_port), Some(protocol)) => {
                keys.push(
                    PortKey {
                        private_port: ports[i].private_port,
                        public_port: *public_port,
                        protocol: *protocol,
                    },
                );
            },
            _ => {},
        }
        proof {
            assert(ports@.subrange(0, i + 1).drop_last() =~= ports@.subrange(0, i as int));
            assert(ports@.subrange(0, i + 1).last() == ports@[i as int]);
            assert(keys@ =~= port_keys(ports@.subrange(0, i + 1)));
        }
        i = i + 1;
    }
    proof {
        assert(ports@.subrange(0, ports@.len() as int) =~= ports@);
    }
    let sorted = insertion_sort(keys);
    let mut deduped: Vec<PortKey> = Vec::new();
    let mut j: usize = 0;
    while j < sorted.len()
        invariant
            j <= sorted@.len(),
            deduped@ == dedup_adjacent(sorted@.subrange(0, j as int)),
        decreases sorted@.len() - j,
    {
        if j == 0 || !(sorted[j] == sorted[j - 1]) {
            deduped.push(sorted[j]);
        }
        proof {
            assert(sorted@.subrange(0, j + 1).drop_last() =~= sorted@.subrange(0, j as int));
            assert(sorted@.subrange(0, j + 1).last() == sorted@[j as int]);
            assert(deduped@ =~= dedup_adjacent(sorted@.subrange(0, j + 1)));
        }
        j = j + 1;
    }
    proof {
        assert(sorted@.subrange(0, sorted@.len() as int) =~= sorted@);
    }
    let mut lines: Vec<String> = Vec::new();
    let mut k: usize = 0;
    while k < deduped.len()
        invariant
            k <= deduped@.len(),
            string_views(lines@) == port_lines_of(deduped@.subrange(0, k as int)),
        decreases deduped@.len() - k,
    {
        let ghost lines_before = lines@;
        lines.push(port_line_string(deduped[k]));
        proof {
            assert(string_views(lines_before).len() == lines_before.len());
            assert(port_lines_of(deduped@.subrange(0, k as int)).len() == k);
            let target = port_lines_of(deduped@.subrange(0, k + 1));
            assert(target.len() == k + 1);
            assert forall|t: int| 0 <= t < lines@.len() implies #[trigger] string_views(lines@)[t]
                == target[t] by {
                if t < k {
                    assert(string_views(lines_before)[t] == port_lines_of(
                        deduped@.subrange(0, k as int),
                    )[t]);
                    assert(string_views(lines_before)[t] == lines_before[t]@);
                    assert(port_lines_of(deduped@.subrange(0, k as int))[t] == port_line(
                        deduped@.subrange(0, k as int)[t],
                    ));
                }
            }
            assert(string_views(lines@).len() == target.len());
            assert(string_views(lines@) =~= target);
        }
        k = k + 1;
    }
    proof {
        assert(deduped@.subrange(0, deduped@.len() as int) =~= deduped@);
    }
    join_lines(&lines)
}

/// How a display row reads off a listed record: absent values display as
/// a dash, the name is the first listed name without its leading slash
/// (or a placeholder), and the ports cell follows [`ports_text`].
pub open spec fn row_matches_record(row: ContainerTableRow, rec: ContainerRecord) -> bool {
    &&& row.id@ == match rec.id {
        Some(s) => s@,
        None => "-"@,
    }
    &&& row.name@ == container_name_text(rec.names)
    &&& row.image@ == match rec.image {
        Some(s) => s@,
        None => "-"@,
    }
    &&& row.state@ == record_state_text(rec)
    &&& row.ports@ == match rec.ports {
        Some(p) => ports_text(p@),
        None => "-"@,
    }
}

/// The name cell: the first listed name stripped of its leading slash,
/// or a placeholder when there is none.
pub open spec fn container_name_text(names: Option<Vec<String>>) -> Seq<char> {
    match names {
        Some(v) => if v@.len() > 0 && v@[0]@.len() > 0 && v@[0]@[0] == '/' {
            v@[0]@.subrange(1, v@[0]@.len() as int)
        } else {
            "NaN"@
        },
        None => "NaN"@,
    }
}

impl ContainerTableRow {
    /// Project one listed record to a display row, as
    /// [`row_matches_record`] states.
    pub fn from(record: &ContainerRecord) -> (r: ContainerTableRow)
        ensures
            row_matches_record(r, *record),
    {
        let id = match &record.id {
            Some(s) => s.clone(),
            None => "-".to_owned(),
        };
        let name = match &record.names {
            Some(v) => if v.len() > 0 && v[0].unicode_len() > 0 && v[0].as_str().get_char(0)
                == '/' {
                v[0].as_str().substring_char(1, v[0].unicode_len()).to_owned()
            } else {
                "NaN".to_owned()
            },
            None => "NaN".to_owned(),
        };
        let image = match &record.image {
            Some(s) => s.clone(),
            None => "-".to_owned(),
        };
        let state = match &record.state {
            Some(s) => s.clone(),
            None => "-".to_owned(),
        };
        let ports = match &record.ports {
            Some(p) => get_ports_text(p),
            None => "-".to_owned(),
        };
        ContainerTableRow { id, name, image, state, ports }
    }

    /// Project a whole daemon listing: running containers first, ties in
    /// state-text order, each record read off as [`row_matches_record`]
    /// states.
    pub fn from_list(records: Vec<ContainerRecord>) -> (r: Vec<ContainerTableRow>)
        ensures
            r@.len() == sort_spec(records@).len(),
            forall|i: int|
                0 <= i < r@.len() ==> row_matches_record(
                    #[trigger] r@[i],
                    sort_spec(records@)[i],
                ),
    {
        let sorted = insertion_sort(records);
        let mut rows: Vec<ContainerTableRow> = Vec::new();
        let mut i: usize = 0;
        while i < sorted.len()
            invariant
                i <= sorted@.len(),
                rows@.len() == i,
                forall|k: int|
                    0 <= k < i ==> row_matches_record(#[trigger] rows@[k], sorted@[k]),
            decreases sorted@.len() - i,
        {
            rows.push(ContainerTableRow::from(&sorted[i]));
            i = i + 1;
        }
        rows
    }
}

/// One container, projected to display strings. `ports` holds one
/// published port per line.
#[derive(Clone, Debug, PartialEq, Eq)]
pub struct ContainerTableRow {
    pub id: String,
    pub name: String,
    pub image: String,
    pub state: String,
    pub ports: String,
}

/// Rendered height of a container row: three lines for a row without
/// ports, else one line per port plus the two border lines.
pub open spec fn container_row_height(ports: Seq<char>) -> usize {
    if seg_count(ports) == 0 {
        3usize
    } else if seg_count(ports) + 2 > usize::MAX {
        usize::MAX
    } else {
        (seg_count(ports) + 2) as usize
    }
}

/// The rendered heights of a row collection, in order.
pub open spec fn container_row_heights(items: Seq<ContainerTableRow>) -> Seq<usize> {
    items.map_values(|r: ContainerTableRow| container_row_height(r.ports@))
}

/// The total rendered height stays within the machine word.
pub open spec fn container_heights_fit(items: Seq<ContainerTableRow>) -> bool {
    sum_prefix(container_row_heights(items), items.len() as int) <= usize::MAX
}

/// The command the container view emits for a key, given the selected row.
///
/// Quit keys always emit; verb keys emit only when a row is selected;
/// navigation and unknown keys emit nothing.
pub open spec fn container_key_command(
    code: KeyCode,
    sel: Option<ContainerTableRow>,
) -> Option<AppEvent> {
    match code {
        KeyCode::Esc => Some(AppEvent::Quit),
        KeyCode::Delete => match sel {
            Some(row) => Some(AppEvent::RemoveContainer(row.id)),
            None => None,
        },
        KeyCode::Enter => match sel {
            Some(row) => Some(AppEvent::GoToContainerDetails(row.id)),
            None => None,
        },
        KeyCode::Char(c) => if c == 'q' {
            Some(AppEvent::Quit)
        } else if c == 'd' {
            match sel {
                Some(row) => Some(AppEvent::RemoveContainer(row.id)),
                None => None,
            }
        } else if c == 'r' {
            match sel {
                Some(row) => Some(AppEvent::RestartContainer(row.id)),
                None => None,
            }
        } else if c == 's' {
            match sel {
                Some(row) => Some(AppEvent::StopContainer(row.id)),
                None => None,
            }
        } else if c == 'x' {
            match sel {
                Some(row) => Some(AppEvent::KillContainer(row.id)),
                None => None,
            }
        } else {
            None
        },
        _ => None,
    }
}

/// Footer text of the container view: the toggle label, and the verbs that
/// apply to the selected row's state, if any row is selected.
pub open spec fn container_footer_text(show_all: bool, is_running: Option<bool>) -> Seq<char> {
    " <Ent> details | <T> "@ + (if show_all {
        "All"@
    } else {
        "Running"@
    }) + match is_running {
        Some(running) => " | <R> "@ + (if running {
            "restart | <S> stop | <X> kill "@
        } else {
            "start "@
        }) + "| <Del/D> remove"@,
        None => Seq::<char>::empty(),
    }
}

/// How one key press moves the container view from `pre` to `post` and
/// what command `r` it emits: a pending banner swallows the key; else
/// navigation moves the selection, the toggle key flips the filter, and
/// the emitted command follows [`container_key_command`].
pub open spec fn container_key_step(
    pre: ContainerTable,
    post: ContainerTable,
    code: KeyCode,
    r: Option<AppEvent>,
) -> bool {
    &&& (pre.err is Some ==> {
        &&& r is None
        &&& post.err is None
        &&& post.list == pre.list
        &&& post.show_all == pre.show_all
        &&& post.skipped_ticks == pre.skipped_ticks
    })
    &&& (pre.err is None ==> {
        &&& post.err is None
        &&& post.skipped_ticks == pre.skipped_ticks
        &&& r == container_key_command(code, pre.spec_selected())
        &&& match code {
            KeyCode::Down => advanced_by_next(pre.list, post.list) && post.show_all
                == pre.show_all,
            KeyCode::Up => advanced_by_previous(pre.list, post.list) && post.show_all
                == pre.show_all,
            KeyCode::Char(c) => if c == 'j' {
                advanced_by_next(pre.list, post.list) && post.show_all == pre.show_all
            } else if c == 'k' {
                advanced_by_previous(pre.list, post.list) && post.show_all == pre.show_all
            } else if c == 't' {
                post.list == pre.list && post.show_all == !pre.show_all
            } else {
                post.list == pre.list && post.show_all == pre.show_all
            },
            _ => post.list == pre.list && post.show_all == pre.show_all,
        }
    })
}

/// How one clock tick moves the container view from `pre` to `post` and
/// what command `r` it emits: the cadence counter climbs until it passes
/// its threshold, then resets while a list refresh is requested.
pub open spec fn container_tick_step(
    pre: ContainerTable,
    post: ContainerTable,
    r: Option<AppEvent>,
) -> bool {
    &&& post.list == pre.list
    &&& post.show_all == pre.show_all
    &&& post.err == pre.err
    &&& (pre.skipped_ticks <= REFRESH_AFTER_TICK ==> post.skipped_ticks == pre.skipped_ticks + 1
        && r is None)
    &&& (pre.skipped_ticks > REFRESH_AFTER_TICK ==> post.skipped_ticks == 0 && r == Some(
        AppEvent::UpdateContainers,
    ))
}

/// How a refresh result moves the view from `pre` to `post`: the rows are
/// replaced wholesale with recomputed heights, unless their total height
/// would not fit the machine word, in which case the old rows stay.
pub open spec fn container_refresh_step(pre: ContainerTable, post: ContainerTable, items: Seq<ContainerTableRow>) -> bool {
    &&& post.show_all == pre.show_all
    &&& post.err == pre.err
    &&& post.skipped_ticks == pre.skipped_ticks
    &&& (container_heights_fit(items) ==> replaced(pre.list, post.list, items, container_row_heights(items)))
    &&& (!container_heights_fit(items) ==> post.list == pre.list)
}

/// State of the container list view.
pub struct ContainerTable {
    pub list: ListState<ContainerTableRow>,
    /// Render-time filter: when false, only running containers are shown.
    pub show_all: bool,
    /// Ticks seen since the last refresh request.
    pub skipped_ticks: u8,
    /// One-shot error banner; the next key press dismisses it.
    pub err: Option<String>,
}

impl ContainerTable {
    pub open spec fn wf(&self) -> bool {
        self.list.wf()
    }

    /// The selected row, if the list is non-empty.
    pub open spec fn spec_selected(&self) -> Option<ContainerTableRow> {
        if self.list.items@.len() > 0 {
            Some(self.list.items@[self.list.sel_int()])
        } else {
            None
        }
    }

    /// An empty container view showing all containers.
    pub fn new() -> (r: ContainerTable)
        ensures
            r.list.items@.len() == 0,
            r.list.selected is None,
            r.show_all == true,
            r.skipped_ticks == 0,
            r.err is None,
            r.wf(),
    {
        ContainerTable { list: ListState::new(), show_all: true, skipped_ticks: 0, err: None }
    }

    /// Route one key press.
    ///
    /// A pending error banner swallows the key. Otherwise navigation keys
    /// move the selection, the toggle key flips the filter, and command
    /// keys emit as [`container_key_command`] states.
    pub fn handle_key_event(&mut self, key: KeyPress) -> (r: Option<AppEvent>)
        requires
            old(self).wf(),
        ensures
            final(self).wf(),
            container_key_step(*old(self), *final(self), key.code, r),
    {
        if self.err.is_some() {
            self.err = None;
            return None;
        }
        match key.code {
            KeyCode::Esc => Some(AppEvent::Quit),
            KeyCode::Down => {
                self.list.next();
                None
            },
            KeyCode::Up => {
                self.list.previous();
                None
            },
            KeyCode::Delete => match self.list.selected_item() {
                Some(row) => Some(AppEvent::RemoveContainer(row.id.clone())),
                None => None,
            },
            KeyCode::Enter => match self.list.selected_item() {
                Some(row) => Some(AppEvent::GoToContainerDetails(row.id.clone())),
                None => None,
            },
            KeyCode::Char(c) => if c == 'q' {
                Some(AppEvent::Quit)
            } else if c == 'j' {
                self.list.next();
                None
            } else if c == 'k' {
                self.list.previous();
                None
            } else if c == 't' {
                self.show_all = !self.show_all;
                None
            } else if c == 'd' {
                match self.list.selected_item() {
                    Some(row) => Some(AppEvent::RemoveContainer(row.id.clone())),
                    None => None,
                }
            } else if c == 'r' {
                match self.list.selected_item() {
                    Some(row) => Some(AppEvent::RestartContainer(row.id.clone())),
                    None => None,
                }
            } else if c == 's' {
                match self.list.selected_item() {
                    Some(row) => Some(AppEvent::StopContainer(row.id.clone())),
                    None => None,
                }
            } else if c == 'x' {
                match self.list.selected_item() {
                    Some(row) => Some(AppEvent::KillContainer(row.id.clone())),
                    None => None,
                }
            } else {
                None
            },
            _ => None,
        }
    }

    /// One clock tick: requests a list refresh once the cadence counter
    /// passes its threshold, and counts the tick otherwise.
    pub fn tick(&mut self) -> (r: Option<AppEvent>)
        requires
            old(self).wf(),
        ensures
            final(self).wf(),
            container_tick_step(*old(self), *final(self), r),
    {
        if self.skipped_ticks <= REFRESH_AFTER_TICK {
            self.skipped_ticks = self.skipped_ticks + 1;
            return None;
        }
        self.skipped_ticks = 0;
        Some(AppEvent::UpdateContainers)
    }

    /// Replace the rows wholesale with a fresh projection of the daemon's
    /// container list; heights are recomputed from each row's ports.
    ///
    /// The replacement is skipped only when the total rendered height would
    /// not fit the machine word.
    pub fn update_with_items(&mut self, items: Vec<ContainerTableRow>)
        requires
            old(self).wf(),
        ensures
            final(self).wf(),
            container_refresh_step(*old(self), *final(self), items@),
    {
        let heights = compute_container_heights(&items);
        if heights_total_fits(&heights) {
            self.list.replace_items(items, heights);
        }
    }

    /// The selected row, if any.
    pub fn get_selected_container(&self) -> (r: Option<&ContainerTableRow>)
        requires
            self.wf(),
        ensures
            r is Some <==> self.spec_selected() is Some,
            r matches Some(row) ==> Some(*row) == self.spec_selected(),
    {
        self.list.selected_item()
    }

    /// Footer text for the current toggle state and selection.
    pub fn footer_text(&self) -> (r: String)
        requires
            self.wf(),
        ensures
            r@ == container_footer_text(
                self.show_all,
                match self.spec_selected() {
                    Some(row) => Some(row.state@ == "running"@),
                    None => None,
                },
            ),
    {
        let is_running = match self.list.selected_item() {
            Some(row) => Some(is_running_state(&row.state)),
            None => None,
        };
        get_footer_text(self.show_all, is_running)
    }
}

/// The rendered height of each row, as [`container_row_heights`] states.
fn compute_container_heights(items: &Vec<ContainerTableRow>) -> (r: Vec<usize>)
    ensures
        r@ == container_row_heights(items@),
{
    let mut heights: Vec<usize> = Vec::new();
    let mut i: usize = 0;
    while i < items.len()
        invariant
            i <= items@.len(),
            heights@ == container_row_heights(items@.subrange(0, i as int)),
        decreases items@.len() - i,
    {
        let segs = count_text_lines(items[i].ports.as_str());
        let h: usize = if segs == 0 {
            3
        } else if segs > usize::MAX - 2 {
            usize::MAX
        } else {
            segs + 2
        };
        heights.push(h);
        proof {
            assert(items@.subrange(0, i + 1).drop_last() =~= items@.subrange(0, i as int));
            assert(heights@ =~= container_row_heights(items@.subrange(0, i + 1)));
        }
        i = i + 1;
    }
    proof {
        assert(items@.subrange(0, items@.len() as int) =~= items@);
    }
    heights
}

/// Footer text of the container view, from the toggle state and whether
/// the selected container, if any, is running.
pub fn get_footer_text(show_all: bool, is_running: Option<bool>) -> (r: String)
    ensures
        r@ == container_footer_text(show_all, is_running),
{
    let mut out = String::new();
    out.append(" <Ent> details | <T> ");
    if show_all {
        out.append("All");
    } else {
        out.append("Running");
    }
    match is_running {
        Some(running) => {
            out.append(" | <R> ");
            if running {
                out.append("restart | <S> stop | <X> kill ");
            } else {
                out.append("start ");
            }
            out.append("| <Del/D> remove");
        },
        None => {},
    }
    proof {
        assert(out@ =~= container_footer_text(show_all, is_running));
    }
    out
}

} // verus!
