//! The container detail view: one container's full attribute set behind a
//! two-axis scrollable viewport, refreshed on its own cadence while shown.

use vstd::prelude::*;
use crate::events::{AppEvent, KeyCode, KeyPress, REFRESH_AFTER_TICK};
use crate::sorting::{sort_strings, sort_text_spec};
use crate::text::{
    find_sep, first_sep, joined_lines, join_lines, nonempty_segments, split_nonempty_lines,
    string_views,
};
use crate::viewport::{stepped_down, stepped_left, stepped_right, stepped_up, ViewportState};

verus! {

/// The text an optional string displays, with a fallback when absent.
pub open spec fn option_text(o: Option<String>, fallback: Seq<char>) -> Seq<char> {
    match o {
        Some(s) => s@,
        None => fallback,
    }
}

/// One host binding of a published container port.
#[derive(Clone, Debug, PartialEq, Eq)]
pub struct PortBindingRecord {
    pub host_ip: Option<String>,
    pub host_port: Option<String>,
}

/// One entry of an inspected container's port map: the container-side
/// key, of the shape `port/protocol`, and its host bindings.
#[derive(Clone, Debug, PartialEq, Eq)]
pub struct PortMapEntry {
    pub port_key: String,
    pub bindings: Option<Vec<PortBindingRecord>>,
}

/// One mount of an inspected container.
#[derive(Clone, Debug, PartialEq, Eq)]
pub struct MountRecord {
    /// The mount kind text; a volume mount displays its name, any other
    /// kind its source path.
    pub typ: Option<String>,
    pub name: Option<String>,
    pub source: Option<String>,
    pub destination: Option<String>,
}

/// The configuration part of an inspection result.
#[derive(Clone, Debug, PartialEq, Eq)]
pub struct InspectConfigRecord {
    pub image: Option<String>,
    pub cmd: Option<Vec<String>>,
    pub env: Option<Vec<String>>,
    pub entrypoint: Option<Vec<String>>,
    /// Label pairs, in the order the caller walked them.
    pub labels: Option<Vec<(String, String)>>,
}

/// The network part of an inspection result.
#[derive(Clone, Debug, PartialEq, Eq)]
pub struct InspectNetworkRecord {
    pub ip_address: Option<String>,
    /// Port map entries, in the order the caller walked them.
    pub ports: Option<Vec<PortMapEntry>>,
}

/// The state part of an inspection result; the status is its display
/// text.
#[derive(Clone, Debug, PartialEq, Eq)]
pub struct InspectStateRecord {
    pub status: Option<String>,
    pub started_at: Option<String>,
}

/// The restart policy of an inspected container.
#[derive(Clone, Copy, Debug, PartialEq, Eq, Structural)]
pub enum RestartPolicyKind {
    Empty,
    No,
    Always,
    UnlessStopped,
    OnFailure,
}

/// The display text of a restart policy.
pub open spec fn restart_policy_text(k: RestartPolicyKind) -> Seq<char> {
    match k {
        RestartPolicyKind::Empty => "empty"@,
        RestartPolicyKind::No => "no"@,
        RestartPolicyKind::Always => "always"@,
        RestartPolicyKind::UnlessStopped => "unless-stopped"@,
        RestartPolicyKind::OnFailure => "on-failure"@,
    }
}

/// One inspected container, reduced to the plain values the projection
/// reads.
#[derive(Clone, Debug, PartialEq, Eq)]
pub struct InspectRecord {
    pub id: Option<String>,
    pub name: Option<String>,
    pub created: Option<String>,
    pub config: Option<InspectConfigRecord>,
    pub restart_policy: Option<RestartPolicyKind>,
    pub network: Option<InspectNetworkRecord>,
    pub state: Option<InspectStateRecord>,
    pub mounts: Option<Vec<MountRecord>>,
}

/// The name cell: the inspected name stripped of its leading slash, or a
/// placeholder when it is absent or shaped otherwise.
pub open spec fn detail_name_text(name: Option<String>) -> Seq<char> {
    match name {
        Some(s) => if s@.len() > 0 && s@[0] == '/' {
            s@.subrange(1, s@.len() as int)
        } else {
            "NaN"@
        },
        None => "NaN"@,
    }
}

/// The text of one host binding: `ip:port`, absent parts empty.
pub open spec fn binding_text(b: PortBindingRecord) -> Seq<char> {
    option_text(b.host_ip, Seq::<char>::empty()) + seq![':'] + option_text(
        b.host_port,
        Seq::<char>::empty(),
    )
}

/// The first binding whose host address is `ip`, if any.
pub open spec fn first_binding_for(bs: Seq<PortBindingRecord>, ip: Seq<char>) -> Option<
    PortBindingRecord,
>
    decreases bs.len(),
{
    if bs.len() == 0 {
        None
    } else if bs[0].host_ip matches Some(h) && h@ == ip {
        Some(bs[0])
    } else {
        first_binding_for(bs.drop_first(), ip)
    }
}

/// The text of the binding for `ip`, or empty text when there is none.
pub open spec fn binding_text_for(bs: Option<Vec<PortBindingRecord>>, ip: Seq<char>) -> Seq<
    char,
> {
    match bs {
        Some(v) => match first_binding_for(v@, ip) {
            Some(b) => binding_text(b),
            None => Seq::<char>::empty(),
        },
        None => Seq::<char>::empty(),
    }
}

/// One display line of the port map: the bindings for the wildcard
/// address and for the any-address marker, pointing at the container
/// port and protocol; an entry with neither binding displays empty.
pub open spec fn port_entry_text(e: PortMapEntry) -> Seq<char> {
    let key = e.port_key@;
    let port_number = key.subrange(0, first_sep(key, '/'));
    let protocol = if first_sep(key, '/') == key.len() {
        Seq::<char>::empty()
    } else {
        let rest = key.skip(first_sep(key, '/') + 1);
        rest.subrange(0, first_sep(rest, '/'))
    };
    let ipv4 = binding_text_for(e.bindings, "0.0.0.0"@);
    let ipv6 = binding_text_for(e.bindings, "::"@);
    let target = " -> "@ + port_number + seq!['/'] + protocol;
    if ipv4.len() > 0 && ipv6.len() > 0 {
        ipv4 + " | "@ + ipv6 + target
    } else if ipv4.len() > 0 {
        ipv4 + target
    } else if ipv6.len() > 0 {
        ipv6 + target
    } else {
        Seq::<char>::empty()
    }
}

/// The display line of each port map entry.
pub open spec fn entry_lines_of(entries: Seq<PortMapEntry>) -> Seq<Seq<char>> {
    entries.map_values(|e: PortMapEntry| port_entry_text(e))
}

/// The port-configuration cell: one line per port map entry, in arrival
/// order.
pub open spec fn detail_ports_text(entries: Seq<PortMapEntry>) -> Seq<char> {
    joined_lines(entry_lines_of(entries))
}

/// One display line of a mount: what it mounts, and where.
pub open spec fn mount_line(m: MountRecord) -> Seq<char> {
    let source = match m.typ {
        Some(t) => if t@ == "volume"@ {
            option_text(m.name, "-"@)
        } else {
            option_text(m.source, "-"@)
        },
        None => "-"@,
    };
    source + " -> "@ + option_text(m.destination, "-"@)
}

/// The display line of each mount.
pub open spec fn mount_lines_of(ms: Seq<MountRecord>) -> Seq<Seq<char>> {
    ms.map_values(|m: MountRecord| mount_line(m))
}

/// The volumes cell: one line per mount, sorted.
pub open spec fn mounts_text(ms: Seq<MountRecord>) -> Seq<char> {
    joined_lines(sort_text_spec(mount_lines_of(ms)))
}

/// One display line of a label pair.
pub open spec fn label_line(p: (String, String)) -> Seq<char> {
    p.0@ + ": "@ + p.1@
}

/// The display line of each label pair.
pub open spec fn label_lines_of(ps: Seq<(String, String)>) -> Seq<Seq<char>> {
    ps.map_values(|p: (String, String)| label_line(p))
}

/// The labels cell: one line per label pair, in arrival order.
pub open spec fn labels_text(ps: Seq<(String, String)>) -> Seq<char> {
    joined_lines(label_lines_of(ps))
}

/// The text of an optional multi-line list: its entries joined, or a
/// dash when the list is absent.
pub open spec fn joined_option_text(v: Option<Vec<String>>) -> Seq<char> {
    match v {
        Some(lines) => joined_lines(string_views(lines@)),
        None => "-"@,
    }
}

/// How the detail view's attribute set reads off an inspection record.
pub open spec fn detail_matches_record(d: ContainerData, rec: InspectRecord) -> bool {
    &&& d.id@ == option_text(rec.id, "-"@)
    &&& d.name@ == detail_name_text(rec.name)
    &&& d.image@ == match rec.config {
        Some(c) => option_text(c.image, "-"@),
        None => "-"@,
    }
    &&& d.created@ == option_text(rec.created, "-"@)
    &&& d.state@ == match rec.state {
        Some(st) => option_text(st.status, Seq::<char>::empty()),
        None => Seq::<char>::empty(),
    }
    &&& d.ip_address@ == match rec.network {
        Some(ns) => option_text(ns.ip_address, "-"@),
        None => "-"@,
    }
    &&& d.start_time@ == match rec.state {
        Some(st) => option_text(st.started_at, "-"@),
        None => "-"@,
    }
    &&& d.port_configs@ == match rec.network {
        Some(ns) => match ns.ports {
            Some(entries) => detail_ports_text(entries@),
            None => "-"@,
        },
        None => "-"@,
    }
    &&& d.cmd@ == match rec.config {
        Some(c) => joined_option_text(c.cmd),
        None => "-"@,
    }
    &&& d.entrypoint@ == match rec.config {
        Some(c) => joined_option_text(c.entrypoint),
        None => "-"@,
    }
    &&& d.env@ == match rec.config {
        Some(c) => joined_option_text(c.env),
        None => "-"@,
    }
    &&& d.restart_policy@ == match rec.restart_policy {
        Some(k) => restart_policy_text(k),
        None => "-"@,
    }
    &&& d.volumes@ == match rec.mounts {
        Some(ms) => mounts_text(ms@),
        None => "-"@,
    }
    &&& d.labels@ == match rec.config {
        Some(c) => match c.labels {
            Some(ps) => labels_text(ps@),
            None => "-"@,
        },
        None => "-"@,
    }
}

/// One container's attributes, projected to display strings. The
/// multi-line fields (`port_configs`, `cmd`, `entrypoint`, `env`,
/// `volumes`, `labels`) hold one entry per line; a lone `-` marks an
/// absent value.
#[derive(Clone, Debug, PartialEq, Eq)]
pub struct ContainerData {
    pub id: String,
    pub name: String,
    pub image: String,
    pub created: String,
    pub state: String,
    pub ip_address: String,
    pub start_time: String,
    pub port_configs: String,
    pub cmd: String,
    pub entrypoint: String,
    pub env: String,
    pub restart_policy: String,
    pub volumes: String,
    pub labels: String,
}

impl ContainerData {
    /// All fields empty; the state a detail view opens with before its
    /// first refresh lands.
    pub fn empty() -> (r: ContainerData)
        ensures
            r.id@.len() == 0,
            r.name@.len() == 0,
            r.image@.len() == 0,
            r.created@.len() == 0,
            r.state@.len() == 0,
            r.ip_address@.len() == 0,
            r.start_time@.len() == 0,
            r.port_configs@.len() == 0,
            r.cmd@.len() == 0,
            r.entrypoint@.len() == 0,
            r.env@.len() == 0,
            r.restart_policy@.len() == 0,
            r.volumes@.len() == 0,
            r.labels@.len() == 0,
    {
        ContainerData {
            id: String::new(),
            name: String::new(),
            image: String::new(),
            created: String::new(),
            state: String::new(),
            ip_address: String::new(),
            start_time: String::new(),
            port_configs: String::new(),
            cmd: String::new(),
            entrypoint: String::new(),
            env: String::new(),
            restart_policy: String::new(),
            volumes: String::new(),
            labels: String::new(),
        }
    }

    /// Project one inspection record to the detail view's attribute set,
    /// as [`detail_matches_record`] states.
    pub fn from(rec: &InspectRecord) -> (r: ContainerData)
        ensures
            detail_matches_record(r, *rec),
    {
        let name = match &rec.name {
            Some(s) => if s.unicode_len() > 0 && s.as_str().get_char(0) == '/' {
                s.as_str().substring_char(1, s.unicode_len()).to_owned()
            } else {
                "NaN".to_owned()
            },
            None => "NaN".to_owned(),
        };
        let (image, cmd, env, entrypoint, labels) = match &rec.config {
            Some(c) => (
                option_string(&c.image, "-"),
                joined_option_string(&c.cmd),
                joined_option_string(&c.env),
                joined_option_string(&c.entrypoint),
                match &c.labels {
                    Some(ps) => get_labels_text(ps),
                    None => "-".to_owned(),
                },
            ),
            None => (
                "-".to_owned(),
                "-".to_owned(),
                "-".to_owned(),
                "-".to_owned(),
                "-".to_owned(),
            ),
        };
        let (ip_address, port_configs) = match &rec.network {
            Some(ns) => (
                option_string(&ns.ip_address, "-"),
                match &ns.ports {
                    Some(entries) => get_detail_ports_text(entries),
                    None => "-".to_owned(),
                },
            ),
            None => ("-".to_owned(), "-".to_owned()),
        };
        let (state, start_time) = match &rec.state {
            Some(st) => (option_string(&st.status, ""), option_string(&st.started_at, "-")),
            None => (String::new(), "-".to_owned()),
        };
        let restart_policy = match &rec.restart_policy {
            Some(k) => restart_policy_str(*k).to_owned(),
            None => "-".to_owned(),
        };
        let volumes = match &rec.mounts {
            Some(ms) => get_mounts_text(ms),
            None => "-".to_owned(),
        };
        proof {
            reveal_strlit("");
            assert(""@ =~= Seq::<char>::empty());
        }
        ContainerData {
            id: option_string(&rec.id, "-"),
            name,
            image,
            created: option_string(&rec.created, "-"),
            state,
            ip_address,
            start_time,
            port_configs,
            cmd,
            entrypoint,
            env,
            restart_policy,
            volumes,
            labels,
        }
    }
}

proof fn lemma_first_binding_at(bs: Seq<PortBindingRecord>, ip: Seq<char>, k: int)
    requires
        0 <= k <= bs.len(),
        forall|j: int|
            0 <= j < k ==> !(#[trigger] bs[j].host_ip matches Some(h) && h@ == ip),
        k < bs.len() ==> (bs[k].host_ip matches Some(h) && h@ == ip),
    ensures
        first_binding_for(bs, ip) == if k < bs.len() {
            Some(bs[k])
        } else {
            None::<PortBindingRecord>
        },
    decreases k,
{
    if k > 0 {
        let t = bs.drop_first();
        assert(forall|j: int|
            0 <= j < k - 1 ==> !(#[trigger] t[j].host_ip matches Some(h) && h@ == ip));
        lemma_first_binding_at(t, ip, k - 1);
    }
}

fn find_binding<'a>(bs: &'a Vec<PortBindingRecord>, ip: &String) -> (r: Option<
    &'a PortBindingRecord,
>)
    ensures
        match r {
            Some(b) => first_binding_for(bs@, ip@) == Some(*b),
            None => first_binding_for(bs@, ip@) is None,
        },
{
    let mut k: usize = 0;
    while k < bs.len()
        invariant
            k <= bs@.len(),
            forall|j: int|
                0 <= j < k ==> !(#[trigger] bs@[j].host_ip matches Some(h) && h@ == ip@),
        decreases bs@.len() - k,
    {
        let found = match &bs[k].host_ip {
            Some(h) => *h == *ip,
            None => false,
        };
        if found {
            proof {
                lemma_first_binding_at(bs@, ip@, k as int);
            }
            return Some(&bs[k]);
        }
        k = k + 1;
    }
    proof {
        lemma_first_binding_at(bs@, ip@, bs@.len() as int);
    }
    None
}

fn binding_string(b: &PortBindingRecord) -> (r: String)
    ensures
        r@ == binding_text(*b),
{
    let mut out = match &b.host_ip {
        Some(h) => h.clone(),
        None => String::new(),
    };
    out.append(":");
    match &b.host_port {
        Some(p) => out.append(p.as_str()),
        None => {},
    }
    proof {
        reveal_strlit(":");
        assert(":"@ =~= seq![':']);
        assert(out@ =~= binding_text(*b));
    }
    out
}

fn binding_string_for(bs: &Option<Vec<PortBindingRecord>>, ip: &String) -> (r: String)
    ensures
        r@ == binding_text_for(*bs, ip@),
{
    match bs {
        Some(v) => match find_binding(v, ip) {
            Some(b) => binding_string(b),
            None => String::new(),
        },
        None => String::new(),
    }
}

fn port_entry_string(e: &PortMapEntry) -> (r: String)
    ensures
        r@ == port_entry_text(*e),
{
    let key = e.port_key.as_str();
    let n = key.unicode_len();
    let a = find_sep(key, '/');
    let port_number = key.substring_char(0, a).to_owned();
    let protocol = if a == n {
        String::new()
    } else {
        let rest = key.substring_char(a + 1, n);
        proof {
            assert(rest@ =~= key@.skip(a + 1));
        }
        let b = find_sep(rest, '/');
        rest.substring_char(0, b).to_owned()
    };
    let ipv4 = binding_string_for(&e.bindings, &"0.0.0.0".to_owned());
    let ipv6 = binding_string_for(&e.bindings, &"::".to_owned());
    let has4 = ipv4.as_str().unicode_len() > 0;
    let has6 = ipv6.as_str().unicode_len() > 0;
    let mut out = String::new();
    if has4 && has6 {
        out.append(ipv4.as_str());
        out.append(" | ");
        out.append(ipv6.as_str());
        out.append(" -> ");
        out.append(port_number.as_str());
        out.append("/");
        out.append(protocol.as_str());
    } else if has4 {
        out.append(ipv4.as_str());
        out.append(" -> ");
        out.append(port_number.as_str());
        out.append("/");
        out.append(protocol.as_str());
    } else if has6 {
        out.append(ipv6.as_str());
        out.append(" -> ");
        out.append(port_number.as_str());
        out.append("/");
        out.append(protocol.as_str());
    }
    proof {
        reveal_strlit("/");
        assert("/"@ =~= seq!['/']);
        assert(out@ =~= port_entry_text(*e));
    }
    out
}

/// Render the port-configuration cell, as [`detail_ports_text`] states.
pub fn get_detail_ports_text(entries: &Vec<PortMapEntry>) -> (r: String)
    ensures
        r@ == detail_ports_text(entries@),
{
    let mut lines: Vec<String> = Vec::new();
    let mut i: usize = 0;
    while i < entries.len()
        invariant
            i <= entries@.len(),
            string_views(lines@) == entry_lines_of(entries@.subrange(0, i as int)),
        decreases entries@.len() - i,
    {
        let ghost lines_before = lines@;
        lines.push(port_entry_string(&entries[i]));
        proof {
            assert(string_views(lines_before).len() == lines_before.len());
            assert(entry_lines_of(entries@.subrange(0, i as int)).len() == i);
            let target = entry_lines_of(entries@.subrange(0, i + 1));
            assert(target.len() == i + 1);
            assert forall|t: int| 0 <= t < lines@.len() implies #[trigger] string_views(
                lines@,
            )[t] == target[t] by {
                if t < i {
                    assert(string_views(lines_before)[t] == entry_lines_of(
                        entries@.subrange(0, i as int),
                    )[t]);
                    assert(string_views(lines_before)[t] == lines_before[t]@);
                    assert(entry_lines_of(entries@.subrange(0, i as int))[t] == port_entry_text(
                        entries@.subrange(0, i as int)[t],
                    ));
                }
            }
            assert(string_views(lines@).len() == target.len());
            assert(string_views(lines@) =~= target);
        }
        i = i + 1;
    }
    proof {
        assert(entries@.subrange(0, entries@.len() as int) =~= entries@);
    }
    join_lines(&lines)
}

fn mount_line_string(m: &MountRecord) -> (r: String)
    ensures
        r@ == mount_line(*m),
{
    let is_volume = match &m.typ {
        Some(t) => *t == "volume".to_owned(),
        None => false,
    };
    let mut out = if m.typ.is_some() && is_volume {
        match &m.name {
            Some(s) => s.clone(),
            None => "-".to_owned(),
        }
    } else if m.typ.is_some() {
        match &m.source {
            Some(s) => s.clone(),
            None => "-".to_owned(),
        }
    } else {
        "-".to_owned()
    };
    out.append(" -> ");
    match &m.destination {
        Some(d) => out.append(d.as_str()),
        None => out.append("-"),
    }
    proof {
        assert(out@ =~= mount_line(*m));
    }
    out
}

/// Render the volumes cell, as [`mounts_text`] states.
pub fn get_mounts_text(mounts: &Vec<MountRecord>) -> (r: String)
    ensures
        r@ == mounts_text(mounts@),
{
    let mut lines: Vec<String> = Vec::new();
    let mut i: usize = 0;
    while i < mounts.len()
        invariant
            i <= mounts@.len(),
            string_views(lines@) == mount_lines_of(mounts@.subrange(0, i as int)),
        decreases mounts@.len() - i,
    {
        let ghost lines_before = lines@;
        lines.push(mount_line_string(&mounts[i]));
        proof {
            assert(string_views(lines_before).len() == lines_before.len());
            assert(mount_lines_of(mounts@.subrange(0, i as int)).len() == i);
            let target = mount_lines_of(mounts@.subrange(0, i + 1));
            assert(target.len() == i + 1);
            assert forall|t: int| 0 <= t < lines@.len() implies #[trigger] string_views(
                lines@,
            )[t] == target[t] by {
                if t < i {
                    assert(string_views(lines_before)[t] == mount_lines_of(
                        mounts@.subrange(0, i as int),
                    )[t]);
                    assert(string_views(lines_before)[t] == lines_before[t]@);
                    assert(mount_lines_of(mounts@.subrange(0, i as int))[t] == mount_line(
                        mounts@.subrange(0, i as int)[t],
                    ));
                }
            }
            assert(string_views(lines@).len() == target.len());
            assert(string_views(lines@) =~= target);
        }
        i = i + 1;
    }
    proof {
        assert(mounts@.subrange(0, mounts@.len() as int) =~= mounts@);
    }
    let sorted = sort_strings(lines);
    join_lines(&sorted)
}

fn label_line_string(p: &(String, String)) -> (r: String)
    ensures
        r@ == label_line(*p),
{
    let mut out = p.0.clone();
    out.append(": ");
    out.append(p.1.as_str());
    proof {
        assert(out@ =~= label_line(*p));
    }
    out
}

/// Render the labels cell, as [`labels_text`] states.
pub fn get_labels_text(pairs: &Vec<(String, String)>) -> (r: String)
    ensures
        r@ == labels_text(pairs@),
{
    let mut lines: Vec<String> = Vec::new();
    let mut i: usize = 0;
    while i < pairs.len()
        invariant
            i <= pairs@.len(),
            string_views(lines@) == label_lines_of(pairs@.subrange(0, i as int)),
        decreases pairs@.len() - i,
    {
        let ghost lines_before = lines@;
        lines.push(label_line_string(&pairs[i]));
        proof {
            assert(string_views(lines_before).len() == lines_before.len());
            assert(label_lines_of(pairs@.subrange(0, i as int)).len() == i);
            let target = label_lines_of(pairs@.subrange(0, i + 1));
            assert(target.len() == i + 1);
            assert forall|t: int| 0 <= t < lines@.len() implies #[trigger] string_views(
                lines@,
            )[t] == target[t] by {
                if t < i {
                    assert(string_views(lines_before)[t] == label_lines_of(
                        pairs@.subrange(0, i as int),
                    )[t]);
                    assert(string_views(lines_before)[t] == lines_before[t]@);
                    assert(label_lines_of(pairs@.subrange(0, i as int))[t] == label_line(
                        pairs@.subrange(0, i as int)[t],
                    ));
                }
            }
            assert(string_views(lines@).len() == target.len());
            assert(string_views(lines@) =~= target);
        }
        i = i + 1;
    }
    proof {
        assert(pairs@.subrange(0, pairs@.len() as int) =~= pairs@);
    }
    join_lines(&lines)
}

fn restart_policy_str(k: RestartPolicyKind) -> (r: &'static str)
    ensures
        r@ == restart_policy_text(k),
{
    match k {
        RestartPolicyKind::Empty => "empty",
        RestartPolicyKind::No => "no",
        RestartPolicyKind::Always => "always",
        RestartPolicyKind::UnlessStopped => "unless-stopped",
        RestartPolicyKind::OnFailure => "on-failure",
    }
}

fn option_string(o: &Option<String>, fallback: &'static str) -> (r: String)
    ensures
        r@ == match o {
            Some(s) => s@,
            None => fallback@,
        },
{
    match o {
        Some(s) => s.clone(),
        None => fallback.to_owned(),
    }
}

fn joined_option_string(v: &Option<Vec<String>>) -> (r: String)
    ensures
        r@ == joined_option_text(*v),
{
    match v {
        Some(lines) => join_lines(lines),
        None => "-".to_owned(),
    }
}

/// The views of a sequence of key/content string pairs.
pub open spec fn pair_views(s: Seq<(String, String)>) -> Seq<(Seq<char>, Seq<char>)> {
    s.map_values(|p: (String, String)| (p.0@, p.1@))
}

/// One keyless display item per entry, each reading ` - entry`.
pub open spec fn item_lines_of(texts: Seq<Seq<char>>) -> Seq<(Seq<char>, Seq<char>)> {
    texts.map_values(|d: Seq<char>| (Seq::<char>::empty(), " - "@ + d))
}

/// The lines a multi-line field contributes to the detail block: nothing
/// when the field has no non-empty lines; else a spacer, the header, and
/// one sorted item per entry.
pub open spec fn section_lines(header: Seq<char>, field: Seq<char>) -> Seq<
    (Seq<char>, Seq<char>),
> {
    let segs = nonempty_segments(field);
    if segs.len() == 0 {
        Seq::<(Seq<char>, Seq<char>)>::empty()
    } else {
        seq![
            (Seq::<char>::empty(), Seq::<char>::empty()),
            (header, Seq::<char>::empty()),
        ] + item_lines_of(sort_text_spec(segs))
    }
}

/// The labelled single-value lines of the detail block, with the address
/// when one is set.
pub open spec fn labeled_head(d: ContainerData) -> Seq<(Seq<char>, Seq<char>)> {
    seq![
        ("ID: "@, d.id@),
        ("Image: "@, d.image@),
        ("Created: "@, d.created@),
        ("Start Time: "@, d.start_time@),
        ("Restart Policy: "@, d.restart_policy@),
        ("State: "@, d.state@),
        (Seq::<char>::empty(), Seq::<char>::empty()),
        ("CMD: "@, d.cmd@),
        ("Entrypoint: "@, d.entrypoint@),
    ] + (if d.ip_address@.len() > 0 {
        seq![
            (Seq::<char>::empty(), Seq::<char>::empty()),
            ("IP Address: "@, d.ip_address@),
        ]
    } else {
        Seq::<(Seq<char>, Seq<char>)>::empty()
    })
}

/// Every line of the detail block before filtering: the labelled
/// single-value fields, the address when one is set, and one section per
/// multi-line field.
pub open spec fn labeled_lines(d: ContainerData) -> Seq<(Seq<char>, Seq<char>)> {
    labeled_head(d) + section_lines("Port Configs:"@, d.port_configs@) + section_lines(
        "Volumes:"@,
        d.volumes@,
    ) + section_lines("Env:"@, d.env@) + section_lines("Labels:"@, d.labels@)
}

/// The lines kept for display: every line whose content is not a bare
/// dash.
pub open spec fn keep_content(lines: Seq<(Seq<char>, Seq<char>)>) -> Seq<(Seq<char>, Seq<char>)>
    decreases lines.len(),
{
    if lines.len() == 0 {
        lines
    } else {
        let rest = keep_content(lines.drop_last());
        if lines.last().1 == "-"@ {
            rest
        } else {
            rest.push(lines.last())
        }
    }
}

/// The whole text block of the detail view, as key/content pairs.
pub open spec fn content_lines_spec(d: ContainerData) -> Seq<(Seq<char>, Seq<char>)> {
    keep_content(labeled_lines(d))
}

/// Split a multi-line field into sorted display items: nothing when it
/// has no non-empty lines, else one ` - entry` item per line, sorted.
pub fn get_filtered_list(data: &str) -> (r: Option<Vec<(String, String)>>)
    ensures
        match r {
            Some(v) => nonempty_segments(data@).len() > 0 && pair_views(v@) == item_lines_of(
                sort_text_spec(nonempty_segments(data@)),
            ),
            None => nonempty_segments(data@).len() == 0,
        },
{
    let segs = split_nonempty_lines(data);
    proof {
        assert(string_views(segs@).len() == segs@.len());
    }
    if segs.len() == 0 {
        return None;
    }
    let sorted = sort_strings(segs);
    let ghost sorted_views = sort_text_spec(nonempty_segments(data@));
    proof {
        assert(string_views(sorted@) == sorted_views);
        assert(string_views(sorted@).len() == sorted@.len());
    }
    let mut items: Vec<(String, String)> = Vec::new();
    let mut i: usize = 0;
    while i < sorted.len()
        invariant
            i <= sorted@.len(),
            string_views(sorted@) == sorted_views,
            pair_views(items@) == item_lines_of(sorted_views.subrange(0, i as int)),
        decreases sorted@.len() - i,
    {
        let ghost items_before = items@;
        let mut item = " - ".to_owned();
        item.append(sorted[i].as_str());
        items.push((String::new(), item));
        proof {
            assert(string_views(sorted@)[i as int] == sorted@[i as int]@);
            assert(pair_views(items_before).len() == items_before.len());
            assert(item_lines_of(sorted_views.subrange(0, i as int)).len() == i);
            let target = item_lines_of(sorted_views.subrange(0, i + 1));
            assert(target.len() == i + 1);
            assert forall|t: int| 0 <= t < items@.len() implies #[trigger] pair_views(items@)[t]
                == target[t] by {
                if t < i {
                    assert(pair_views(items_before)[t] == item_lines_of(
                        sorted_views.subrange(0, i as int),
                    )[t]);
                    assert(pair_views(items_before)[t] == (items_before[t].0@, items_before[t].1@));
                    assert(item_lines_of(sorted_views.subrange(0, i as int))[t] == (
                        Seq::<char>::empty(),
                        " - "@ + sorted_views.subrange(0, i as int)[t],
                    ));
                }
            }
            assert(pair_views(items@).len() == target.len());
            assert(pair_views(items@) =~= target);
        }
        i = i + 1;
    }
    proof {
        assert(sorted_views.subrange(0, sorted_views.len() as int) =~= sorted_views);
    }
    Some(items)
}

fn push_section(all: &mut Vec<(String, String)>, header: &'static str, field: &str)
    ensures
        pair_views(final(all)@) == pair_views(old(all)@) + section_lines(header@, field@),
{
    let ghost base = old(all)@;
    match get_filtered_list(field) {
        Some(items) => {
            all.push((String::new(), String::new()));
            all.push((header.to_owned(), String::new()));
            let ghost items_seq = items@;
            let ghost mid = all@;
            let mut rest = items;
            all.append(&mut rest);
            proof {
                let target = pair_views(base) + section_lines(header@, field@);
                let items_lines = item_lines_of(sort_text_spec(nonempty_segments(field@)));
                assert(pair_views(items_seq) == items_lines);
                assert(pair_views(items_seq).len() == items_seq.len());
                assert(pair_views(base).len() == base.len());
                assert(all@ == mid + items_seq);
                assert(mid.len() == base.len() + 2);
                assert(pair_views(all@).len() == all@.len());
                assert(section_lines(header@, field@).len() == 2 + items_lines.len());
                assert forall|t: int| 0 <= t < all@.len() implies #[trigger] pair_views(all@)[t]
                    == target[t] by {
                    assert(pair_views(all@)[t] == (all@[t].0@, all@[t].1@));
                    if t < base.len() {
                        assert(all@[t] == base[t]);
                        assert(pair_views(base)[t] == (base[t].0@, base[t].1@));
                    } else if t >= base.len() + 2 {
                        let u = t - base.len() - 2;
                        assert(all@[t] == items_seq[u]);
                        assert(pair_views(items_seq)[u] == (items_seq[u].0@, items_seq[u].1@));
                    } else {
                        assert(all@[t] == mid[t]);
                    }
                }
                assert(pair_views(all@) =~= target);
            }
        },
        None => {
            proof {
                assert(pair_views(all@) =~= pair_views(base) + section_lines(header@, field@));
            }
        },
    }
}

/// Build the whole text block of the detail view, as
/// [`content_lines_spec`] states.
pub fn get_content_as_lines(data: &ContainerData) -> (r: Vec<(String, String)>)
    ensures
        pair_views(r@) == content_lines_spec(*data),
{
    let mut all: Vec<(String, String)> = Vec::new();
    all.push(("ID: ".to_owned(), data.id.clone()));
    all.push(("Image: ".to_owned(), data.image.clone()));
    all.push(("Created: ".to_owned(), data.created.clone()));
    all.push(("Start Time: ".to_owned(), data.start_time.clone()));
    all.push(("Restart Policy: ".to_owned(), data.restart_policy.clone()));
    all.push(("State: ".to_owned(), data.state.clone()));
    all.push((String::new(), String::new()));
    all.push(("CMD: ".to_owned(), data.cmd.clone()));
    all.push(("Entrypoint: ".to_owned(), data.entrypoint.clone()));
    if data.ip_address.as_str().unicode_len() > 0 {
        all.push((String::new(), String::new()));
        all.push(("IP Address: ".to_owned(), data.ip_address.clone()));
    }
    proof {
        assert(pair_views(all@).len() == all@.len());
        assert(pair_views(all@) =~= labeled_head(*data));
    }
    push_section(&mut all, "Port Configs:", data.port_configs.as_str());
    push_section(&mut all, "Volumes:", data.volumes.as_str());
    push_section(&mut all, "Env:", data.env.as_str());
    push_section(&mut all, "Labels:", data.labels.as_str());
    proof {
        assert(pair_views(all@) =~= labeled_lines(*data));
    }
    let ghost all_lines = pair_views(all@);
    let dash = "-".to_owned();
    let mut out: Vec<(String, String)> = Vec::new();
    let mut i: usize = 0;
    while i < all.len()
        invariant
            i <= all@.len(),
            pair_views(all@) == all_lines,
            all_lines == labeled_lines(*data),
            dash@ == "-"@,
            pair_views(out@) == keep_content(all_lines.subrange(0, i as int)),
        decreases all@.len() - i,
    {
        let ghost out_before = out@;
        let keep = !(all[i].1 == dash);
        if keep {
            out.push((all[i].0.clone(), all[i].1.clone()));
        }
        proof {
            assert(pair_views(all@).len() == all@.len());
            assert(pair_views(all@)[i as int] == (all@[i as int].0@, all@[i as int].1@));
            assert(all_lines.subrange(0, i + 1).drop_last() =~= all_lines.subrange(0, i as int));
            assert(all_lines.subrange(0, i + 1).last() == all_lines[i as int]);
            assert(pair_views(out_before).len() == out_before.len());
            assert(keep_content(all_lines.subrange(0, i as int)).len() == out_before.len());
            if keep {
                let target = keep_content(all_lines.subrange(0, i + 1));
                assert(target == keep_content(all_lines.subrange(0, i as int)).push(
                    all_lines[i as int],
                ));
                assert forall|t: int| 0 <= t < out@.len() implies #[trigger] pair_views(out@)[t]
                    == target[t] by {
                    if t < out_before.len() {
                        assert(pair_views(out_before)[t] == (out_before[t].0@, out_before[t].1@));
                        assert(out@[t] == out_before[t]);
                    }
                }
                assert(pair_views(out@).len() == target.len());
                assert(pair_views(out@) =~= target);
            } else {
                assert(keep_content(all_lines.subrange(0, i + 1)) == keep_content(
                    all_lines.subrange(0, i as int),
                ));
            }
        }
        i = i + 1;
    }
    proof {
        assert(all_lines.subrange(0, all_lines.len() as int) =~= all_lines);
    }
    out
}

/// The command the detail view emits for a key: lifecycle verbs against
/// the shown container, the back keys, and nothing for navigation.
pub open spec fn detail_key_command(code: KeyCode, id: String) -> Option<AppEvent> {
    match code {
        KeyCode::Esc => Some(AppEvent::Back),
        KeyCode::Delete => Some(AppEvent::RemoveContainer(id)),
        KeyCode::Char(c) => if c == 'q' {
            Some(AppEvent::Back)
        } else if c == 'd' {
            Some(AppEvent::RemoveContainer(id))
        } else if c == 'r' {
            Some(AppEvent::RestartContainer(id))
        } else if c == 's' {
            Some(AppEvent::StopContainer(id))
        } else if c == 'x' {
            Some(AppEvent::KillContainer(id))
        } else {
            None
        },
        _ => None,
    }
}

/// How the viewport moves for a key that the detail view treats as
/// navigation; unknown keys leave it alone.
pub open spec fn detail_scrolled(code: KeyCode, pre: ViewportState) -> ViewportState {
    match code {
        KeyCode::Up => stepped_up(pre),
        KeyCode::Down => stepped_down(pre),
        KeyCode::Right => stepped_right(pre),
        KeyCode::Left => stepped_left(pre),
        KeyCode::Home => ViewportState { horizontal: 0, ..pre },
        KeyCode::End => ViewportState { horizontal: pre.max_horizontal, ..pre },
        KeyCode::PageUp => ViewportState { vertical: 0, ..pre },
        KeyCode::PageDown => ViewportState { vertical: pre.max_vertical, ..pre },
        KeyCode::Char(c) => if c == 'k' {
            stepped_up(pre)
        } else if c == 'j' {
            stepped_down(pre)
        } else if c == 'l' {
            stepped_right(pre)
        } else if c == 'h' {
            stepped_left(pre)
        } else {
            pre
        },
        _ => pre,
    }
}

/// How one key press moves the detail view from `pre` to `post` and what
/// command `r` it emits: verbs and back emit as [`detail_key_command`]
/// states, navigation moves the viewport as [`detail_scrolled`] states.
pub open spec fn detail_key_step(
    pre: ContainerInfoBlock,
    post: ContainerInfoBlock,
    code: KeyCode,
    r: Option<AppEvent>,
) -> bool {
    &&& post.data == pre.data
    &&& post.skipped_ticks == pre.skipped_ticks
    &&& r == detail_key_command(code, pre.data.id)
    &&& post.scroll == detail_scrolled(code, pre.scroll)
}

/// How one clock tick moves the detail view from `pre` to `post` and what
/// command `r` it emits: the cadence counter climbs until it passes its
/// threshold, then resets while a refresh of the shown container is
/// requested.
pub open spec fn detail_tick_step(
    pre: ContainerInfoBlock,
    post: ContainerInfoBlock,
    r: Option<AppEvent>,
) -> bool {
    &&& post.data == pre.data
    &&& post.scroll == pre.scroll
    &&& (pre.skipped_ticks <= REFRESH_AFTER_TICK ==> post.skipped_ticks == pre.skipped_ticks + 1
        && r is None)
    &&& (pre.skipped_ticks > REFRESH_AFTER_TICK ==> post.skipped_ticks == 0 && r == Some(
        AppEvent::UpdateContainerInfo(pre.data.id),
    ))
}

/// State of the container detail view.
pub struct ContainerInfoBlock {
    /// The shown container's attributes.
    pub data: ContainerData,
    /// Scroll state over the rendered attribute block.
    pub scroll: ViewportState,
    /// Ticks seen since the last refresh request.
    pub skipped_ticks: u8,
}

impl ContainerInfoBlock {
    pub open spec fn wf(&self) -> bool {
        self.scroll.wf()
    }

    /// A fresh detail view for the given attributes, scrolled to the
    /// origin.
    pub fn new(data: ContainerData) -> (r: ContainerInfoBlock)
        ensures
            r.data == data,
            r.scroll.vertical == 0,
            r.scroll.horizontal == 0,
            r.scroll.max_vertical == 0,
            r.scroll.max_horizontal == 0,
            r.skipped_ticks == 0,
            r.wf(),
    {
        ContainerInfoBlock { data, scroll: ViewportState::new(), skipped_ticks: 0 }
    }

    /// Route one key press: verbs and back emit a command as
    /// [`detail_key_command`] states, navigation moves the viewport as
    /// [`detail_scrolled`] states.
    pub fn handle_key_event(&mut self, key: KeyPress) -> (r: Option<AppEvent>)
        requires
            old(self).wf(),
        ensures
            final(self).wf(),
            detail_key_step(*old(self), *final(self), key.code, r),
    {
        match key.code {
            KeyCode::Esc => Some(AppEvent::Back),
            KeyCode::Delete => Some(AppEvent::RemoveContainer(self.data.id.clone())),
            KeyCode::Up => {
                self.scroll.scroll_up();
                None
            },
            KeyCode::Down => {
                self.scroll.scroll_down();
                None
            },
            KeyCode::Right => {
                self.scroll.scroll_right();
                None
            },
            KeyCode::Left => {
                self.scroll.scroll_left();
                None
            },
            KeyCode::Home => {
                self.scroll.scroll_to_start();
                None
            },
            KeyCode::End => {
                self.scroll.scroll_to_end();
                None
            },
            KeyCode::PageUp => {
                self.scroll.scroll_to_top();
                None
            },
            KeyCode::PageDown => {
                self.scroll.scroll_to_bottom();
                None
            },
            KeyCode::Char(c) => if c == 'q' {
                Some(AppEvent::Back)
            } else if c == 'd' {
                Some(AppEvent::RemoveContainer(self.data.id.clone()))
            } else if c == 'r' {
                Some(AppEvent::RestartContainer(self.data.id.clone()))
            } else if c == 's' {
                Some(AppEvent::StopContainer(self.data.id.clone()))
            } else if c == 'x' {
                Some(AppEvent::KillContainer(self.data.id.clone()))
            } else if c == 'k' {
                self.scroll.scroll_up();
                None
            } else if c == 'j' {
                self.scroll.scroll_down();
                None
            } else if c == 'l' {
                self.scroll.scroll_right();
                None
            } else if c == 'h' {
                self.scroll.scroll_left();
                None
            } else {
                None
            },
            _ => None,
        }
    }

    /// One clock tick: requests a refresh of the shown container on the
    /// cadence.
    pub fn tick(&mut self) -> (r: Option<AppEvent>)
        requires
            old(self).wf(),
        ensures
            final(self).wf(),
            detail_tick_step(*old(self), *final(self), r),
    {
        if self.skipped_ticks <= REFRESH_AFTER_TICK {
            self.skipped_ticks = self.skipped_ticks + 1;
            return None;
        }
        self.skipped_ticks = 0;
        Some(AppEvent::UpdateContainerInfo(self.data.id.clone()))
    }

    /// Replace the shown attributes with a fresh inspection result.
    pub fn update_data(&mut self, data: ContainerData)
        ensures
            final(self).data == data,
            final(self).scroll == old(self).scroll,
            final(self).skipped_ticks == old(self).skipped_ticks,
    {
        self.data = data;
    }
}

} // verus!
