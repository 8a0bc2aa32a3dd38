//! The screen/operation controller.
//!
//! One `App` value holds the active screen (the tabbed list screen or the
//! container detail screen), the four resource views, and at most one
//! in-flight daemon operation. It routes every event of the merged stream
//! to the showing view, drains the commands the views emit, decides which
//! daemon call the surrounding loop must make, and folds call outcomes
//! back into the owning view — but only while that view is still showing.

use vstd::prelude::*;
use crate::containers::{
    container_key_step, container_refresh_step, container_tick_step, ContainerTable,
    ContainerTableRow,
};
use crate::detail::{
    detail_key_step, detail_tick_step, ContainerData, ContainerInfoBlock,
};
use crate::events::{AppEvent, DaemonRequest, KeyCode, KeyPress};
use crate::images::{image_key_step, image_refresh_step, image_tick_step, ImageTable, ImageTableRow};
use crate::networks::{
    network_key_step, network_refresh_step, network_tick_step, NetworkTable, NetworkTableRow,
};
use crate::volumes::{
    volume_key_step, volume_refresh_step, volume_tick_step, VolumeTable, VolumeTableRow,
};

verus! {

/// The resource tab shown on the list screen.
#[derive(Clone, Copy, Debug, PartialEq, Eq, Structural)]
pub enum SelectedTab {
    Containers,
    Volumes,
    Networks,
    Images,
}

/// The tab one step to the right; the last tab stays put.
pub open spec fn tab_next(t: SelectedTab) -> SelectedTab {
    match t {
        SelectedTab::Containers => SelectedTab::Volumes,
        SelectedTab::Volumes => SelectedTab::Networks,
        SelectedTab::Networks => SelectedTab::Images,
        SelectedTab::Images => SelectedTab::Images,
    }
}

/// The tab one step to the left; the first tab stays put.
pub open spec fn tab_previous(t: SelectedTab) -> SelectedTab {
    match t {
        SelectedTab::Containers => SelectedTab::Containers,
        SelectedTab::Volumes => SelectedTab::Containers,
        SelectedTab::Networks => SelectedTab::Volumes,
        SelectedTab::Images => SelectedTab::Networks,
    }
}

/// The display name of a tab.
pub open spec fn tab_title(t: SelectedTab) -> Seq<char> {
    match t {
        SelectedTab::Containers => "Containers"@,
        SelectedTab::Volumes => "Volumes"@,
        SelectedTab::Networks => "Networks"@,
        SelectedTab::Images => "Images"@,
    }
}

impl SelectedTab {
    /// Move one tab to the right, as [`tab_next`] states.
    pub fn next(self) -> (r: SelectedTab)
        ensures
            r == tab_next(self),
    {
        match self {
            SelectedTab::Containers => SelectedTab::Volumes,
            SelectedTab::Volumes => SelectedTab::Networks,
            SelectedTab::Networks => SelectedTab::Images,
            SelectedTab::Images => SelectedTab::Images,
        }
    }

    /// Move one tab to the left, as [`tab_previous`] states.
    pub fn previous(self) -> (r: SelectedTab)
        ensures
            r == tab_previous(self),
    {
        match self {
            SelectedTab::Containers => SelectedTab::Containers,
            SelectedTab::Volumes => SelectedTab::Containers,
            SelectedTab::Networks => SelectedTab::Volumes,
            SelectedTab::Images => SelectedTab::Networks,
        }
    }

    /// The display name of the tab.
    pub fn title(self) -> (r: &'static str)
        ensures
            r@ == tab_title(self),
    {
        match self {
            SelectedTab::Containers => "Containers",
            SelectedTab::Volumes => "Volumes",
            SelectedTab::Networks => "Networks",
            SelectedTab::Images => "Images",
        }
    }
}

/// The one in-flight mutating container operation the controller is
/// retrying against the daemon.
#[derive(Clone, Debug, PartialEq, Eq)]
pub enum PendingOperation {
    Restart(String),
    Stop(String),
    Kill(String),
    Remove(String),
}

/// The daemon call that carries out a pending operation.
pub open spec fn pending_request_spec(p: Option<PendingOperation>) -> Option<DaemonRequest> {
    match p {
        None => None,
        Some(PendingOperation::Restart(id)) => Some(DaemonRequest::RestartContainer(id)),
        Some(PendingOperation::Stop(id)) => Some(DaemonRequest::StopContainer(id)),
        Some(PendingOperation::Kill(id)) => Some(DaemonRequest::KillContainer(id)),
        Some(PendingOperation::Remove(id)) => Some(DaemonRequest::RemoveContainer(id)),
    }
}

/// A detail view freshly opened for `id`: every attribute still empty but
/// the id, the viewport at the origin, the cadence counter at zero.
pub open spec fn detail_opened(b: ContainerInfoBlock, id: String) -> bool {
    &&& b.data.id == id
    &&& b.data.name@.len() == 0
    &&& b.data.image@.len() == 0
    &&& b.data.created@.len() == 0
    &&& b.data.state@.len() == 0
    &&& b.data.ip_address@.len() == 0
    &&& b.data.start_time@.len() == 0
    &&& b.data.port_configs@.len() == 0
    &&& b.data.cmd@.len() == 0
    &&& b.data.entrypoint@.len() == 0
    &&& b.data.env@.len() == 0
    &&& b.data.restart_policy@.len() == 0
    &&& b.data.volumes@.len() == 0
    &&& b.data.labels@.len() == 0
    &&& b.scroll.vertical == 0
    &&& b.scroll.horizontal == 0
    &&& b.scroll.max_vertical == 0
    &&& b.scroll.max_horizontal == 0
    &&& b.skipped_ticks == 0
}

/// The whole session state owned by the controller.
pub struct App {
    /// The control loop runs while this holds.
    pub running: bool,
    /// The tab shown on the list screen.
    pub selected_tab: SelectedTab,
    pub container_table: ContainerTable,
    pub volume_table: VolumeTable,
    pub network_table: NetworkTable,
    pub image_table: ImageTable,
    /// The detail screen, when one is open; otherwise the list screen
    /// shows.
    pub container_info: Option<ContainerInfoBlock>,
    /// At most one in-flight mutating container operation.
    pub pending_operation: Option<PendingOperation>,
}

/// How one key press moves the whole session from `pre` to `post` and
/// what command `r` it emits: quit on control-c; keys go to the detail
/// view while it shows; otherwise the tab keys switch tabs and every
/// other key goes to the shown table.
pub open spec fn app_key_step(pre: App, post: App, key: KeyPress, r: Option<AppEvent>) -> bool {
    if key.ctrl && key.code == KeyCode::Char('c') {
        post == pre && r == Some(AppEvent::Quit)
    } else if pre.container_info is Some {
        &&& pre.container_info matches Some(b)
        &&& post.container_info matches Some(b2)
        &&& detail_key_step(b, b2, key.code, r)
        &&& post == (App { container_info: post.container_info, ..pre })
    } else {
        match key.code {
            KeyCode::Right => post == (App { selected_tab: tab_next(pre.selected_tab), ..pre })
                && r is None,
            KeyCode::Left => post == (App { selected_tab: tab_previous(pre.selected_tab), ..pre })
                && r is None,
            KeyCode::Char(c) => if c == 'l' || c == 'L' {
                post == (App { selected_tab: tab_next(pre.selected_tab), ..pre }) && r is None
            } else if c == 'h' || c == 'H' {
                post == (App { selected_tab: tab_previous(pre.selected_tab), ..pre }) && r is None
            } else {
                app_table_key_step(pre, post, key.code, r)
            },
            _ => app_table_key_step(pre, post, key.code, r),
        }
    }
}

/// A key handled by the table of the shown tab, the rest of the session
/// untouched.
pub open spec fn app_table_key_step(pre: App, post: App, code: KeyCode, r: Option<
    AppEvent,
>) -> bool {
    match pre.selected_tab {
        SelectedTab::Containers => container_key_step(pre.container_table, post.container_table, code, r)
            && post == (App { container_table: post.container_table, ..pre }),
        SelectedTab::Volumes => volume_key_step(pre.volume_table, post.volume_table, code, r)
            && post == (App { volume_table: post.volume_table, ..pre }),
        SelectedTab::Networks => network_key_step(pre.network_table, post.network_table, code, r)
            && post == (App { network_table: post.network_table, ..pre }),
        SelectedTab::Images => image_key_step(pre.image_table, post.image_table, code, r)
            && post == (App { image_table: post.image_table, ..pre }),
    }
}

/// How one clock tick moves the session: the showing view counts the tick
/// and may request its refresh; nothing else changes.
pub open spec fn app_tick_step(pre: App, post: App, r: Option<AppEvent>) -> bool {
    if pre.container_info is Some {
        &&& pre.container_info matches Some(b)
        &&& post.container_info matches Some(b2)
        &&& detail_tick_step(b, b2, r)
        &&& post == (App { container_info: post.container_info, ..pre })
    } else {
        match pre.selected_tab {
            SelectedTab::Containers => container_tick_step(pre.container_table, post.container_table, r)
                && post == (App { container_table: post.container_table, ..pre }),
            SelectedTab::Volumes => volume_tick_step(pre.volume_table, post.volume_table, r)
                && post == (App { volume_table: post.volume_table, ..pre }),
            SelectedTab::Networks => network_tick_step(pre.network_table, post.network_table, r)
                && post == (App { network_table: post.network_table, ..pre }),
            SelectedTab::Images => image_tick_step(pre.image_table, post.image_table, r)
                && post == (App { image_table: post.image_table, ..pre }),
        }
    }
}

/// How one drained command moves the session from `pre` to `post` and
/// which daemon call `r` it asks for.
///
/// Refresh commands only ask for the call. Lifecycle verbs against a
/// container become the pending operation, and only while none is set;
/// removal additionally falls back to the list screen at once. Volume,
/// network and image removals are fired once, not retried. Quit stops the
/// loop unconditionally; back closes the detail screen. Opening a detail
/// screen is accepted only while no operation is pending, lands on a
/// fresh view and asks for its first refresh at once.
pub open spec fn app_event_step(pre: App, post: App, event: AppEvent, r: Option<
    DaemonRequest,
>) -> bool {
    match event {
        AppEvent::Quit => post == (App { running: false, ..pre }) && r is None,
        AppEvent::UpdateContainers => post == pre && r == Some(DaemonRequest::ListContainers),
        AppEvent::UpdateVolumes => post == pre && r == Some(DaemonRequest::ListVolumes),
        AppEvent::UpdateNetworks => post == pre && r == Some(DaemonRequest::ListNetworks),
        AppEvent::UpdateImages => post == pre && r == Some(DaemonRequest::ListImages),
        AppEvent::UpdateContainerInfo(id) => post == pre && r == Some(
            DaemonRequest::InspectContainer(id),
        ),
        AppEvent::GoToContainerDetails(id) => if pre.pending_operation is None {
            &&& post.container_info matches Some(b)
            &&& detail_opened(b, id)
            &&& post == (App { container_info: post.container_info, ..pre })
            &&& r == Some(DaemonRequest::InspectContainer(id))
        } else {
            post == pre && r is None
        },
        AppEvent::Back => post == (App { container_info: None, ..pre }) && r is None,
        AppEvent::RestartContainer(id) => if pre.pending_operation is None {
            post == (App {
                pending_operation: Some(PendingOperation::Restart(id)),
                ..pre
            }) && r is None
        } else {
            post == pre && r is None
        },
        AppEvent::StopContainer(id) => if pre.pending_operation is None {
            post == (App { pending_operation: Some(PendingOperation::Stop(id)), ..pre })
                && r is None
        } else {
            post == pre && r is None
        },
        AppEvent::KillContainer(id) => if pre.pending_operation is None {
            post == (App { pending_operation: Some(PendingOperation::Kill(id)), ..pre })
                && r is None
        } else {
            post == pre && r is None
        },
        AppEvent::RemoveContainer(id) => if pre.pending_operation is None {
            post == (App {
                pending_operation: Some(PendingOperation::Remove(id)),
                container_info: None,
                ..pre
            }) && r is None
        } else {
            post == pre && r is None
        },
        AppEvent::RemoveVolume(name, force) => post == pre && r == Some(
            DaemonRequest::RemoveVolume(name, force),
        ),
        AppEvent::RemoveNetwork(name) => post == pre && r == Some(
            DaemonRequest::RemoveNetwork(name),
        ),
        AppEvent::RemoveImage(id, force) => post == pre && r == Some(
            DaemonRequest::RemoveImage(id, force),
        ),
    }
}

impl App {
    /// Every view is well-formed.
    pub open spec fn wf(&self) -> bool {
        &&& self.container_table.wf()
        &&& self.volume_table.wf()
        &&& self.network_table.wf()
        &&& self.image_table.wf()
        &&& (self.container_info matches Some(b) ==> b.wf())
    }

    /// The list screen is showing with the given tab selected.
    pub open spec fn showing_list(&self, tab: SelectedTab) -> bool {
        self.container_info is None && self.selected_tab == tab
    }

    /// A fresh session: running, on the container tab, all views empty,
    /// no detail screen, no pending operation.
    pub fn new() -> (r: App)
        ensures
            r.running == true,
            r.selected_tab == SelectedTab::Containers,
            r.container_info is None,
            r.pending_operation is None,
            r.container_table.list.items@.len() == 0,
            r.volume_table.list.items@.len() == 0,
            r.network_table.list.items@.len() == 0,
            r.image_table.list.items@.len() == 0,
            r.wf(),
    {
        App {
            running: true,
            selected_tab: SelectedTab::Containers,
            container_table: ContainerTable::new(),
            volume_table: VolumeTable::new(),
            network_table: NetworkTable::new(),
            image_table: ImageTable::new(),
            container_info: None,
            pending_operation: None,
        }
    }

    /// Whether the control loop should keep going.
    pub fn is_running(&self) -> (r: bool)
        ensures
            r == self.running,
    {
        self.running
    }

    /// Route one key press, as [`app_key_step`] states.
    pub fn handle_key_event(&mut self, key: KeyPress) -> (r: Option<AppEvent>)
        requires
            old(self).wf(),
        ensures
            final(self).wf(),
            app_key_step(*old(self), *final(self), key, r),
    {
        if key.ctrl {
            if let KeyCode::Char(c) = key.code {
                if c == 'c' {
                    return Some(AppEvent::Quit);
                }
            }
        }
        match &mut self.container_info {
            Some(b) => {
                return b.handle_key_event(key);
            },
            None => {},
        }
        match key.code {
            KeyCode::Right => {
                self.selected_tab = self.selected_tab.next();
                None
            },
            KeyCode::Left => {
                self.selected_tab = self.selected_tab.previous();
                None
            },
            KeyCode::Char(c) => if c == 'l' || c == 'L' {
                self.selected_tab = self.selected_tab.next();
                None
            } else if c == 'h' || c == 'H' {
                self.selected_tab = self.selected_tab.previous();
                None
            } else {
                self.route_table_key(key)
            },
            _ => self.route_table_key(key),
        }
    }

    /// Hand a key to the table of the shown tab.
    fn route_table_key(&mut self, key: KeyPress) -> (r: Option<AppEvent>)
        requires
            old(self).wf(),
        ensures
            final(self).wf(),
            app_table_key_step(*old(self), *final(self), key.code, r),
    {
        match self.selected_tab {
            SelectedTab::Containers => self.container_table.handle_key_event(key),
            SelectedTab::Volumes => self.volume_table.handle_key_event(key),
            SelectedTab::Networks => self.network_table.handle_key_event(key),
            SelectedTab::Images => self.image_table.handle_key_event(key),
        }
    }

    /// Route one clock tick, as [`app_tick_step`] states.
    pub fn tick(&mut self) -> (r: Option<AppEvent>)
        requires
            old(self).wf(),
        ensures
            final(self).wf(),
            app_tick_step(*old(self), *final(self), r),
    {
        match &mut self.container_info {
            Some(b) => {
                return b.tick();
            },
            None => {},
        }
        match self.selected_tab {
            SelectedTab::Containers => self.container_table.tick(),
            SelectedTab::Volumes => self.volume_table.tick(),
            SelectedTab::Networks => self.network_table.tick(),
            SelectedTab::Images => self.image_table.tick(),
        }
    }

    /// Apply one drained command, as [`app_event_step`] states, handing
    /// back the daemon call the surrounding loop must make, if any.
    pub fn apply_app_event(&mut self, event: AppEvent) -> (r: Option<DaemonRequest>)
        requires
            old(self).wf(),
        ensures
            final(self).wf(),
            app_event_step(*old(self), *final(self), event, r),
    {
        match event {
            AppEvent::Quit => {
                self.running = false;
                None
            },
            AppEvent::UpdateContainers => Some(DaemonRequest::ListContainers),
            AppEvent::UpdateVolumes => Some(DaemonRequest::ListVolumes),
            AppEvent::UpdateNetworks => Some(DaemonRequest::ListNetworks),
            AppEvent::UpdateImages => Some(DaemonRequest::ListImages),
            AppEvent::UpdateContainerInfo(id) => Some(DaemonRequest::InspectContainer(id)),
            AppEvent::GoToContainerDetails(id) => {
                if self.pending_operation.is_none() {
                    let mut data = ContainerData::empty();
                    data.id = id.clone();
                    self.container_info = Some(ContainerInfoBlock::new(data));
                    Some(DaemonRequest::InspectContainer(id))
                } else {
                    None
                }
            },
            AppEvent::Back => {
                self.container_info = None;
                None
            },
            AppEvent::RestartContainer(id) => {
                if self.pending_operation.is_none() {
                    self.pending_operation = Some(PendingOperation::Restart(id));
                }
                None
            },
            AppEvent::StopContainer(id) => {
                if self.pending_operation.is_none() {
                    self.pending_operation = Some(PendingOperation::Stop(id));
                }
                None
            },
            AppEvent::KillContainer(id) => {
                if self.pending_operation.is_none() {
                    self.pending_operation = Some(PendingOperation::Kill(id));
                }
                None
            },
            AppEvent::RemoveContainer(id) => {
                if self.pending_operation.is_none() {
                    self.pending_operation = Some(PendingOperation::Remove(id));
                    self.container_info = None;
                }
                None
            },
            AppEvent::RemoveVolume(name, force) => Some(DaemonRequest::RemoveVolume(name, force)),
            AppEvent::RemoveNetwork(name) => Some(DaemonRequest::RemoveNetwork(name)),
            AppEvent::RemoveImage(id, force) => Some(DaemonRequest::RemoveImage(id, force)),
        }
    }

    /// The daemon call that the pending operation asks to be attempted
    /// this loop iteration, as [`pending_request_spec`] states.
    pub fn pending_request(&self) -> (r: Option<DaemonRequest>)
        ensures
            r == pending_request_spec(self.pending_operation),
    {
        match &self.pending_operation {
            None => None,
            Some(PendingOperation::Restart(id)) => Some(
                DaemonRequest::RestartContainer(id.clone()),
            ),
            Some(PendingOperation::Stop(id)) => Some(DaemonRequest::StopContainer(id.clone())),
            Some(PendingOperation::Kill(id)) => Some(DaemonRequest::KillContainer(id.clone())),
            Some(PendingOperation::Remove(id)) => Some(
                DaemonRequest::RemoveContainer(id.clone()),
            ),
        }
    }

    /// Fold the outcome of one attempt of the pending operation back into
    /// the session: success clears it; failure leaves it set, so the same
    /// call is attempted again on the next iteration.
    pub fn apply_operation_result(&mut self, result: Result<(), String>)
        ensures
            result is Ok ==> *final(self) == (App {
                pending_operation: None,
                ..*old(self)
            }),
            result is Err ==> *final(self) == *old(self),
    {
        match result {
            Ok(_) => {
                self.pending_operation = None;
            },
            Err(_) => {},
        }
    }

    /// Apply a container list refresh result — only while the container
    /// tab of the list screen is showing; a stale result is discarded.
    pub fn apply_containers(&mut self, items: Vec<ContainerTableRow>)
        requires
            old(self).wf(),
        ensures
            final(self).wf(),
            old(self).showing_list(SelectedTab::Containers) ==> container_refresh_step(
                old(self).container_table,
                final(self).container_table,
                items@,
            ) && *final(self) == (App {
                container_table: final(self).container_table,
                ..*old(self)
            }),
            !old(self).showing_list(SelectedTab::Containers) ==> *final(self) == *old(self),
    {
        if self.container_info.is_none() && matches!(self.selected_tab, SelectedTab::Containers) {
            self.container_table.update_with_items(items);
        }
    }

    /// Apply a volume list refresh result — only while the volume tab of
    /// the list screen is showing; a stale result is discarded.
    pub fn apply_volumes(&mut self, items: Vec<VolumeTableRow>)
        requires
            old(self).wf(),
        ensures
            final(self).wf(),
            old(self).showing_list(SelectedTab::Volumes) ==> volume_refresh_step(
                old(self).volume_table,
                final(self).volume_table,
                items@,
            ) && *final(self) == (App { volume_table: final(self).volume_table, ..*old(self) }),
            !old(self).showing_list(SelectedTab::Volumes) ==> *final(self) == *old(self),
    {
        if self.container_info.is_none() && matches!(self.selected_tab, SelectedTab::Volumes) {
            self.volume_table.update_with_items(items);
        }
    }

    /// Apply a network list refresh result — only while the network tab
    /// of the list screen is showing; a stale result is discarded.
    pub fn apply_networks(&mut self, items: Vec<NetworkTableRow>)
        requires
            old(self).wf(),
        ensures
            final(self).wf(),
            old(self).showing_list(SelectedTab::Networks) ==> network_refresh_step(
                old(self).network_table,
                final(self).network_table,
                items@,
            ) && *final(self) == (App { network_table: final(self).network_table, ..*old(self) }),
            !old(self).showing_list(SelectedTab::Networks) ==> *final(self) == *old(self),
    {
        if self.container_info.is_none() && matches!(self.selected_tab, SelectedTab::Networks) {
            self.network_table.update_with_items(items);
        }
    }

    /// Apply an image list refresh result — only while the image tab of
    /// the list screen is showing; a stale result is discarded.
    pub fn apply_images(&mut self, items: Vec<ImageTableRow>)
        requires
            old(self).wf(),
        ensures
            final(self).wf(),
            old(self).showing_list(SelectedTab::Images) ==> image_refresh_step(
                old(self).image_table,
                final(self).image_table,
                items@,
            ) && *final(self) == (App { image_table: final(self).image_table, ..*old(self) }),
            !old(self).showing_list(SelectedTab::Images) ==> *final(self) == *old(self),
    {
        if self.container_info.is_none() && matches!(self.selected_tab, SelectedTab::Images) {
            self.image_table.update_with_items(items);
        }
    }

    /// Apply a detail refresh result for the container `id` — only while
    /// the detail screen is showing that same container; a result for a
    /// screen the user has navigated away from is discarded.
    pub fn apply_container_info(&mut self, id: &String, data: ContainerData)
        requires
            old(self).wf(),
        ensures
            final(self).wf(),
            (old(self).container_info matches Some(b) && b.data.id@ == id@) ==> {
                &&& old(self).container_info matches Some(b)
                &&& final(self).container_info == Some(
                    ContainerInfoBlock {
                        data,
                        scroll: b.scroll,
                        skipped_ticks: b.skipped_ticks,
                    },
                )
                &&& *final(self) == (App {
                    container_info: final(self).container_info,
                    ..*old(self)
                })
            },
            !(old(self).container_info matches Some(b) && b.data.id@ == id@) ==> *final(self)
                == *old(self),
    {
        match &mut self.container_info {
            Some(b) => {
                if b.data.id == *id {
                    b.update_data(data);
                }
            },
            None => {},
        }
    }

    /// Raise the volume view's error banner for a failed volume removal.
    pub fn show_remove_volume_err(&mut self, err: String)
        requires
            old(self).wf(),
        ensures
            final(self).wf(),
            crate::volumes::volume_err_banner(err@) == match final(self).volume_table.err {
                Some(e) => e@,
                None => Seq::<char>::empty(),
            },
            final(self).volume_table.err is Some,
            final(self).volume_table.list == old(self).volume_table.list,
            *final(self) == (App { volume_table: final(self).volume_table, ..*old(self) }),
    {
        self.volume_table.show_remove_volume_err(err);
    }

    /// Raise the network view's error banner for a failed network
    /// removal.
    pub fn show_remove_network_err(&mut self, err: String)
        requires
            old(self).wf(),
        ensures
            final(self).wf(),
            crate::networks::network_err_banner(err@) == match final(self).network_table.err {
                Some(e) => e@,
                None => Seq::<char>::empty(),
            },
            final(self).network_table.err is Some,
            final(self).network_table.list == old(self).network_table.list,
            *final(self) == (App { network_table: final(self).network_table, ..*old(self) }),
    {
        self.network_table.show_remove_network_err(err);
    }

    /// Raise the image view's error banner for a failed image removal.
    pub fn show_remove_image_err(&mut self, err: String)
        requires
            old(self).wf(),
        ensures
            final(self).wf(),
            crate::images::image_err_banner(err@) == match final(self).image_table.err {
                Some(e) => e@,
                None => Seq::<char>::empty(),
            },
            final(self).image_table.err is Some,
            final(self).image_table.list == old(self).image_table.list,
            *final(self) == (App { image_table: final(self).image_table, ..*old(self) }),
    {
        self.image_table.show_remove_img_err(err);
    }
}

} // verus!
