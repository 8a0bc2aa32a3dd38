use crabd::app::{App, PendingOperation, SelectedTab};
use crabd::containers::ContainerTableRow;
use crabd::detail::ContainerData;
use crabd::events::{AppEvent, DaemonRequest, KeyCode, KeyPress};

fn row(id: &str, state: &str) -> ContainerTableRow {
    ContainerTableRow {
        id: id.to_string(),
        name: format!("name-{id}"),
        image: "img".to_string(),
        state: state.to_string(),
        ports: String::new(),
    }
}

#[test]
fn pending_stop_retries_until_success() {
    let mut app = App::new();
    let r = app.apply_app_event(AppEvent::StopContainer("abc".to_string()));
    assert_eq!(r, None);
    assert_eq!(
        app.pending_operation,
        Some(PendingOperation::Stop("abc".to_string()))
    );
    assert_eq!(
        app.pending_request(),
        Some(DaemonRequest::StopContainer("abc".to_string()))
    );
    app.apply_operation_result(Err("busy".to_string()));
    assert_eq!(
        app.pending_operation,
        Some(PendingOperation::Stop("abc".to_string()))
    );
    app.apply_operation_result(Err("busy".to_string()));
    assert_eq!(
        app.pending_operation,
        Some(PendingOperation::Stop("abc".to_string()))
    );
    app.apply_operation_result(Ok(()));
    assert_eq!(app.pending_operation, None);
    assert_eq!(app.pending_request(), None);
}

#[test]
fn verbs_are_refused_while_one_is_pending() {
    let mut app = App::new();
    app.apply_app_event(AppEvent::StopContainer("a".to_string()));
    app.apply_app_event(AppEvent::RestartContainer("b".to_string()));
    assert_eq!(
        app.pending_operation,
        Some(PendingOperation::Stop("a".to_string()))
    );
}

#[test]
fn stale_detail_refresh_is_discarded_after_back() {
    let mut app = App::new();
    app.apply_containers(vec![row("X", "running"), row("Y", "running")]);
    let r = app.apply_app_event(AppEvent::GoToContainerDetails("X".to_string()));
    assert_eq!(r, Some(DaemonRequest::InspectContainer("X".to_string())));
    assert!(app.container_info.is_some());
    app.apply_app_event(AppEvent::Back);
    assert!(app.container_info.is_none());
    let mut data = ContainerData::empty();
    data.id = "X".to_string();
    data.state = "running".to_string();
    app.apply_container_info(&"X".to_string(), data);
    assert!(app.container_info.is_none());
    assert_eq!(app.container_table.list.items.len(), 2);
    assert_eq!(app.container_table.list.items[0].id, "X");
}

#[test]
fn detail_refresh_applies_while_showing_the_same_container() {
    let mut app = App::new();
    app.apply_app_event(AppEvent::GoToContainerDetails("X".to_string()));
    let mut data = ContainerData::empty();
    data.id = "X".to_string();
    data.image = "img:1".to_string();
    app.apply_container_info(&"X".to_string(), data);
    let shown = app.container_info.as_ref().unwrap();
    assert_eq!(shown.data.image, "img:1");
}

#[test]
fn remove_falls_back_to_the_list_screen_at_once() {
    let mut app = App::new();
    app.apply_app_event(AppEvent::GoToContainerDetails("X".to_string()));
    assert!(app.container_info.is_some());
    app.apply_app_event(AppEvent::RemoveContainer("X".to_string()));
    assert!(app.container_info.is_none());
    assert_eq!(
        app.pending_operation,
        Some(PendingOperation::Remove("X".to_string()))
    );
}

#[test]
fn open_detail_is_refused_while_an_operation_is_pending() {
    let mut app = App::new();
    app.apply_app_event(AppEvent::KillContainer("a".to_string()));
    let r = app.apply_app_event(AppEvent::GoToContainerDetails("X".to_string()));
    assert_eq!(r, None);
    assert!(app.container_info.is_none());
}

#[test]
fn quit_stops_the_loop_even_mid_operation() {
    let mut app = App::new();
    app.apply_app_event(AppEvent::StopContainer("a".to_string()));
    assert!(app.is_running());
    app.apply_app_event(AppEvent::Quit);
    assert!(!app.is_running());
}

#[test]
fn refresh_commands_ask_for_the_matching_daemon_call() {
    let mut app = App::new();
    assert_eq!(
        app.apply_app_event(AppEvent::UpdateContainers),
        Some(DaemonRequest::ListContainers)
    );
    assert_eq!(
        app.apply_app_event(AppEvent::UpdateVolumes),
        Some(DaemonRequest::ListVolumes)
    );
    assert_eq!(
        app.apply_app_event(AppEvent::UpdateNetworks),
        Some(DaemonRequest::ListNetworks)
    );
    assert_eq!(
        app.apply_app_event(AppEvent::UpdateImages),
        Some(DaemonRequest::ListImages)
    );
    assert_eq!(
        app.apply_app_event(AppEvent::RemoveVolume("v".to_string(), true)),
        Some(DaemonRequest::RemoveVolume("v".to_string(), true))
    );
    assert_eq!(
        app.apply_app_event(AppEvent::RemoveNetwork("n".to_string())),
        Some(DaemonRequest::RemoveNetwork("n".to_string()))
    );
    assert_eq!(
        app.apply_app_event(AppEvent::RemoveImage("i".to_string(), false)),
        Some(DaemonRequest::RemoveImage("i".to_string(), false))
    );
}

#[test]
fn stale_list_refresh_for_another_tab_is_discarded() {
    let mut app = App::new();
    app.handle_key_event(KeyPress::plain(KeyCode::Right));
    assert_eq!(app.selected_tab, SelectedTab::Volumes);
    app.apply_containers(vec![row("X", "running")]);
    assert_eq!(app.container_table.list.items.len(), 0);
}

#[test]
fn tab_keys_saturate_at_both_ends() {
    let mut app = App::new();
    app.handle_key_event(KeyPress::plain(KeyCode::Left));
    assert_eq!(app.selected_tab, SelectedTab::Containers);
    for _ in 0..5 {
        app.handle_key_event(KeyPress::plain(KeyCode::Right));
    }
    assert_eq!(app.selected_tab, SelectedTab::Images);
    app.handle_key_event(KeyPress::plain(KeyCode::Char('h')));
    assert_eq!(app.selected_tab, SelectedTab::Networks);
    app.handle_key_event(KeyPress::plain(KeyCode::Char('l')));
    assert_eq!(app.selected_tab, SelectedTab::Images);
}

#[test]
fn control_c_quits_from_anywhere() {
    let mut app = App::new();
    app.apply_app_event(AppEvent::GoToContainerDetails("X".to_string()));
    let r = app.handle_key_event(KeyPress { code: KeyCode::Char('c'), ctrl: true });
    assert_eq!(r, Some(AppEvent::Quit));
}

#[test]
fn list_keys_emit_commands_for_the_selected_row() {
    let mut app = App::new();
    app.apply_containers(vec![row("c1", "running"), row("c2", "exited")]);
    let r = app.handle_key_event(KeyPress::plain(KeyCode::Enter));
    assert_eq!(r, Some(AppEvent::GoToContainerDetails("c1".to_string())));
    app.handle_key_event(KeyPress::plain(KeyCode::Char('j')));
    let r = app.handle_key_event(KeyPress::plain(KeyCode::Char('s')));
    assert_eq!(r, Some(AppEvent::StopContainer("c2".to_string())));
}

#[test]
fn tick_requests_a_refresh_on_the_cadence() {
    let mut app = App::new();
    for _ in 0..11 {
        assert_eq!(app.tick(), None);
    }
    assert_eq!(app.tick(), Some(AppEvent::UpdateContainers));
    assert_eq!(app.tick(), None);
}

#[test]
fn detail_tick_requests_a_refresh_of_the_shown_container() {
    let mut app = App::new();
    app.apply_app_event(AppEvent::GoToContainerDetails("X".to_string()));
    for _ in 0..11 {
        assert_eq!(app.tick(), None);
    }
    assert_eq!(
        app.tick(),
        Some(AppEvent::UpdateContainerInfo("X".to_string()))
    );
}

#[test]
fn tab_titles_read_as_expected() {
    assert_eq!(SelectedTab::Containers.title(), "Containers");
    assert_eq!(SelectedTab::Volumes.title(), "Volumes");
    assert_eq!(SelectedTab::Networks.title(), "Networks");
    assert_eq!(SelectedTab::Images.title(), "Images");
}
