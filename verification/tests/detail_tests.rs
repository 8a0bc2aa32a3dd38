use crabd::app::App;
use crabd::detail::{ContainerData, ContainerInfoBlock};
use crabd::events::{AppEvent, KeyCode, KeyPress};

fn shown_block(app: &App) -> &ContainerInfoBlock {
    app.container_info.as_ref().unwrap()
}

#[test]
fn detail_navigation_scrolls_the_viewport() {
    let mut app = App::new();
    app.apply_app_event(AppEvent::GoToContainerDetails("X".to_string()));
    app.container_info
        .as_mut()
        .unwrap()
        .scroll
        .recompute_bounds(30, 40, 10, 10);
    app.handle_key_event(KeyPress::plain(KeyCode::Char('j')));
    app.handle_key_event(KeyPress::plain(KeyCode::Down));
    app.handle_key_event(KeyPress::plain(KeyCode::Char('l')));
    let block = shown_block(&app);
    assert_eq!(block.scroll.vertical, 2);
    assert_eq!(block.scroll.horizontal, 1);
    app.handle_key_event(KeyPress::plain(KeyCode::PageDown));
    app.handle_key_event(KeyPress::plain(KeyCode::End));
    let block = shown_block(&app);
    assert_eq!(block.scroll.vertical, 20);
    assert_eq!(block.scroll.horizontal, 30);
    app.handle_key_event(KeyPress::plain(KeyCode::Home));
    app.handle_key_event(KeyPress::plain(KeyCode::PageUp));
    let block = shown_block(&app);
    assert_eq!(block.scroll.vertical, 0);
    assert_eq!(block.scroll.horizontal, 0);
}

#[test]
fn detail_verb_keys_act_on_the_shown_container() {
    let mut app = App::new();
    app.apply_app_event(AppEvent::GoToContainerDetails("X".to_string()));
    let r = app.handle_key_event(KeyPress::plain(KeyCode::Char('s')));
    assert_eq!(r, Some(AppEvent::StopContainer("X".to_string())));
    let r = app.handle_key_event(KeyPress::plain(KeyCode::Esc));
    assert_eq!(r, Some(AppEvent::Back));
}

#[test]
fn opening_a_detail_screen_resets_its_scroll() {
    let mut app = App::new();
    app.apply_app_event(AppEvent::GoToContainerDetails("X".to_string()));
    app.container_info
        .as_mut()
        .unwrap()
        .scroll
        .recompute_bounds(30, 40, 10, 10);
    app.handle_key_event(KeyPress::plain(KeyCode::PageDown));
    app.apply_app_event(AppEvent::Back);
    app.apply_app_event(AppEvent::GoToContainerDetails("X".to_string()));
    let block = shown_block(&app);
    assert_eq!(block.scroll.vertical, 0);
    assert_eq!(block.scroll.horizontal, 0);
}

#[test]
fn refresh_keeps_the_scroll_position() {
    let mut block = ContainerInfoBlock::new(ContainerData::empty());
    block.scroll.recompute_bounds(30, 40, 10, 10);
    block.scroll.scroll_down();
    let mut data = ContainerData::empty();
    data.state = "running".to_string();
    block.update_data(data);
    assert_eq!(block.scroll.vertical, 1);
    assert_eq!(block.data.state, "running");
}
