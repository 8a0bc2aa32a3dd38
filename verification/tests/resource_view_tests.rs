use crabd::events::{AppEvent, KeyCode, KeyPress};
use crabd::images::{ImageTable, ImageTableRow};
use crabd::networks::{NetworkTable, NetworkTableRow};
use crabd::volumes::{VolumeTable, VolumeTableRow};

fn volume_row(name: &str) -> VolumeTableRow {
    VolumeTableRow {
        name: name.to_string(),
        driver: "local".to_string(),
        created_at: String::new(),
    }
}

fn network_row(name: &str) -> NetworkTableRow {
    NetworkTableRow {
        id: "0123456789ab...".to_string(),
        name: name.to_string(),
        driver: "bridge".to_string(),
        created_at: String::new(),
    }
}

fn image_row(id: &str, tags: &str) -> ImageTableRow {
    ImageTableRow {
        id: id.to_string(),
        tags: tags.to_string(),
        size: "0".to_string(),
        created: String::new(),
    }
}

#[test]
fn volume_keys_emit_plain_and_forced_removals() {
    let mut table = VolumeTable::new();
    table.update_with_items(vec![volume_row("a"), volume_row("b")]);
    let r = table.handle_key_event(KeyPress::plain(KeyCode::Delete));
    assert_eq!(r, Some(AppEvent::RemoveVolume("a".to_string(), false)));
    table.handle_key_event(KeyPress::plain(KeyCode::Char('k')));
    let r = table.handle_key_event(KeyPress::plain(KeyCode::Char('f')));
    assert_eq!(r, Some(AppEvent::RemoveVolume("b".to_string(), true)));
}

#[test]
fn network_keys_emit_a_removal_without_force() {
    let mut table = NetworkTable::new();
    table.update_with_items(vec![network_row("bridge")]);
    let r = table.handle_key_event(KeyPress::plain(KeyCode::Char('d')));
    assert_eq!(r, Some(AppEvent::RemoveNetwork("bridge".to_string())));
    let r = table.handle_key_event(KeyPress::plain(KeyCode::Char('f')));
    assert_eq!(r, None);
}

#[test]
fn resource_rows_render_three_lines_each() {
    let mut table = NetworkTable::new();
    table.update_with_items(vec![network_row("a"), network_row("b"), network_row("c")]);
    assert_eq!(table.list.row_heights, vec![3, 3]);
    let (content_length, _) = table.list.scrollbar_geometry();
    assert_eq!(content_length, 6);
}

#[test]
fn image_rows_grow_with_their_tags() {
    let mut table = ImageTable::new();
    table.update_with_items(vec![
        image_row("a", "one:1\ntwo:2"),
        image_row("b", ""),
        image_row("c", "three:3"),
    ]);
    assert_eq!(table.list.row_heights, vec![4, 3]);
}

#[test]
fn verb_keys_emit_nothing_on_an_empty_view() {
    let mut table = VolumeTable::new();
    let r = table.handle_key_event(KeyPress::plain(KeyCode::Delete));
    assert_eq!(r, None);
    let mut images = ImageTable::new();
    let r = images.handle_key_event(KeyPress::plain(KeyCode::Char('f')));
    assert_eq!(r, None);
}

#[test]
fn quit_keys_always_emit_from_a_list_view() {
    let mut table = ImageTable::new();
    let r = table.handle_key_event(KeyPress::plain(KeyCode::Esc));
    assert_eq!(r, Some(AppEvent::Quit));
    let r = table.handle_key_event(KeyPress::plain(KeyCode::Char('q')));
    assert_eq!(r, Some(AppEvent::Quit));
}

#[test]
fn view_ticks_request_their_own_refresh() {
    let mut volumes = VolumeTable::new();
    for _ in 0..11 {
        assert_eq!(volumes.tick(), None);
    }
    assert_eq!(volumes.tick(), Some(AppEvent::UpdateVolumes));
    let mut networks = NetworkTable::new();
    for _ in 0..11 {
        assert_eq!(networks.tick(), None);
    }
    assert_eq!(networks.tick(), Some(AppEvent::UpdateNetworks));
    let mut images = ImageTable::new();
    for _ in 0..11 {
        assert_eq!(images.tick(), None);
    }
    assert_eq!(images.tick(), Some(AppEvent::UpdateImages));
}
