use crabd::containers::{
    get_footer_text, get_ports_text, ContainerRecord, ContainerTable, ContainerTableRow,
    PortProtocol, PortRecord,
};
use crabd::detail::{
    get_content_as_lines, get_filtered_list, ContainerData, InspectConfigRecord, InspectRecord,
    InspectNetworkRecord, InspectStateRecord, MountRecord, PortBindingRecord, PortMapEntry,
    RestartPolicyKind,
};
use crabd::images::{ImageRecord, ImageTable, ImageTableRow};
use crabd::networks::{NetworkRecord, NetworkTable, NetworkTableRow};
use crabd::time::time_ago_from;
use crabd::volumes::{VolumeRecord, VolumeTable, VolumeTableRow};

fn port(private: u16, public: Option<u16>, typ: Option<PortProtocol>) -> PortRecord {
    PortRecord { private_port: private, public_port: public, typ }
}

#[test]
fn ports_cell_sorts_by_private_port_and_collapses_duplicates() {
    let ports = vec![
        port(8080, Some(80), Some(PortProtocol::Tcp)),
        port(443, Some(8443), Some(PortProtocol::Tcp)),
        port(443, Some(8443), Some(PortProtocol::Tcp)),
        port(53, None, Some(PortProtocol::Udp)),
    ];
    assert_eq!(get_ports_text(&ports), "443:8443/tcp\n8080:80/tcp");
}

#[test]
fn ports_cell_is_empty_without_fully_published_ports() {
    let ports = vec![port(53, None, None), port(80, None, Some(PortProtocol::Tcp))];
    assert_eq!(get_ports_text(&ports), "");
}

#[test]
fn container_row_reads_name_without_leading_slash() {
    let rec = ContainerRecord {
        id: Some("c1".to_string()),
        names: Some(vec!["/web".to_string(), "/other".to_string()]),
        image: Some("nginx".to_string()),
        state: Some("running".to_string()),
        ports: None,
    };
    let row = ContainerTableRow::from(&rec);
    assert_eq!(row.id, "c1");
    assert_eq!(row.name, "web");
    assert_eq!(row.image, "nginx");
    assert_eq!(row.state, "running");
    assert_eq!(row.ports, "-");
}

#[test]
fn container_row_falls_back_on_absent_fields() {
    let rec = ContainerRecord { id: None, names: None, image: None, state: None, ports: None };
    let row = ContainerTableRow::from(&rec);
    assert_eq!(row.id, "-");
    assert_eq!(row.name, "NaN");
    assert_eq!(row.image, "-");
    assert_eq!(row.state, "-");
}

#[test]
fn container_listing_sorts_running_containers_first() {
    let mk = |id: &str, state: &str| ContainerRecord {
        id: Some(id.to_string()),
        names: None,
        image: None,
        state: Some(state.to_string()),
        ports: None,
    };
    let rows = ContainerTableRow::from_list(vec![
        mk("a", "exited"),
        mk("b", "running"),
        mk("c", "created"),
        mk("d", "running"),
    ]);
    let ids: Vec<&str> = rows.iter().map(|r| r.id.as_str()).collect();
    assert_eq!(ids, vec!["b", "d", "c", "a"]);
}

#[test]
fn image_row_reads_digest_tags_size_and_age() {
    let rec = ImageRecord {
        id: "sha256:abcdef012345".to_string(),
        repo_tags: vec!["nginx:latest".to_string(), "nginx:1".to_string()],
        size: 1048576,
        created: 1000,
    };
    let row = ImageTableRow::from(&rec, 4600);
    assert_eq!(row.id, "abcdef012345");
    assert_eq!(row.tags, "nginx:latest\nnginx:1");
    assert_eq!(row.size, "1048576");
    assert_eq!(row.created, "1 hour ago");
}

#[test]
fn image_listing_puts_newest_first() {
    let mk = |id: &str, created: i64| ImageRecord {
        id: format!("sha256:{id}"),
        repo_tags: Vec::new(),
        size: 0,
        created,
    };
    let rows = ImageTableRow::from_list(vec![mk("old", 10), mk("new", 30), mk("mid", 20)], 100);
    let ids: Vec<&str> = rows.iter().map(|r| r.id.as_str()).collect();
    assert_eq!(ids, vec!["new", "mid", "old"]);
}

#[test]
fn time_ago_wording_covers_units_plurals_and_the_future() {
    assert_eq!(time_ago_from(1000, 1000), "0 seconds ago");
    assert_eq!(time_ago_from(1060, 1000), "1 minute ago");
    assert_eq!(time_ago_from(1000 + 7200, 1000), "2 hours ago");
    assert_eq!(time_ago_from(1000 + 86_400, 1000), "1 day ago");
    assert_eq!(time_ago_from(1000 + 2 * 2_592_000, 1000), "2 months ago");
    assert_eq!(time_ago_from(1000 + 31_536_000, 1000), "1 year ago");
    assert_eq!(time_ago_from(1000, 1000 + 120), "in 2 minutes");
}

#[test]
fn volume_listing_sorts_by_name() {
    let mk = |name: &str| VolumeRecord {
        name: name.to_string(),
        driver: "local".to_string(),
        created_at: None,
    };
    let rows = VolumeTableRow::from_list(vec![mk("zeta"), mk("alpha"), mk("mid")]);
    let names: Vec<&str> = rows.iter().map(|r| r.name.as_str()).collect();
    assert_eq!(names, vec!["alpha", "mid", "zeta"]);
    assert_eq!(rows[0].created_at, "");
}

#[test]
fn network_row_cuts_the_id_and_strips_fractional_seconds() {
    let rec = NetworkRecord {
        id: Some("0123456789abcdef".to_string()),
        name: Some("bridge".to_string()),
        driver: Some("bridge".to_string()),
        created: Some("2024-01-01T10:00:00.123456789Z".to_string()),
    };
    let row = NetworkTableRow::from(&rec);
    assert_eq!(row.id, "0123456789ab...");
    assert_eq!(row.name, "bridge");
    assert_eq!(row.created_at, "2024-01-01T10:00:00Z");
}

#[test]
fn volume_removal_banner_names_the_using_container() {
    let mut table = VolumeTable::new();
    table.show_remove_volume_err(
        "volume is in use - [abcdef0123456789abcdef]".to_string(),
    );
    assert_eq!(
        table.err.as_deref(),
        Some("[ERR] Volume is in use by container: abcdef012345678...")
    );
}

#[test]
fn volume_removal_banner_falls_back_on_unmatched_messages() {
    let mut table = VolumeTable::new();
    table.show_remove_volume_err("no brackets here".to_string());
    assert_eq!(table.err.as_deref(), Some("[ERR] Something went wrong..."));
}

#[test]
fn network_removal_banner_trims_the_extracted_reason() {
    let mut table = NetworkTable::new();
    table.show_remove_network_err(
        "Error response from daemon: network mynet has active endpoints (in use)".to_string(),
    );
    assert_eq!(
        table.err.as_deref(),
        Some("[ERR] network mynet has active endpoints")
    );
}

#[test]
fn image_removal_banner_quotes_the_in_use_explanation() {
    let mut table = ImageTable::new();
    table.show_remove_img_err(
        "conflict: unable to delete (cannot be forced) - image is being used by running container abc123".to_string(),
    );
    assert_eq!(
        table.err.as_deref(),
        Some("[ERR] (cannot be forced) - image is being used by running container abc123")
    );
}

#[test]
fn banner_swallows_the_next_key_press() {
    let mut table = ImageTable::new();
    table.show_remove_img_err("whatever".to_string());
    let r = table.handle_key_event(crabd::events::KeyPress::plain(
        crabd::events::KeyCode::Char('q'),
    ));
    assert_eq!(r, None);
    assert_eq!(table.err, None);
}

#[test]
fn container_footer_reflects_toggle_and_selection() {
    assert_eq!(get_footer_text(true, None), " <Ent> details | <T> All");
    assert_eq!(
        get_footer_text(false, Some(true)),
        " <Ent> details | <T> Running | <R> restart | <S> stop | <X> kill | <Del/D> remove"
    );
    assert_eq!(
        get_footer_text(true, Some(false)),
        " <Ent> details | <T> All | <R> start | <Del/D> remove"
    );
}

#[test]
fn container_rows_taller_with_ports_drive_the_scroll() {
    let mk = |id: &str, ports: &str| ContainerTableRow {
        id: id.to_string(),
        name: String::new(),
        image: String::new(),
        state: "running".to_string(),
        ports: ports.to_string(),
    };
    let mut table = ContainerTable::new();
    table.update_with_items(vec![mk("a", "80:80/tcp"), mk("b", "1:1/tcp\n2:2/udp\n3:3/tcp"), mk("c", "")]);
    assert_eq!(table.list.row_heights, vec![3, 5]);
    table.list.select(2);
    assert_eq!(table.list.scroll_offset, 8);
}

#[test]
fn inspect_projection_fills_every_cell() {
    let rec = InspectRecord {
        id: Some("deadbeef".to_string()),
        name: Some("/web".to_string()),
        created: Some("2024-05-01T00:00:00Z".to_string()),
        config: Some(InspectConfigRecord {
            image: Some("nginx:latest".to_string()),
            cmd: Some(vec!["nginx".to_string(), "-g".to_string()]),
            env: Some(vec!["B=2".to_string(), "A=1".to_string()]),
            entrypoint: None,
            labels: Some(vec![("team".to_string(), "infra".to_string())]),
        }),
        restart_policy: Some(RestartPolicyKind::UnlessStopped),
        network: Some(InspectNetworkRecord {
            ip_address: Some("172.17.0.2".to_string()),
            ports: Some(vec![PortMapEntry {
                port_key: "80/tcp".to_string(),
                bindings: Some(vec![
                    PortBindingRecord {
                        host_ip: Some("0.0.0.0".to_string()),
                        host_port: Some("8080".to_string()),
                    },
                    PortBindingRecord {
                        host_ip: Some("::".to_string()),
                        host_port: Some("8080".to_string()),
                    },
                ]),
            }]),
        }),
        state: Some(InspectStateRecord {
            status: Some("running".to_string()),
            started_at: Some("2024-05-02T00:00:00Z".to_string()),
        }),
        mounts: Some(vec![
            MountRecord {
                typ: Some("volume".to_string()),
                name: Some("data".to_string()),
                source: Some("/var/lib/docker/volumes/data".to_string()),
                destination: Some("/data".to_string()),
            },
            MountRecord {
                typ: Some("bind".to_string()),
                name: None,
                source: Some("/host/conf".to_string()),
                destination: Some("/conf".to_string()),
            },
        ]),
    };
    let d = ContainerData::from(&rec);
    assert_eq!(d.id, "deadbeef");
    assert_eq!(d.name, "web");
    assert_eq!(d.image, "nginx:latest");
    assert_eq!(d.created, "2024-05-01T00:00:00Z");
    assert_eq!(d.state, "running");
    assert_eq!(d.ip_address, "172.17.0.2");
    assert_eq!(d.start_time, "2024-05-02T00:00:00Z");
    assert_eq!(d.port_configs, "0.0.0.0:8080 | :::8080 -> 80/tcp");
    assert_eq!(d.cmd, "nginx\n-g");
    assert_eq!(d.env, "B=2\nA=1");
    assert_eq!(d.entrypoint, "-");
    assert_eq!(d.restart_policy, "unless-stopped");
    assert_eq!(d.volumes, "/host/conf -> /conf\ndata -> /data");
    assert_eq!(d.labels, "team: infra");
}

#[test]
fn inspect_projection_defaults_every_absent_part() {
    let rec = InspectRecord {
        id: None,
        name: None,
        created: None,
        config: None,
        restart_policy: None,
        network: None,
        state: None,
        mounts: None,
    };
    let d = ContainerData::from(&rec);
    assert_eq!(d.id, "-");
    assert_eq!(d.name, "NaN");
    assert_eq!(d.image, "-");
    assert_eq!(d.state, "");
    assert_eq!(d.start_time, "-");
    assert_eq!(d.port_configs, "-");
    assert_eq!(d.cmd, "-");
    assert_eq!(d.restart_policy, "-");
    assert_eq!(d.volumes, "-");
    assert_eq!(d.labels, "-");
}

#[test]
fn filtered_list_sorts_and_drops_empty_lines() {
    let items = get_filtered_list("beta\nalpha\n\ngamma").unwrap();
    let texts: Vec<&str> = items.iter().map(|p| p.1.as_str()).collect();
    assert_eq!(texts, vec![" - alpha", " - beta", " - gamma"]);
    assert!(items.iter().all(|p| p.0.is_empty()));
    assert!(get_filtered_list("").is_none());
    assert!(get_filtered_list("\n\n").is_none());
}

#[test]
fn content_lines_hide_absent_single_values() {
    let mut d = ContainerData::empty();
    d.id = "abc".to_string();
    d.image = "-".to_string();
    d.state = "running".to_string();
    d.cmd = "-".to_string();
    d.entrypoint = "-".to_string();
    d.port_configs = String::new();
    d.volumes = String::new();
    d.env = "B=2\nA=1".to_string();
    d.labels = String::new();
    let lines = get_content_as_lines(&d);
    let pairs: Vec<(&str, &str)> =
        lines.iter().map(|p| (p.0.as_str(), p.1.as_str())).collect();
    assert_eq!(
        pairs,
        vec![
            ("ID: ", "abc"),
            ("Created: ", ""),
            ("Start Time: ", ""),
            ("Restart Policy: ", ""),
            ("State: ", "running"),
            ("", ""),
            ("", ""),
            ("Env:", ""),
            ("", " - A=1"),
            ("", " - B=2"),
        ]
    );
}
