use system_monitor::app_config::{AppConfig, DeviceTile, OverlapError};
use system_monitor::file_config::{get_default_name, get_default_symbol, FileConfig, FileDevice};

fn placement(kind: &str, top: u8, left: u8, width: u8, height: u8) -> FileDevice {
    FileDevice { device_type: kind.to_string(), top_left: (top, left), width, height }
}

fn rect(t: &DeviceTile) -> (u16, u16, u16, u16) {
    (t.row, t.col, t.width, t.height)
}

#[test]
fn default_config_layout_on_ten_by_ten() {
    let config = AppConfig::new(FileConfig::new(String::new(), Vec::new()), 10, 10).unwrap();
    assert_eq!(config.tiles.len(), 2);
    assert_eq!(config.tiles[0].name, "cpu");
    assert_eq!(rect(&config.tiles[0]), (0, 0, 3, 10));
    assert_eq!(config.tiles[1].name, "gpu");
    assert_eq!(rect(&config.tiles[1]), (0, 3, 6, 5));
}

#[test]
fn default_config_values() {
    let config = FileConfig::new(String::new(), vec![placement("disk", 0, 0, 1, 1)]);
    assert_eq!(config.name, "default");
    assert_eq!(config.symbol, "|");
    assert_eq!(config.devices.len(), 2);
    assert_eq!(config.devices[0].device_type, "cpu");
    assert_eq!(config.devices[0].top_left, (0, 0));
    assert_eq!((config.devices[0].width, config.devices[0].height), (1, 2));
    assert_eq!(config.devices[1].device_type, "gpu");
    assert_eq!(config.devices[1].top_left, (0, 1));
    assert_eq!((config.devices[1].width, config.devices[1].height), (2, 1));
    assert_eq!(get_default_name(), "default");
    assert_eq!(get_default_symbol(), "|");
}

#[test]
fn named_config_keeps_given_devices() {
    let config = FileConfig::new("work".to_string(), vec![placement("disk", 2, 3, 1, 1)]);
    assert_eq!(config.name, "work");
    assert_eq!(config.devices.len(), 1);
    assert_eq!(config.devices[0].device_type, "disk");
    assert_eq!(config.devices[0].top_left, (2, 3));
}

#[test]
fn tiles_follow_input_order_and_truncate() {
    let devices = vec![
        placement("gpu", 0, 1, 2, 1),
        placement("cpu", 0, 0, 1, 2),
        placement("mem", 1, 1, 2, 1),
    ];
    let tiles = AppConfig::get_device_tiles(&devices, 80, 25).unwrap();
    // 80 / 3 columns and 25 / 2 rows per grid unit, each coordinate truncated.
    assert_eq!(tiles.len(), 3);
    assert_eq!(tiles[0].name, "gpu");
    assert_eq!(rect(&tiles[0]), (0, 26, 53, 12));
    assert_eq!(tiles[1].name, "cpu");
    assert_eq!(rect(&tiles[1]), (0, 0, 26, 25));
    assert_eq!(tiles[2].name, "mem");
    assert_eq!(rect(&tiles[2]), (12, 26, 53, 12));
    for t in &tiles {
        assert!(t.col + t.width <= 80);
        assert!(t.row + t.height <= 25);
    }
}

#[test]
fn tiles_inside_canvas_for_many_sizes() {
    let devices = vec![
        placement("cpu", 0, 0, 3, 2),
        placement("gpu", 0, 3, 4, 1),
        placement("net", 1, 3, 4, 3),
        placement("disk", 2, 0, 3, 2),
    ];
    for w in [1u16, 2, 6, 7, 13, 80, 211, 65535] {
        for h in [1u16, 3, 4, 9, 50, 65535] {
            let tiles = AppConfig::get_device_tiles(&devices, w, h).unwrap();
            assert_eq!(tiles.len(), devices.len());
            for t in &tiles {
                assert!(t.col as u32 + t.width as u32 <= w as u32);
                assert!(t.row as u32 + t.height as u32 <= h as u32);
            }
        }
    }
}

#[test]
fn scale_is_not_truncated_before_multiplying() {
    let devices = vec![placement("a", 0, 0, 3, 1), placement("b", 0, 3, 1, 1)];
    let tiles = AppConfig::get_device_tiles(&devices, 10, 3).unwrap();
    assert_eq!(rect(&tiles[0]), (0, 0, 7, 3));
    assert_eq!(rect(&tiles[1]), (0, 7, 2, 3));
}

#[test]
fn default_config_on_one_by_one_canvas() {
    let config = AppConfig::new(FileConfig::new(String::new(), Vec::new()), 1, 1).unwrap();
    assert_eq!(rect(&config.tiles[0]), (0, 0, 0, 1));
    assert_eq!(rect(&config.tiles[1]), (0, 0, 0, 0));
}

#[test]
fn empty_placements_give_no_tiles() {
    let tiles = AppConfig::get_device_tiles(&Vec::new(), 1, 1).unwrap();
    assert!(tiles.is_empty());
}

#[test]
fn overlapping_pair_is_reported() {
    let devices = vec![placement("cpu", 0, 0, 2, 2), placement("gpu", 1, 1, 2, 2)];
    let r = AppConfig::get_device_tiles(&devices, 100, 100);
    assert_eq!(r.err(), Some(OverlapError { first: 0, second: 1 }));
}

#[test]
fn first_overlapping_pair_is_reported() {
    // Placements 1 and 3 overlap, and so do 2 and 3; 0 overlaps none.
    let devices = vec![
        placement("a", 0, 0, 1, 1),
        placement("b", 1, 0, 2, 2),
        placement("c", 1, 2, 1, 1),
        placement("d", 2, 1, 2, 1),
    ];
    let r = AppConfig::get_device_tiles(&devices, 10, 10);
    assert_eq!(r.err(), Some(OverlapError { first: 1, second: 3 }));
}

#[test]
fn overlap_of_non_neighbours_is_found() {
    let devices = vec![
        placement("a", 0, 0, 4, 1),
        placement("b", 1, 0, 1, 1),
        placement("c", 0, 3, 1, 1),
    ];
    let r = AppConfig::get_device_tiles(&devices, 10, 10);
    assert_eq!(r.err(), Some(OverlapError { first: 0, second: 2 }));
}

#[test]
fn touching_edges_do_not_overlap() {
    let devices = vec![
        placement("a", 0, 0, 2, 1),
        placement("b", 0, 2, 2, 1),
        placement("c", 1, 0, 4, 1),
    ];
    assert!(AppConfig::get_device_tiles(&devices, 8, 8).is_ok());
}

#[test]
fn app_config_new_reports_overlap() {
    let fc = FileConfig::new(
        "x".to_string(),
        vec![placement("cpu", 0, 0, 2, 2), placement("gpu", 0, 0, 1, 1)],
    );
    assert_eq!(AppConfig::new(fc, 10, 10).err(), Some(OverlapError { first: 0, second: 1 }));
}

#[test]
fn update_grid_relays_tiles() {
    let mut config = AppConfig::new(FileConfig::new(String::new(), Vec::new()), 10, 10).unwrap();
    assert!(config.check());
    assert_eq!(config.update_grid(31, 21), Ok(()));
    assert_eq!(rect(&config.tiles[0]), (0, 0, 10, 21));
    assert_eq!(rect(&config.tiles[1]), (0, 10, 20, 10));
    assert_eq!(config.update_grid(1, 1), Ok(()));
    assert_eq!(rect(&config.tiles[0]), (0, 0, 0, 1));
    assert_eq!(rect(&config.tiles[1]), (0, 0, 0, 0));
    assert!(config.check());
}

#[test]
fn update_grid_keeps_tiles_on_overlap() {
    let mut config = AppConfig::new(FileConfig::new(String::new(), Vec::new()), 10, 10).unwrap();
    config.devices.push(placement("net", 1, 0, 1, 1));
    assert_eq!(config.update_grid(40, 40), Err(OverlapError { first: 0, second: 2 }));
    assert_eq!(config.tiles.len(), 2);
    assert_eq!(rect(&config.tiles[0]), (0, 0, 3, 10));
    assert_eq!(rect(&config.tiles[1]), (0, 3, 6, 5));
}
