use system_monitor::app_config::{AppConfig, OverlapError};
use system_monitor::cpu_info::CpuSample;
use system_monitor::dashboard::{Action, Dashboard, Event, Phase};
use system_monitor::device_model::{DeviceRegistry, Hardware};
use system_monitor::file_config::{FileConfig, FileDevice};
use system_monitor::gpu_info::{GpuIdentity, GpuSample};
use system_monitor::ui::Band;

fn placement(kind: &str, top: u8, left: u8, width: u8, height: u8) -> FileDevice {
    FileDevice { device_type: kind.to_string(), top_left: (top, left), width, height }
}

fn hardware() -> Hardware {
    Hardware { cpu_count: 1, gpus: vec![GpuIdentity { name: "G".to_string(), capability: None }] }
}

fn default_dashboard(w: u16, h: u16) -> Dashboard {
    let config = AppConfig::new(FileConfig::new(String::new(), Vec::new()), w, h).unwrap();
    let (d, unknown) = Dashboard::new(config, &DeviceRegistry::new(), &hardware());
    assert!(unknown.is_empty());
    d
}

fn sample() -> CpuSample {
    CpuSample { cpu_usage: vec![500], ram_used: 0, ram_total: 0, swap_used: 0, swap_total: 0 }
}

#[test]
fn dashboard_starts_running_with_one_widget_per_tile() {
    let d = default_dashboard(40, 20);
    assert_eq!(d.phase, Phase::Running);
    assert_eq!(d.devices.len(), 2);
    assert_eq!(d.slots, vec![0, 1]);
    assert_eq!(d.devices[0].get_name(), "cpu");
    assert_eq!(d.devices[1].get_name(), "gpu");
    assert_eq!(d.status_line(), "q: exit, config: default");
}

#[test]
fn unknown_kinds_are_skipped() {
    let fc = FileConfig::new(
        "mine".to_string(),
        vec![placement("disk", 0, 0, 1, 1), placement("gpu", 0, 1, 1, 1), placement("net", 1, 0, 2, 1)],
    );
    let config = AppConfig::new(fc, 20, 20).unwrap();
    let (d, unknown) = Dashboard::new(config, &DeviceRegistry::new(), &hardware());
    assert_eq!(unknown, vec!["disk".to_string(), "net".to_string()]);
    assert_eq!(d.devices.len(), 1);
    assert_eq!(d.slots, vec![1]);
    assert_eq!(d.devices[0].get_name(), "gpu");
}

#[test]
fn render_writes_rows_at_widget_offsets() {
    let mut d = default_dashboard(30, 12);
    d.update(&sample(), &vec![GpuSample { temperature: 7, memory_used: 0, memory_total: 0, utilization: 0 }]);
    let writes = d.render();
    // cpu tile (0,0) 10x12, gpu tile (0,10) 20x6.
    assert_eq!(writes.len(), 12 + 6);
    assert_eq!((writes[0].row, writes[0].col, writes[0].text.as_str()), (1, 1, "CPU:"));
    assert_eq!((writes[1].row, writes[1].col), (2, 1));
    assert_eq!(writes[11].row, 12);
    assert_eq!((writes[12].row, writes[12].col, writes[12].text.as_str()), (1, 11, "GPU"));
    assert_eq!(writes[13].text, "G, Cap: , T:   7\u{b0}C");
    assert_eq!(writes[17].row, 6);
    assert_eq!(writes[0].band, None);
    assert_eq!(writes[1].band, Some(Band::Warning));
    assert_eq!(writes[2].band, Some(Band::Normal));
    assert_eq!(writes[14].band, Some(Band::Normal));
}

#[test]
fn resize_event_relays_and_keeps_widgets() {
    let mut d = default_dashboard(30, 12);
    d.update(&sample(), &Vec::new());
    assert_eq!(d.handle_event(Event::Resize(60, 30)), Action::Redraw);
    assert_eq!(d.config.tiles[0].width, 20);
    assert_eq!(d.devices[0].get_size(), (18, 28));
    assert_eq!(d.devices[1].get_size(), (38, 13));
    let writes = d.render();
    assert_eq!(writes.len(), 30 + 15);
    assert!(writes[1].text.ends_with(" 50.0%]"));
}

#[test]
fn resize_to_one_by_one_renders_blank() {
    let mut d = default_dashboard(30, 12);
    assert_eq!(d.handle_resize(1, 1), Ok(()));
    assert_eq!(d.devices.len(), 2);
    assert_eq!(d.config.tiles[0].height, 1);
    let writes = d.render();
    assert_eq!(writes.len(), 1);
    assert!(writes.iter().all(|w| w.text.is_empty() && w.band.is_none()));
    for dev in &d.devices {
        assert_eq!(dev.get_size(), (0, 0));
    }
    assert_eq!(d.handle_event(Event::Resize(30, 12)), Action::Redraw);
    assert_eq!(d.render()[0].text, "CPU:");
}

#[test]
fn overlap_on_resize_keeps_last_layout() {
    let mut d = default_dashboard(30, 12);
    d.config.devices.push(placement("cpu", 0, 0, 1, 1));
    let action = d.handle_event(Event::Resize(90, 90));
    assert_eq!(action, Action::ReportOverlap(OverlapError { first: 0, second: 2 }));
    assert_eq!(d.phase, Phase::Running);
    assert_eq!(d.config.tiles[0].height, 12);
    assert_eq!(d.devices[0].get_size(), (8, 10));
}

#[test]
fn tick_and_quit() {
    let mut d = default_dashboard(30, 12);
    assert_eq!(d.handle_event(Event::Tick), Action::Continue);
    assert_eq!(d.phase, Phase::Running);
    assert_eq!(d.handle_event(Event::Quit), Action::Exit);
    assert_eq!(d.phase, Phase::ShuttingDown);
    assert_eq!(d.handle_event(Event::Tick), Action::Exit);
    assert_eq!(d.handle_event(Event::Resize(5, 5)), Action::Exit);
    assert_eq!(d.config.tiles[0].width, 10);
}
