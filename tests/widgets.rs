use system_monitor::app_config::DeviceTile;
use system_monitor::cpu_device::{self, CpuDevice};
use system_monitor::cpu_info::{to_megabytes, CpuInfo, CpuSample};
use system_monitor::device_model::{create_device, Device, DeviceKind, DeviceRegistry, Hardware};
use system_monitor::gpu_device::{self, GpuDevice};
use system_monitor::gpu_info::{GpuDeviceInfo, GpuIdentity, GpuSample};
use system_monitor::ui::Band;

const MIB: u64 = 1024 * 1024;

fn tile(name: &str, row: u16, col: u16, width: u16, height: u16) -> DeviceTile {
    DeviceTile { name: name.to_string(), row, col, width, height }
}

fn cpu_sample() -> CpuSample {
    CpuSample {
        cpu_usage: vec![123, 1000],
        ram_used: 2048 * MIB,
        ram_total: 4096 * MIB,
        swap_used: 0,
        swap_total: 0,
    }
}

fn gpu_samples() -> Vec<GpuSample> {
    vec![GpuSample {
        temperature: 45,
        memory_used: 1024 * MIB,
        memory_total: 8192 * MIB,
        utilization: 50,
    }]
}

fn rtx() -> Vec<GpuIdentity> {
    vec![GpuIdentity { name: "RTX".to_string(), capability: Some((8, 6)) }]
}

#[test]
fn megabyte_conversion() {
    assert_eq!(to_megabytes(0), 0);
    assert_eq!(to_megabytes(MIB - 1), 0);
    assert_eq!(to_megabytes(3 * MIB + 5), 3);
}

#[test]
fn cpu_info_starts_idle_and_takes_samples() {
    let mut info = CpuInfo::new(3);
    assert_eq!(info.cpu_count, 3);
    assert_eq!(info.get_cpu_usage(2), 0);
    assert_eq!(info.get_ram_usage(), (0, 1));
    assert_eq!(info.get_swap_usage(), (0, 1));
    info.update(&cpu_sample());
    assert_eq!(info.get_cpu_usage(0), 123);
    assert_eq!(info.get_cpu_usage(1), 1000);
    assert_eq!(info.get_cpu_usage(2), 0);
    assert_eq!(info.get_ram_usage(), (2048, 4096));
    assert_eq!(info.get_swap_usage(), (0, 0));
}

#[test]
fn cpu_widget_rows() {
    let mut w = CpuDevice::new(&tile("cpu", 0, 0, 22, 8), "#", 2);
    assert_eq!(w.print_data.len(), 8);
    assert_eq!(w.print_data[0], "CPU:");
    assert!(w.print_data[1..].iter().all(|r| r.is_empty()));
    assert!(w.row_bands().iter().all(|b| b.is_none()));
    w.update(&cpu_sample());
    let rows = w.show().clone();
    assert_eq!(rows.len(), 8);
    assert_eq!(rows[0], "CPU:");
    assert_eq!(rows[1], format!("  0[#{} 12.3%]", " ".repeat(8)));
    assert_eq!(rows[2], format!("  1[{}100.0%]", "#".repeat(9)));
    assert_eq!(rows[3], "RAM[##  2048/4096Mb]");
    assert_eq!(rows[4], format!("SWP[{}0/0Mb]", " ".repeat(10)));
    assert_eq!(rows[5], "");
    assert_eq!(rows[6], "");
    assert_eq!(rows[7], "");
    assert_eq!(
        w.row_bands().clone(),
        vec![None, Some(Band::Normal), Some(Band::Critical), Some(Band::Warning), Some(Band::Normal), None, None, None]
    );
    assert_eq!(w.get_position(), (1, 1));
    assert_eq!(w.get_size(), (20, 6));
    assert_eq!(w.get_name(), "cpu");
}

#[test]
fn cpu_widget_truncates_from_the_tail() {
    let mut w = CpuDevice::new(&tile("cpu", 2, 3, 22, 4), "#", 2);
    w.update(&cpu_sample());
    let rows = w.show().clone();
    assert_eq!(rows.len(), 4);
    assert_eq!(rows[0], "CPU:");
    assert_eq!(rows[2], format!("  1[{}100.0%]", "#".repeat(9)));
    assert_eq!(rows[3], "RAM[##  2048/4096Mb]");
    assert_eq!(w.get_position(), (3, 4));
    let mut full = CpuDevice::new(&tile("cpu", 0, 0, 22, 5), "#", 2);
    full.update(&cpu_sample());
    let rows = full.show().clone();
    assert_eq!(rows[3], "RAM[##  2048/4096Mb]");
    assert_eq!(rows[4], format!("SWP[{}0/0Mb]", " ".repeat(10)));
}

#[test]
fn degenerate_tile_renders_blank_rows() {
    let mut w = CpuDevice::new(&tile("cpu", 0, 0, 2, 4), "#", 2);
    w.update(&cpu_sample());
    let rows = w.show().clone();
    assert_eq!(rows.len(), 4);
    assert!(rows.iter().all(|r| r.is_empty()));
    assert_eq!(w.get_size(), (0, 0));
    assert_eq!(w.get_position(), (0, 0));
    let mut z = CpuDevice::new(&tile("cpu", 0, 0, 0, 0), "#", 2);
    assert!(z.show().is_empty());
}

#[test]
fn resize_reuses_readings_and_new_width() {
    let mut w = CpuDevice::new(&tile("cpu", 0, 0, 22, 8), "#", 2);
    w.update(&cpu_sample());
    w.show();
    w.resize(&tile("cpu", 4, 0, 12, 4));
    assert_eq!(w.print_data, vec!["CPU:".to_string(), String::new(), String::new(), String::new()]);
    let rows = w.show().clone();
    assert_eq!(
        rows,
        vec![
            "CPU:".to_string(),
            "  0[ 12.3%]".to_string(),
            "  1[100.0%]".to_string(),
            "RAM[2048/4096Mb]".to_string()
        ]
    );
    assert_eq!(w.get_position(), (5, 1));
}

#[test]
fn resize_twice_equals_resize_once() {
    let t = tile("cpu", 1, 2, 30, 9);
    let mut once = CpuDevice::new(&tile("cpu", 0, 0, 22, 8), "#", 2);
    once.update(&cpu_sample());
    let mut twice = CpuDevice::new(&tile("cpu", 0, 0, 22, 8), "#", 2);
    twice.update(&cpu_sample());
    once.resize(&t);
    twice.resize(&t);
    twice.resize(&t);
    assert_eq!(once.print_data, twice.print_data);
    assert_eq!(once.get_position(), twice.get_position());
    assert_eq!(once.get_size(), twice.get_size());
    assert_eq!(once.show().clone(), twice.show().clone());

    let gt = tile("gpu", 0, 5, 20, 7);
    let mut g1 = create_device(&tile("gpu", 0, 0, 22, 6), DeviceKind::Gpu, "#", &Hardware { cpu_count: 0, gpus: rtx() });
    let mut g2 = create_device(&tile("gpu", 0, 0, 22, 6), DeviceKind::Gpu, "#", &Hardware { cpu_count: 0, gpus: rtx() });
    g1.resize(&gt);
    g2.resize(&gt);
    g2.resize(&gt);
    assert_eq!(g1.show().clone(), g2.show().clone());
    assert_eq!(g1.get_position(), g2.get_position());
}

#[test]
fn gpu_info_text() {
    let mut d = GpuDeviceInfo::new("RTX", Some((8, 6)));
    assert_eq!(d.gpu_info, "RTX, Cap: 8.6");
    assert_eq!(d.get_info(), "RTX, Cap: 8.6, T:   0\u{b0}C");
    d.update(&gpu_samples()[0]);
    assert_eq!(d.get_info(), "RTX, Cap: 8.6, T:  45\u{b0}C");
    assert_eq!(d.get_memory_info(), (1024, 8192));
    assert_eq!(d.get_utilization_rate_info(), 50);
    let n = GpuDeviceInfo::new("Old", None);
    assert_eq!(n.gpu_info, "Old, Cap: ");
    assert_eq!(n.get_memory_info(), (0, 1));
}

#[test]
fn gpu_widget_rows() {
    let mut w = GpuDevice::new(&tile("gpu", 0, 22, 22, 6), "#", &rtx());
    assert_eq!(w.print_data[0], "GPU");
    assert!(w.print_data[1..].iter().all(|r| r.is_empty()));
    w.update(&gpu_samples());
    let rows = w.show().clone();
    assert_eq!(rows.len(), 6);
    assert_eq!(rows[0], "GPU");
    assert_eq!(rows[1], "RTX, Cap: 8.6, T:  45\u{b0}C");
    assert_eq!(rows[2], "MEM[    1024/8192MB]");
    assert_eq!(rows[3], "GPU[######      50%]");
    assert_eq!(rows[4], "");
    assert_eq!(rows[5], "");
    assert_eq!(w.row_bands().clone(), vec![None, None, Some(Band::Normal), Some(Band::Warning), None, None]);
    assert_eq!(w.get_position(), (1, 23));
    assert_eq!(w.get_name(), "gpu");
}

#[test]
fn gpu_widget_shows_every_line_that_fits() {
    let mut w = GpuDevice::new(&tile("gpu", 0, 0, 22, 4), "#", &rtx());
    w.update(&gpu_samples());
    let rows = w.show().clone();
    assert_eq!(rows, vec![
        "GPU".to_string(),
        "RTX, Cap: 8.6, T:  45\u{b0}C".to_string(),
        "MEM[    1024/8192MB]".to_string(),
        "GPU[######      50%]".to_string(),
    ]);
}

#[test]
fn fresh_widget_without_content_has_blank_buffer() {
    let w = CpuDevice::new(&tile("cpu", 0, 0, 2, 3), "#", 1);
    assert_eq!(w.print_data, vec![String::new(), String::new(), String::new()]);
}

#[test]
fn gpu_widget_two_devices_truncated() {
    let gpus = vec![
        GpuIdentity { name: "A".to_string(), capability: None },
        GpuIdentity { name: "B".to_string(), capability: Some((7, 5)) },
    ];
    let mut w = GpuDevice::new(&tile("gpu", 0, 0, 30, 8), "#", &gpus);
    let rows = w.show().clone();
    assert_eq!(rows.len(), 8);
    assert_eq!(rows[0], "GPU");
    assert_eq!(rows[1], "A, Cap: , T:   0\u{b0}C");
    assert_eq!(rows[4], "B, Cap: 7.5, T:   0\u{b0}C");
    assert!(rows[5].starts_with("MEM["));
    assert!(rows[6].starts_with("GPU["));
    assert_eq!(rows[7], "");
}

#[test]
fn create_device_functions() {
    let d = cpu_device::create_device(&tile("cpu", 0, 0, 10, 10), "#", 4);
    assert!(matches!(d, Device::Cpu(_)));
    let g = gpu_device::create_device(&tile("gpu", 0, 0, 10, 10), "#", &rtx());
    assert!(matches!(g, Device::Gpu(_)));
    assert_eq!(g.get_name(), "gpu");
    assert_eq!(d.get_size(), (8, 8));
}

#[test]
fn device_update_applies_matching_samples() {
    let hw = Hardware { cpu_count: 2, gpus: rtx() };
    let mut c = create_device(&tile("cpu", 0, 0, 22, 8), DeviceKind::Cpu, "#", &hw);
    let mut g = create_device(&tile("gpu", 0, 0, 22, 6), DeviceKind::Gpu, "#", &hw);
    c.update(&cpu_sample(), &gpu_samples());
    g.update(&cpu_sample(), &gpu_samples());
    assert_eq!(c.show()[3], "RAM[##  2048/4096Mb]");
    assert_eq!(g.show()[3], "GPU[######      50%]");
}

#[test]
fn registry_lookup() {
    let mut r = DeviceRegistry::new();
    assert_eq!(r.lookup(&"cpu".to_string()), Some(DeviceKind::Cpu));
    assert_eq!(r.lookup(&"gpu".to_string()), Some(DeviceKind::Gpu));
    assert_eq!(r.lookup(&"disk".to_string()), None);
    assert_eq!(r.lookup(&"CPU".to_string()), None);
    r.register("disk".to_string(), DeviceKind::Cpu);
    assert_eq!(r.lookup(&"disk".to_string()), Some(DeviceKind::Cpu));
    r.register("cpu".to_string(), DeviceKind::Gpu);
    assert_eq!(r.lookup(&"cpu".to_string()), Some(DeviceKind::Gpu));
    assert_eq!(DeviceRegistry::empty().lookup(&"cpu".to_string()), None);
}
