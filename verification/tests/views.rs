use stress_center::cpu::{
    bottom_graph_menu, bottom_graph_total_format, bottom_graph_view, compute_column_count,
    format_uptime, grid_position, is_bogomips, resolve_bottom_graph, uptime_parts,
    usage_graph_menu, thread_graph_mode, usage_graph_visibility, BottomGraphMenu, ThreadGraphMode,
    TotalFormat, UsageGraphMenu, GRAPH_CLOCK, GRAPH_NONE, GRAPH_POWER,
    GRAPH_SELECTION_ALL, GRAPH_SELECTION_ALL_THREADS, GRAPH_SELECTION_ALL_THREADS_STACKED,
    GRAPH_SELECTION_OVERALL, GRAPH_TEMPERATURE,
};
use stress_center::cpu::{cpu_readouts, toggle_kernel_times, CpuReading, RowUpdate, CpuStaticInfo, PerformancePageCpu};
use stress_center::icons::{merge_app_icons, missing_icons};
use stress_center::partition::{
    mount_point_header, mount_point_tooltip, split_mount_points, PartitionInfo, PartitionUsageItem, UsageUpdate,
};
use stress_center::summary::{cpu_data_summary, gpu_data_summary, CpuSummary, GpuSummary};
use stress_center::text::u64_to_decimal;

#[test]
fn column_count_small() {
    for n in 0..=3 {
        assert_eq!(compute_column_count(n), n);
    }
}

#[test]
fn column_count_values() {
    // rounded sqrt, then first divisor in [s, min(n, 2s))
    assert_eq!(compute_column_count(4), 2);
    assert_eq!(compute_column_count(5), 2); // s = 2, range [2, 4): no divisor of 5 -> 2
    assert_eq!(compute_column_count(6), 2); // s = 2 divides 6
    assert_eq!(compute_column_count(7), 3); // s = 3, [3, 6): none -> 3
    assert_eq!(compute_column_count(8), 4); // s = 3, [3, 6): 4 divides 8
    assert_eq!(compute_column_count(12), 3); // s = 3, 3 divides 12
    assert_eq!(compute_column_count(16), 4);
    assert_eq!(compute_column_count(20), 4); // s = 4, 4 | 20
    assert_eq!(compute_column_count(24), 6); // s = 5, [5, 10): 6 | 24
    assert_eq!(compute_column_count(13), 4); // s = 4, [4, 8): none -> 4
    assert_eq!(compute_column_count(64), 8);
    assert_eq!(compute_column_count(128), 16); // s = 11, [11, 22): 16 | 128
}

fn float_reference(item_count: usize) -> usize {
    if item_count <= 3 {
        return item_count;
    }
    let s = (item_count as f64).sqrt().round() as usize;
    for i in s..item_count.min(s * 2) {
        if item_count % i == 0 {
            return i;
        }
    }
    s
}

#[test]
fn column_count_matches_square_root_rounding() {
    for n in 0..2000 {
        assert_eq!(compute_column_count(n), float_reference(n), "n = {}", n);
    }
}

#[test]
fn grid_positions() {
    assert_eq!(grid_position(0, 3), (0, 0));
    assert_eq!(grid_position(5, 3), (1, 2));
    assert_eq!(grid_position(6, 3), (2, 0));
    let cols = compute_column_count(10);
    let mut cells = std::collections::HashSet::new();
    for i in 0..10 {
        let p = grid_position(i, cols);
        assert!(p.1 < cols);
        assert!(cells.insert(p));
    }
}

#[test]
fn usage_graph_selection() {
    assert_eq!(usage_graph_visibility(GRAPH_SELECTION_OVERALL, 4), vec![true, false, false, false]);
    assert_eq!(usage_graph_visibility(GRAPH_SELECTION_ALL, 4), vec![false, false, true, true]);
    assert_eq!(usage_graph_visibility(GRAPH_SELECTION_ALL_THREADS, 4), vec![false, true, false, false]);
    assert_eq!(
        usage_graph_visibility(GRAPH_SELECTION_ALL_THREADS_STACKED, 3),
        vec![false, true, false]
    );
    assert_eq!(usage_graph_visibility(0, 3), vec![false, false, false]);
    assert!(usage_graph_visibility(1, 0).is_empty());
}

#[test]
fn bottom_graph_fallbacks() {
    let r = resolve_bottom_graph(GRAPH_POWER, false, true);
    assert_eq!(r.selection, GRAPH_TEMPERATURE);
    assert_eq!(r.saved, vec![GRAPH_TEMPERATURE]);
    let r = resolve_bottom_graph(GRAPH_POWER, false, false);
    assert_eq!(r.selection, GRAPH_CLOCK);
    assert_eq!(r.saved, vec![GRAPH_TEMPERATURE, GRAPH_CLOCK]);
    let r = resolve_bottom_graph(GRAPH_TEMPERATURE, true, false);
    assert_eq!(r.selection, GRAPH_CLOCK);
    assert_eq!(r.saved, vec![GRAPH_CLOCK]);
    let r = resolve_bottom_graph(GRAPH_POWER, true, false);
    assert_eq!(r.selection, GRAPH_POWER);
    assert!(r.saved.is_empty());
    let r = resolve_bottom_graph(GRAPH_NONE, false, false);
    assert_eq!(r.selection, GRAPH_NONE);
    assert!(r.saved.is_empty());
}

#[test]
fn bottom_graph_views() {
    let v = bottom_graph_view(GRAPH_NONE);
    assert!(!v.box_visible && v.label.is_none());
    let v = bottom_graph_view(GRAPH_CLOCK);
    assert!(v.box_visible && v.clock_visible && !v.power_visible && !v.temperature_visible);
    assert_eq!(v.label, Some("Clock speed over "));
    assert_eq!(bottom_graph_view(GRAPH_POWER).label, Some("Power draw over "));
    assert_eq!(bottom_graph_view(GRAPH_TEMPERATURE).label, Some("Temperature over "));
    assert_eq!(
        bottom_graph_menu(GRAPH_TEMPERATURE),
        BottomGraphMenu { none: false, power: false, clock: false, temperature: true }
    );
    assert_eq!(bottom_graph_total_format(GRAPH_CLOCK, true), TotalFormat::BogoMips);
    assert_eq!(bottom_graph_total_format(GRAPH_CLOCK, false), TotalFormat::Hertz);
    assert_eq!(bottom_graph_total_format(GRAPH_POWER, true), TotalFormat::Watts);
    assert_eq!(bottom_graph_total_format(GRAPH_TEMPERATURE, false), TotalFormat::Celsius);
    assert_eq!(bottom_graph_total_format(GRAPH_NONE, false), TotalFormat::Empty);
}

#[test]
fn bogomips_detection() {
    assert!(is_bogomips(&Some("bogomips".to_string())));
    assert!(!is_bogomips(&Some("acpi-cpufreq".to_string())));
    assert!(!is_bogomips(&Some("BogoMIPS".to_string())));
    assert!(!is_bogomips(&None));
}

#[test]
fn uptime_text() {
    assert_eq!(format_uptime(0), "00:00:00:00");
    assert_eq!(format_uptime(90061), "01:01:01:01");
    assert_eq!(format_uptime(86399), "00:23:59:59");
    assert_eq!(format_uptime(123 * 86400 + 5), "123:00:00:05");
    let secs = 987654321u64;
    let (d, h, m, s) = uptime_parts(secs);
    assert_eq!(d * 86400 + h * 3600 + m * 60 + s, secs);
    assert_eq!(
        format_uptime(secs),
        format!("{:02}:{:02}:{:02}:{:02}", d, h, m, s)
    );
}

#[test]
fn decimal_rendering() {
    for n in [0u64, 7, 10, 99, 100, 12345, u64::MAX] {
        assert_eq!(u64_to_decimal(n), n.to_string());
    }
}

fn info(mps: &[&str], fs: Option<&str>, size: Option<u64>, used: Option<u64>) -> PartitionInfo {
    PartitionInfo {
        devname: "sda1".to_string(),
        mountpoints: mps.iter().map(|s| s.to_string()).collect(),
        filesystem: fs.map(|s| s.to_string()),
        size,
        used,
    }
}

#[test]
fn partition_first_update() {
    let (item, ch) = PartitionUsageItem::from_part_info(&info(&["/"], Some("ext4"), Some(100), Some(40)));
    let p = ch.parts;
    assert!(p.mount_points && p.filesystem && p.used && p.size);
    assert_eq!(p.usage, UsageUpdate::Fraction);
    let v = ch.mount_point_view.expect("mount points changed");
    assert_eq!(v.rows, vec!["/"]);
    assert_eq!(v.tooltip, None);
    assert_eq!(item.partition_size(), Some(100));
}

#[test]
fn partition_update_is_idempotent() {
    let i = info(&["/", "/home"], None, Some(0), None);
    let (mut item, ch) = PartitionUsageItem::from_part_info(&i);
    let p = ch.parts;
    assert!(p.mount_points && !p.filesystem && !p.used && p.size);
    assert_eq!(p.usage, UsageUpdate::ZeroSize);
    let again = item.update(&i);
    let p = again.parts;
    assert!(!p.mount_points && !p.filesystem && !p.used && !p.size);
    assert_eq!(p.usage, UsageUpdate::Unchanged);
    assert!(again.mount_point_view.is_none());
    item.update(&info(&["/x"], Some("ext4"), Some(3), Some(2)));
    item.update(&i);
    let third = item.update(&i);
    assert!(!third.parts.mount_points && !third.parts.size && third.mount_point_view.is_none());
    assert_eq!(third.parts.usage, UsageUpdate::Unchanged);
}

#[test]
fn partition_partial_changes() {
    let mut item = PartitionUsageItem::new();
    assert_eq!(item.partition_size(), None);
    let ch = item.update(&info(&[], Some("btrfs"), None, Some(5))).parts;
    assert!(!ch.mount_points && ch.filesystem && ch.used && !ch.size);
    assert_eq!(ch.usage, UsageUpdate::Incomplete);
    let ch = item.update(&info(&[], Some("btrfs"), Some(10), Some(5))).parts;
    assert!(!ch.used && ch.size && !ch.filesystem);
    assert_eq!(ch.usage, UsageUpdate::Fraction);
    let ch = item.update(&info(&["/mnt"], Some("xfs"), Some(10), Some(5))).parts;
    assert!(ch.mount_points && ch.filesystem && !ch.used && !ch.size);
    assert_eq!(ch.usage, UsageUpdate::Unchanged);
}

#[test]
fn partition_mount_point_rows_and_tooltip() {
    let mut item = PartitionUsageItem::new();
    let ch = item.update(&info(&["/", "/a", "/b", "/c"], None, None, None));
    let v = ch.mount_point_view.expect("mount points changed");
    assert_eq!(v.rows, vec!["/", "/a", "/b"]);
    assert_eq!(v.tooltip, Some("Additional mount point:\n    /c".to_string()));
    let ch = item.update(&info(&["/", "/a", "/b", "/c", "/d"], None, None, None));
    let v = ch.mount_point_view.expect("mount points changed");
    assert_eq!(v.tooltip, Some("Additional mount points:\n    /c\n    /d".to_string()));
    assert_eq!(mount_point_header(1), "Additional mount point:");
    assert_eq!(mount_point_header(2), "Additional mount points:");
}

#[test]
fn mount_points_split_and_tooltip() {
    let mps: Vec<String> = ["/", "/a", "/b", "/c", "/d"].iter().map(|s| s.to_string()).collect();
    let (shown, extra) = split_mount_points(&mps);
    assert_eq!(shown, vec!["/", "/a", "/b"]);
    assert_eq!(extra, vec!["/c", "/d"]);
    assert_eq!(
        mount_point_tooltip("Additional mount points:", &extra),
        Some("Additional mount points:\n    /c\n    /d".to_string())
    );
    let (shown, extra) = split_mount_points(&mps[..2].to_vec());
    assert_eq!(shown.len(), 2);
    assert!(extra.is_empty());
    assert_eq!(mount_point_tooltip("x", &extra), None);
}

#[test]
fn icons_to_fetch() {
    let ids: Vec<String> = vec!["a".into(), "b".into(), "c".into()];
    assert_eq!(missing_icons(&None, &ids), Some(ids.clone()));
    assert_eq!(missing_icons(&None, &Vec::new()), Some(Vec::new()));
    let cached: Vec<String> = vec!["b".into()];
    assert_eq!(missing_icons(&Some(cached), &ids), Some(vec!["a".to_string(), "c".to_string()]));
    let all: Vec<String> = vec!["c".into(), "b".into(), "a".into()];
    assert_eq!(missing_icons(&Some(all), &ids), None);
}

#[test]
fn cpu_summary_text() {
    let s = CpuSummary {
        cpu_name: "Ryzen".into(),
        base_speed: "3.6 GHz".into(),
        sockets: "1".into(),
        virtual_processors: "16".into(),
        virtualization: "AMD-V".into(),
        virtual_machine: "No".into(),
        l1_cache: "512 KiB".into(),
        l2_cache: "4 MiB".into(),
        l3_cache: "32 MiB".into(),
        cpufreq_driver: "amd-pstate".into(),
        cpufreq_governor: "powersave".into(),
        power_preference: "balance".into(),
        utilization: "5%".into(),
        speed: "2.1 GHz".into(),
        processes: "300".into(),
        threads: "2000".into(),
        handles: "9000".into(),
        uptime: "00:01:02:03".into(),
        temperature: "45 °C".into(),
    };
    let expected = format!(
        r#"CPU

    {}

    Base speed:         {}
    Sockets:            {}
    Virtual processors: {}
    Virtualization:     {}
    Virtual machine:    {}
    L1 cache:           {}
    L2 cache:           {}
    L3 cache:           {}
    Cpufreq driver:     {}
    Cpufreq governor:   {}
    Power preference:   {}

    Utilization: {}
    Speed:       {}
    Processes:   {}
    Threads:     {}
    Handles:     {}
    Up time:     {}
    Temperature: {}"#,
        s.cpu_name, s.base_speed, s.sockets, s.virtual_processors, s.virtualization,
        s.virtual_machine, s.l1_cache, s.l2_cache, s.l3_cache, s.cpufreq_driver,
        s.cpufreq_governor, s.power_preference, s.utilization, s.speed, s.processes,
        s.threads, s.handles, s.uptime, s.temperature
    );
    assert_eq!(cpu_data_summary(&s), expected);
}

#[test]
fn gpu_summary_text() {
    let f = |x: &str| x.to_string();
    let s = GpuSummary {
        gpu_id: f("GPU 0"),
        device_name: f("Radeon"),
        opengl_version: f("4.6"),
        vulkan_version: f("1.3.250"),
        pcie_speed: f("PCIe Gen 4 x16 "),
        max_pcie_speed: f("PCIe Gen 4 x16 "),
        pci_address: f("0000:03:00.0"),
        utilization: f("3%"),
        memory_usage_current: f("1 GiB"),
        memory_usage_max: f("8 GiB"),
        shared_memory_current: f("10 MiB"),
        shared_memory_max: f("16 GiB"),
        clock_speed_current: f("500 MHz"),
        clock_speed_max: f("2.5 GHz"),
        memory_speed_current: f("96 MHz"),
        memory_speed_max: f("1 GHz"),
        power_draw_current: f("12 W"),
        power_draw_max: f("200 W"),
        encode_percent: f("0%"),
        decode_percent: f("1%"),
        temperature: f("40 °C"),
    };
    let expected = format!(
        r#"{}

    {}

    OpenGL version:        {}
    Vulkan version:        {}
    PCI Express speed:     {}
    Max PCI Express speed: {}
    PCI bus address:       {}

    Utilization:   {}
    Memory usage:  {} / {}
    GTT usage:     {} / {}
    Clock speed:   {} / {}
    Memory speed:  {} / {}
    Power draw:    {}{}
    Encode/Decode: {} / {}
    Temperature:   {}"#,
        s.gpu_id, s.device_name, s.opengl_version, s.vulkan_version, s.pcie_speed,
        s.max_pcie_speed, s.pci_address, s.utilization, s.memory_usage_current,
        s.memory_usage_max, s.shared_memory_current, s.shared_memory_max,
        s.clock_speed_current, s.clock_speed_max, s.memory_speed_current, s.memory_speed_max,
        s.power_draw_current, s.power_draw_max, s.encode_percent, s.decode_percent,
        s.temperature
    );
    assert_eq!(gpu_data_summary(&s), expected);
}

#[test]
fn usage_menu_and_thread_mode() {
    assert_eq!(
        usage_graph_menu(GRAPH_SELECTION_ALL_THREADS),
        UsageGraphMenu { overall: false, all_processors: false, all_threads: true, all_threads_stacked: false }
    );
    assert_eq!(
        usage_graph_menu(GRAPH_SELECTION_OVERALL),
        UsageGraphMenu { overall: true, all_processors: false, all_threads: false, all_threads_stacked: false }
    );
    assert_eq!(thread_graph_mode(GRAPH_SELECTION_ALL_THREADS_STACKED), ThreadGraphMode::Stacked);
    assert_eq!(thread_graph_mode(GRAPH_SELECTION_ALL_THREADS), ThreadGraphMode::Overlaid);
    assert_eq!(thread_graph_mode(GRAPH_SELECTION_OVERALL), ThreadGraphMode::Overlaid);
}

#[test]
fn cpu_page_state() {
    let mut p = PerformancePageCpu::new();
    let mut info = CpuStaticInfo {
        name: None,
        core_count: 4,
        frequency_driver: Some("bogomips".to_string()),
        has_base_frequency: false,
        socket_count: None,
        virtualization_technology: None,
        is_virtual_machine: None,
        l1_cache_bytes: Some(1),
        l2_cache_bytes: None,
        l3_cache_bytes: None,
        has_power: false,
        has_temperature: true,
    };
    let r = p.set_static_information(&info, GRAPH_POWER);
    assert!(p.is_bogomips);
    assert_eq!(r.bottom.selection, GRAPH_TEMPERATURE);
    assert_eq!(p.bottom_graph_selection, GRAPH_TEMPERATURE);
    let t = r.texts;
    assert_eq!(t.name, "Unknown");
    assert_eq!(t.graph_count, 6);
    assert_eq!(t.virtual_processors, "4");
    assert_eq!(t.sockets, "Unknown");
    assert_eq!(t.virtualization, "Unsupported");
    assert_eq!(t.virtual_machine, "Unknown");
    assert_eq!(t.base_speed, Some("Unknown"));
    assert_eq!((t.l1_cache, t.l2_cache, t.l3_cache), (None, Some("N/A"), Some("N/A")));
    p.bottom_setting_changed(GRAPH_CLOCK);
    assert_eq!(p.bottom_graph_selection, GRAPH_CLOCK);
    info.name = Some("Ryzen".to_string());
    info.frequency_driver = None;
    info.has_power = true;
    info.socket_count = Some(2);
    info.virtualization_technology = Some("AMD-V".to_string());
    info.is_virtual_machine = Some(false);
    info.has_base_frequency = true;
    let r = p.set_static_information(&info, GRAPH_POWER);
    assert!(!p.is_bogomips);
    assert_eq!(r.bottom.selection, GRAPH_POWER);
    assert!(r.bottom.saved.is_empty());
    let t = r.texts;
    assert_eq!((t.name.as_str(), t.sockets.as_str(), t.virtualization.as_str()), ("Ryzen", "2", "AMD-V"));
    assert_eq!(t.virtual_machine, "No");
    assert_eq!(t.base_speed, None);
}

fn reading() -> CpuReading {
    CpuReading {
        core_count: 2,
        core_kernel_count: 2,
        has_power_draw: false,
        has_temperature: true,
        total_process_count: 312,
        total_thread_count: 1500,
        total_handle_count: 0,
        uptime_secs: 90061,
        frequency_driver: Some("intel_pstate".to_string()),
        frequency_governor: None,
        power_preference: Some("balance_performance".to_string()),
    }
}

#[test]
fn cpu_reading_updates() {
    let r = reading();
    assert!(cpu_readouts(&r, 0).is_none());
    let o = cpu_readouts(&r, 4).expect("graphs present");
    assert_eq!((o.processes.as_str(), o.threads.as_str(), o.handles.as_str()), ("312", "1500", "0"));
    assert_eq!(o.uptime, "01:01:01:01");
    assert!(o.hide_power_row);
    assert!(matches!(&o.driver, RowUpdate::Write(t) if t == "intel_pstate"));
    assert!(matches!(&o.governor, RowUpdate::Hide));
    assert!(matches!(&o.preference, RowUpdate::Write(t) if t == "balance_performance"));
    let mut powered = reading();
    powered.has_power_draw = true;
    powered.frequency_driver = None;
    let o = cpu_readouts(&powered, 4).expect("graphs present");
    assert!(!o.hide_power_row);
    assert!(matches!(&o.driver, RowUpdate::Hide));
    assert!(o.temperature_shown);
    assert_eq!(o.core_graphs, vec![2, 3]);
}

#[test]
fn icons_merge_new_ones_win() {
    let new = vec![("b".to_string(), 20), ("c".to_string(), 30)];
    assert_eq!(merge_app_icons(None, new.clone()), new);
    let old = vec![("a".to_string(), 1), ("b".to_string(), 2)];
    let merged = merge_app_icons(Some(old), new);
    assert_eq!(
        merged,
        vec![("a".to_string(), 1), ("b".to_string(), 20), ("c".to_string(), 30)]
    );
}

#[test]
fn kernel_times_toggle() {
    let t = toggle_kernel_times(false, 5);
    assert!(t.shown);
    assert_eq!(t.graphs, vec![0, 2, 3, 4]);
    let t = toggle_kernel_times(true, 2);
    assert!(!t.shown);
    assert_eq!(t.graphs, vec![0]);
    assert_eq!(toggle_kernel_times(true, 1).graphs, vec![0]);
}
