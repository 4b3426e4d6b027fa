use stress_center::gpu::{
    dedicated_memory_labels, gpu_id_text, gpu_static_texts, gpu_readouts, graph_capabilities, graph_menus,
    graph_support, graph_total, graph_view, live_pcie_visibility, opengl_version_text,
    pcie_speed_text, shared_memory_labels, static_pcie_visibility, supported_graph,
    vulkan_version_text, ApiVersion, GpuInfo, GpuTotal, GraphCapabilities, OpenGlVariant,
    PerformancePageGpu, GRAPH_CLOCKS, GRAPH_ENCODE_DECODE, GRAPH_MEMORY, GRAPH_NONE, GRAPH_POWER,
    GRAPH_TEMPERATURE,
};

fn bare() -> GpuInfo {
    GpuInfo {
        id: "0000:01:00.0".to_string(),
        device_name: None,
        has_encoder_percent: false,
        has_decoder_percent: false,
        encode_decode_shared: false,
        total_memory: None,
        used_memory: None,
        total_shared_memory: None,
        used_shared_memory: None,
        has_power_draw: false,
        has_max_power_draw: false,
        clock_speed_mhz: None,
        max_clock_speed_mhz: None,
        memory_speed_mhz: None,
        max_memory_speed_mhz: None,
        has_temperature: false,
        opengl_variant: None,
        opengl_version: None,
        vulkan_version: None,
        pcie_gen: None,
        pcie_lanes: None,
        max_pcie_gen: None,
        max_pcie_lanes: None,
    }
}

#[test]
fn support_mask_bits() {
    let caps = GraphCapabilities { encode_decode: true, memory: false, power: true, clocks: false, temperature: true };
    assert_eq!(graph_support(caps), 0b101011);
    let none = GraphCapabilities { encode_decode: false, memory: false, power: false, clocks: false, temperature: false };
    assert_eq!(graph_support(none), 0b1);
    let all = GraphCapabilities { encode_decode: true, memory: true, power: true, clocks: true, temperature: true };
    assert_eq!(graph_support(all), 0b111111);
}

#[test]
fn supported_graph_choice() {
    let support = 0b101011u8;
    assert_eq!(supported_graph(support, GRAPH_POWER), GRAPH_POWER);
    assert_eq!(supported_graph(support, GRAPH_MEMORY), GRAPH_NONE);
    assert_eq!(supported_graph(support, GRAPH_TEMPERATURE), GRAPH_TEMPERATURE);
    assert_eq!(supported_graph(support, 7), GRAPH_NONE);
    assert_eq!(supported_graph(support, GRAPH_NONE), GRAPH_NONE);
}

#[test]
fn capabilities_from_readings() {
    let mut g = bare();
    g.has_decoder_percent = true;
    g.used_shared_memory = Some(1);
    g.memory_speed_mhz = Some(1000);
    let c = graph_capabilities(&g);
    assert!(c.encode_decode && c.memory && c.clocks && !c.power && !c.temperature);
}

#[test]
fn page_configures_graphs() {
    let mut g = bare();
    g.has_power_draw = true;
    g.total_memory = Some(8 << 30);
    g.has_encoder_percent = true;
    g.encode_decode_shared = true;
    let mut page = PerformancePageGpu::new("card0");
    assert_eq!(page.name(), "card0");
    page.configure_graphs(&g, GRAPH_POWER, GRAPH_CLOCKS);
    let s = page.state();
    assert_eq!(s.middle, GRAPH_POWER);
    assert_eq!(s.bottom, GRAPH_NONE);
    assert!(s.encode_decode_shared);
    assert!(!s.gtt_available);
    assert_eq!(s.support, 0b001111);
    assert_eq!(page.bottom_setting_changed(GRAPH_MEMORY), GRAPH_MEMORY);
    assert_eq!(page.middle_setting_changed(GRAPH_TEMPERATURE), GRAPH_NONE);
    assert_eq!(page.state().middle, GRAPH_NONE);
    assert_eq!(page.state().bottom, GRAPH_MEMORY);
    assert_eq!(page.middle_checked(), vec![true, false, false, false, false, false]);
    assert_eq!(page.bottom_checked(), vec![false, false, true, false, false, false]);
}

#[test]
fn page_defaults() {
    let mut page = PerformancePageGpu::default();
    assert_eq!(page.name(), "");
    assert!(!page.summary_mode());
    assert!(page.encode_decode_available());
    assert_eq!(page.middle_checked(), vec![true; 6]);
    assert_eq!(page.bottom_checked(), vec![true; 6]);
    let s = page.state();
    assert_eq!((s.support, s.middle, s.bottom), (0, GRAPH_NONE, GRAPH_NONE));
    assert!(!s.encode_decode_shared && !s.gtt_available);
    page.set_name("card1");
    page.set_summary_mode(true);
    assert_eq!(page.name(), "card1");
    assert!(page.summary_mode());
    assert_eq!(page.state(), s);
}

#[test]
fn unsupported_choices_never_shown() {
    let mut g = bare();
    g.has_temperature = true;
    let mut page = PerformancePageGpu::new("card0");
    page.configure_graphs(&g, GRAPH_MEMORY, GRAPH_TEMPERATURE);
    assert_eq!(page.state().middle, GRAPH_NONE);
    assert_eq!(page.state().bottom, GRAPH_TEMPERATURE);
    for choice in 0..8 {
        let m = page.middle_setting_changed(choice);
        let b = page.bottom_setting_changed(7 - choice);
        assert!(m == GRAPH_NONE || m == GRAPH_TEMPERATURE);
        assert!(b == GRAPH_NONE || b == GRAPH_TEMPERATURE);
    }
}

#[test]
fn static_texts() {
    let mut g = bare();
    let t = gpu_static_texts(&g);
    assert_eq!(t.device_name, "Unknown");
    assert_eq!(t.pci_address, "0000:01:00.0");
    assert!(!t.total_memory_valid && !t.encode_decode_shared);
    assert_eq!(t.encode_label, None);
    g.device_name = Some("Radeon".to_string());
    g.total_memory = Some(1);
    g.encode_decode_shared = true;
    let t = gpu_static_texts(&g);
    assert_eq!(t.device_name, "Radeon");
    assert!(t.total_memory_valid && t.encode_decode_shared);
    assert_eq!(t.encode_label, Some("Video encode/decode"));
}

#[test]
fn menus_exclude_other_area() {
    let m = graph_menus(GRAPH_POWER, GRAPH_MEMORY);
    assert_eq!(m.middle_checked, vec![false, false, false, true, false, false]);
    assert_eq!(m.bottom_checked, vec![false, false, true, false, false, false]);
    assert_eq!(m.middle_enabled, vec![true, true, false, true, true, true]);
    assert_eq!(m.bottom_enabled, vec![true, true, true, false, true, true]);
    let m = graph_menus(GRAPH_NONE, GRAPH_NONE);
    assert_eq!(m.middle_enabled, vec![true; 6]);
}

#[test]
fn area_views() {
    let v = graph_view(GRAPH_NONE, GRAPH_NONE, GRAPH_NONE, false, false, false);
    assert!(!v.box_visible && !v.homogeneous && v.spacing == 0 && v.datasets.is_none());
    let v = graph_view(GRAPH_MEMORY, GRAPH_MEMORY, GRAPH_NONE, false, true, false);
    assert!(v.box_visible && v.homogeneous && v.spacing == 10 && v.legend_memory);
    assert_eq!(v.datasets, Some(vec![false, false, true, true, false, false, false, false]));
    assert_eq!(v.label, Some("Dedicated and shared memory usage over "));
    let v = graph_view(GRAPH_MEMORY, GRAPH_MEMORY, GRAPH_NONE, false, false, false);
    assert_eq!(v.datasets, Some(vec![false, false, true, false, false, false, false, false]));
    assert_eq!(v.label, Some("Memory usage over "));
    assert!(!v.legend_memory);
    let v = graph_view(GRAPH_ENCODE_DECODE, GRAPH_CLOCKS, GRAPH_ENCODE_DECODE, true, false, true);
    assert!(v.total_is_percent && !v.legend_encode_decode && v.legend_clock);
    assert_eq!(v.label, Some("Video encode/decode utilization over "));
    assert_eq!(graph_view(GRAPH_CLOCKS, GRAPH_CLOCKS, 0, false, false, false).datasets,
        Some(vec![false, false, false, false, false, true, true, false]));
}

#[test]
fn area_totals() {
    assert_eq!(graph_total(GRAPH_NONE, true), GpuTotal::Unchanged);
    assert_eq!(graph_total(GRAPH_ENCODE_DECODE, true), GpuTotal::Unchanged);
    assert_eq!(graph_total(GRAPH_MEMORY, true), GpuTotal::MemoryPair);
    assert_eq!(graph_total(GRAPH_MEMORY, false), GpuTotal::Memory);
    assert_eq!(graph_total(GRAPH_POWER, false), GpuTotal::Watts);
    assert_eq!(graph_total(GRAPH_CLOCKS, false), GpuTotal::Hertz);
    assert_eq!(graph_total(GRAPH_TEMPERATURE, false), GpuTotal::Celsius);
    assert_eq!(graph_total(9, false), GpuTotal::Empty);
}

#[test]
fn pcie_rows() {
    assert_eq!(pcie_speed_text(4, 16), "PCIe Gen 4 x16 ");
    let mut g = bare();
    assert_eq!(static_pcie_visibility(&g), (false, false));
    assert_eq!(live_pcie_visibility(&g), (false, false));
    g.max_pcie_gen = Some(4);
    g.max_pcie_lanes = Some(16);
    assert_eq!(static_pcie_visibility(&g), (false, true));
    assert_eq!(live_pcie_visibility(&g), (false, false));
    g.pcie_gen = Some(4);
    g.pcie_lanes = Some(16);
    assert_eq!(live_pcie_visibility(&g), (true, false));
    g.pcie_lanes = Some(8);
    assert_eq!(live_pcie_visibility(&g), (true, true));
}

#[test]
fn version_texts() {
    assert_eq!(gpu_id_text(Some(2)), "GPU 2");
    assert_eq!(gpu_id_text(None), "GPU");
    assert_eq!(
        vulkan_version_text(Some(ApiVersion { major: 1, minor: 3, patch: Some(250) })),
        Some("1.3.250".to_string())
    );
    assert_eq!(
        vulkan_version_text(Some(ApiVersion { major: 1, minor: 2, patch: None })),
        Some("1.2.0".to_string())
    );
    assert_eq!(vulkan_version_text(None), None);
}

#[test]
fn opengl_texts() {
    let v = Some(ApiVersion { major: 4, minor: 6, patch: None });
    assert_eq!(opengl_version_text(None, v, "Unknown"), "4.6");
    assert_eq!(opengl_version_text(Some(OpenGlVariant::OpenGl), v, "Unknown"), "4.6");
    assert_eq!(opengl_version_text(Some(OpenGlVariant::OpenGles), v, "Unknown"), "ES 4.6");
    assert_eq!(opengl_version_text(Some(OpenGlVariant::OpenGles), None, "Unknown"), "ES ");
    assert_eq!(opengl_version_text(None, None, "Unbekannt"), "Unbekannt");
    let big = Some(ApiVersion { major: u32::MAX, minor: u32::MAX, patch: None });
    assert_eq!(
        opengl_version_text(Some(OpenGlVariant::OpenGles), big, "Unknown"),
        "ES 4294967295.4294967295"
    );
}

#[test]
fn memory_titles() {
    let l = dedicated_memory_labels(Some(1), true);
    assert!(l.used_valid);
    assert_eq!(l.title, Some("Memory Usage"));
    let l = dedicated_memory_labels(None, true);
    assert!(!l.used_valid);
    assert_eq!(l.title, Some("Total Memory"));
    assert_eq!(dedicated_memory_labels(None, false).title, None);
    let s = shared_memory_labels(Some(10), None);
    assert!(s.total_valid && !s.used_valid);
    assert_eq!(s.title, Some("Total Shared Memory"));
    let s = shared_memory_labels(None, Some(3));
    assert!(!s.total_valid && s.used_valid);
    assert_eq!(s.title, Some("Shared Memory Usage"));
    assert_eq!(shared_memory_labels(None, None).title, None);
}

#[test]
fn readouts() {
    let mut g = bare();
    g.has_decoder_percent = true;
    g.clock_speed_mhz = Some(500);
    let r = gpu_readouts(&g);
    assert!(r.decoder_shown && r.clock_available && !r.clock_max_visible);
    g.encode_decode_shared = true;
    assert!(!gpu_readouts(&g).decoder_shown);
}
