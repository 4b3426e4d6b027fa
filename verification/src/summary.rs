//! The plain-text summaries that the CPU and GPU pages copy to the
//! clipboard.

use vstd::prelude::*;
use vstd::string::*;

use crate::text::views;

verus! {

/// `pieces[0] + values[0] + pieces[1] + ... + values[n-1] + pieces[n]`.
pub open spec fn filled(pieces: Seq<Seq<char>>, values: Seq<Seq<char>>) -> Seq<char>
    decreases values.len(),
{
    if values.len() == 0 || pieces.len() == 0 {
        if pieces.len() == 0 { seq![] } else { pieces[0] }
    } else {
        filled(pieces.drop_last(), values.drop_last()) + values.last() + pieces.last()
    }
}

pub open spec fn str_views(v: Seq<&str>) -> Seq<Seq<char>> {
    v.map_values(|s: &str| s@)
}

/// Fills a template: the pieces with the values between them.
pub fn fill_template(pieces: &Vec<&str>, values: &Vec<String>) -> (r: String)
    requires
        pieces.len() == values.len() + 1,
    ensures
        r@ == filled(str_views(pieces@), views(values@)),
{
    let mut r = String::new();
    r.append(pieces[0]);
    assert(r@ =~= filled(str_views(pieces@).take(1), views(values@).take(0)));
    let mut i: usize = 0;
    while i < values.len()
        invariant
            pieces.len() == values.len() + 1,
            i <= values.len(),
            r@ == filled(str_views(pieces@).take(i + 1), views(values@).take(i as int)),
        decreases values.len() - i,
    {
        r.append(values[i].as_str());
        r.append(pieces[i + 1]);
        i = i + 1;
        assert(str_views(pieces@).take(i + 1).drop_last() =~= str_views(pieces@).take(i as int));
        assert(views(values@).take(i as int).drop_last() =~= views(values@).take(i - 1));
    }
    assert(str_views(pieces@).take(values.len() + 1) =~= str_views(pieces@));
    assert(views(values@).take(values.len() as int) =~= views(values@));
    r
}

/// The labels of the CPU page, as shown.
pub struct CpuSummary {
    pub cpu_name: String,
    pub base_speed: String,
    pub sockets: String,
    pub virtual_processors: String,
    pub virtualization: String,
    pub virtual_machine: String,
    pub l1_cache: String,
    pub l2_cache: String,
    pub l3_cache: String,
    pub cpufreq_driver: String,
    pub cpufreq_governor: String,
    pub power_preference: String,
    pub utilization: String,
    pub speed: String,
    pub processes: String,
    pub threads: String,
    pub handles: String,
    pub uptime: String,
    pub temperature: String,
}

/// The fixed text of the CPU summary, around its values.
pub open spec fn cpu_summary_pieces() -> Seq<Seq<char>> {
    seq![
        "CPU\n\n    "@,
        "\n\n    Base speed:         "@,
        "\n    Sockets:            "@,
        "\n    Virtual processors: "@,
        "\n    Virtualization:     "@,
        "\n    Virtual machine:    "@,
        "\n    L1 cache:           "@,
        "\n    L2 cache:           "@,
        "\n    L3 cache:           "@,
        "\n    Cpufreq driver:     "@,
        "\n    Cpufreq governor:   "@,
        "\n    Power preference:   "@,
        "\n\n    Utilization: "@,
        "\n    Speed:       "@,
        "\n    Processes:   "@,
        "\n    Threads:     "@,
        "\n    Handles:     "@,
        "\n    Up time:     "@,
        "\n    Temperature: "@,
        ""@,
    ]
}

/// The values of the CPU summary, in the order they appear.
pub open spec fn cpu_summary_values(s: CpuSummary) -> Seq<Seq<char>> {
    seq![
        s.cpu_name@,
        s.base_speed@,
        s.sockets@,
        s.virtual_processors@,
        s.virtualization@,
        s.virtual_machine@,
        s.l1_cache@,
        s.l2_cache@,
        s.l3_cache@,
        s.cpufreq_driver@,
        s.cpufreq_governor@,
        s.power_preference@,
        s.utilization@,
        s.speed@,
        s.processes@,
        s.threads@,
        s.handles@,
        s.uptime@,
        s.temperature@,
    ]
}

/// The CPU page's summary text.
pub fn cpu_data_summary(s: &CpuSummary) -> (r: String)
    ensures
        r@ == filled(cpu_summary_pieces(), cpu_summary_values(*s)),
{
    let pieces: Vec<&str> = vec![
        "CPU\n\n    ",
        "\n\n    Base speed:         ",
        "\n    Sockets:            ",
        "\n    Virtual processors: ",
        "\n    Virtualization:     ",
        "\n    Virtual machine:    ",
        "\n    L1 cache:           ",
        "\n    L2 cache:           ",
        "\n    L3 cache:           ",
        "\n    Cpufreq driver:     ",
        "\n    Cpufreq governor:   ",
        "\n    Power preference:   ",
        "\n\n    Utilization: ",
        "\n    Speed:       ",
        "\n    Processes:   ",
        "\n    Threads:     ",
        "\n    Handles:     ",
        "\n    Up time:     ",
        "\n    Temperature: ",
        "",
    ];
    let values: Vec<String> = vec![
        s.cpu_name.clone(),
        s.base_speed.clone(),
        s.sockets.clone(),
        s.virtual_processors.clone(),
        s.virtualization.clone(),
        s.virtual_machine.clone(),
        s.l1_cache.clone(),
        s.l2_cache.clone(),
        s.l3_cache.clone(),
        s.cpufreq_driver.clone(),
        s.cpufreq_governor.clone(),
        s.power_preference.clone(),
        s.utilization.clone(),
        s.speed.clone(),
        s.processes.clone(),
        s.threads.clone(),
        s.handles.clone(),
        s.uptime.clone(),
        s.temperature.clone(),
    ];
    assert(str_views(pieces@) =~= cpu_summary_pieces());
    assert(views(values@) =~= cpu_summary_values(*s));
    fill_template(&pieces, &values)
}

/// The labels of a GPU page, as shown.
pub struct GpuSummary {
    pub gpu_id: String,
    pub device_name: String,
    pub opengl_version: String,
    pub vulkan_version: String,
    pub pcie_speed: String,
    pub max_pcie_speed: String,
    pub pci_address: String,
    pub utilization: String,
    pub memory_usage_current: String,
    pub memory_usage_max: String,
    pub shared_memory_current: String,
    pub shared_memory_max: String,
    pub clock_speed_current: String,
    pub clock_speed_max: String,
    pub memory_speed_current: String,
    pub memory_speed_max: String,
    pub power_draw_current: String,
    pub power_draw_max: String,
    pub encode_percent: String,
    pub decode_percent: String,
    pub temperature: String,
}

/// The fixed text of the GPU summary, around its values.
pub open spec fn gpu_summary_pieces() -> Seq<Seq<char>> {
    seq![
        ""@,
        "\n\n    "@,
        "\n\n    OpenGL version:        "@,
        "\n    Vulkan version:        "@,
        "\n    PCI Express speed:     "@,
        "\n    Max PCI Express speed: "@,
        "\n    PCI bus address:       "@,
        "\n\n    Utilization:   "@,
        "\n    Memory usage:  "@,
        " / "@,
        "\n    GTT usage:     "@,
        " / "@,
        "\n    Clock speed:   "@,
        " / "@,
        "\n    Memory speed:  "@,
        " / "@,
        "\n    Power draw:    "@,
        ""@,
        "\n    Encode/Decode: "@,
        " / "@,
        "\n    Temperature:   "@,
        ""@,
    ]
}

/// The values of the GPU summary, in the order they appear.
pub open spec fn gpu_summary_values(s: GpuSummary) -> Seq<Seq<char>> {
    seq![
        s.gpu_id@,
        s.device_name@,
        s.opengl_version@,
        s.vulkan_version@,
        s.pcie_speed@,
        s.max_pcie_speed@,
        s.pci_address@,
        s.utilization@,
        s.memory_usage_current@,
        s.memory_usage_max@,
        s.shared_memory_current@,
        s.shared_memory_max@,
        s.clock_speed_current@,
        s.clock_speed_max@,
        s.memory_speed_current@,
        s.memory_speed_max@,
        s.power_draw_current@,
        s.power_draw_max@,
        s.encode_percent@,
        s.decode_percent@,
        s.temperature@,
    ]
}

/// A GPU page's summary text.
pub fn gpu_data_summary(s: &GpuSummary) -> (r: String)
    ensures
        r@ == filled(gpu_summary_pieces(), gpu_summary_values(*s)),
{
    let pieces: Vec<&str> = vec![
        "",
        "\n\n    ",
        "\n\n    OpenGL version:        ",
        "\n    Vulkan version:        ",
        "\n    PCI Express speed:     ",
        "\n    Max PCI Express speed: ",
        "\n    PCI bus address:       ",
        "\n\n    Utilization:   ",
        "\n    Memory usage:  ",
        " / ",
        "\n    GTT usage:     ",
        " / ",
        "\n    Clock speed:   ",
        " / ",
        "\n    Memory speed:  ",
        " / ",
        "\n    Power draw:    ",
        "",
        "\n    Encode/Decode: ",
        " / ",
        "\n    Temperature:   ",
        "",
    ];
    let values: Vec<String> = vec![
        s.gpu_id.clone(),
        s.device_name.clone(),
        s.opengl_version.clone(),
        s.vulkan_version.clone(),
        s.pcie_speed.clone(),
        s.max_pcie_speed.clone(),
        s.pci_address.clone(),
        s.utilization.clone(),
        s.memory_usage_current.clone(),
        s.memory_usage_max.clone(),
        s.shared_memory_current.clone(),
        s.shared_memory_max.clone(),
        s.clock_speed_current.clone(),
        s.clock_speed_max.clone(),
        s.memory_speed_current.clone(),
        s.memory_speed_max.clone(),
        s.power_draw_current.clone(),
        s.power_draw_max.clone(),
        s.encode_percent.clone(),
        s.decode_percent.clone(),
        s.temperature.clone(),
    ];
    assert(str_views(pieces@) =~= gpu_summary_pieces());
    assert(views(values@) =~= gpu_summary_values(*s));
    fill_template(&pieces, &values)
}

} // verus!
