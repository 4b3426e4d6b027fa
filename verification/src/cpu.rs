//! The rules of the CPU view: how the per-core graphs are laid out, which
//! graphs a selection shows, which bottom graph is kept, and how uptime is
//! written.

use vstd::prelude::*;

use vstd::string::*;

use crate::partition::opt_view;
use crate::text::{decimal, decimal2, push_char, push_decimal2, u64_to_decimal};

verus! {

/// The bottom-graph choices (the `performance-page-cpu-graph-bottom` key).
pub const GRAPH_NONE: i32 = 0;
pub const GRAPH_POWER: i32 = 1;
pub const GRAPH_CLOCK: i32 = 2;
pub const GRAPH_TEMPERATURE: i32 = 3;

/// The usage-graph choices (the `performance-page-cpu-graph` key).
pub const GRAPH_SELECTION_OVERALL: i32 = 1;
pub const GRAPH_SELECTION_ALL: i32 = 2;
pub const GRAPH_SELECTION_ALL_THREADS: i32 = 3;
pub const GRAPH_SELECTION_ALL_THREADS_STACKED: i32 = 4;

// ---------------------------------------------------------------------
// Grid of per-core graphs
// ---------------------------------------------------------------------

/// The least `k >= from` with `k * k + k >= n`.
pub open spec fn sqrt_from(n: nat, from: nat) -> nat
    decreases n - from,
{
    if from * from + from >= n || from >= n {
        from
    } else {
        sqrt_from(n, from + 1)
    }
}

/// `sqrt(n)` rounded to the nearest integer, for `n >= 1`: the `k` with
/// `k * k - k < n <= k * k + k`, i.e. `k - 1/2 < sqrt(n) < k + 1/2` (the
/// square root of an integer is never halfway between two integers).
pub open spec fn rounded_sqrt(n: nat) -> nat {
    sqrt_from(n, 0)
}

/// The first `i` in `from..end` that divides `n`.
pub open spec fn first_divisor(n: nat, from: nat, end: nat) -> Option<nat>
    decreases end - from,
{
    if from >= end {
        None
    } else if from > 0 && n % from == 0 {
        Some(from)
    } else {
        first_divisor(n, from + 1, end)
    }
}

/// How many columns `n` per-core graphs are laid out in: `n` itself when
/// `n <= 3`; otherwise, with `s` the rounded square root of `n`, the first
/// divisor of `n` in `s..min(n, 2 * s)`, or `s` when there is none.
pub open spec fn column_count(n: nat) -> nat {
    if n <= 3 {
        n
    } else {
        let s = rounded_sqrt(n);
        let end = if n < 2 * s { n } else { 2 * s };
        match first_divisor(n, s, end) {
            Some(d) => d,
            None => s,
        }
    }
}

proof fn lemma_sqrt_from(n: nat, from: nat)
    requires
        from <= n,
        from == 0 || (from - 1) * (from - 1) + (from - 1) < n,
    ensures
        from <= sqrt_from(n, from) <= n,
        sqrt_from(n, from) * sqrt_from(n, from) + sqrt_from(n, from) >= n,
        sqrt_from(n, from) == 0 || (sqrt_from(n, from) - 1) * (sqrt_from(n, from) - 1)
            + (sqrt_from(n, from) - 1) < n,
    decreases n - from,
{
    if from * from + from >= n || from >= n {
        if from >= n {
            assert(from * from + from >= n) by (nonlinear_arith)
                requires
                    from >= n,
            ;
        }
    } else {
        assert((from + 1 - 1) * (from + 1 - 1) + (from + 1 - 1) < n);
        lemma_sqrt_from(n, from + 1);
    }
}

/// The rounded square root of `n >= 1` is the `k >= 1` with
/// `k * k - k < n <= k * k + k`, and it is at most `n`.
pub proof fn lemma_rounded_sqrt(n: nat)
    requires
        n >= 1,
    ensures
        1 <= rounded_sqrt(n) <= n,
        rounded_sqrt(n) * rounded_sqrt(n) - rounded_sqrt(n) < n,
        n <= rounded_sqrt(n) * rounded_sqrt(n) + rounded_sqrt(n),
{
    lemma_sqrt_from(n, 0);
    let k = rounded_sqrt(n);
    if k == 0 {
        assert(k * k + k == 0) by (nonlinear_arith)
            requires
                k == 0,
        ;
    }
    assert((k - 1) * (k - 1) + (k - 1) == k * k - k) by (nonlinear_arith);
}

proof fn lemma_first_divisor(n: nat, from: nat, end: nat)
    ensures
        first_divisor(n, from, end) matches Some(d) ==> from <= d < end && d > 0 && n % d == 0,
    decreases end - from,
{
    if from < end && !(from > 0 && n % from == 0) {
        lemma_first_divisor(n, from + 1, end);
    }
}

/// `rounded_sqrt(n)`, computed by counting up (O(sqrt n) steps).
fn rounded_sqrt_exec(n: usize) -> (k: usize)
    requires
        n >= 1,
    ensures
        k == rounded_sqrt(n as nat),
{
    proof {
        lemma_rounded_sqrt(n as nat);
    }
    let ghost target = rounded_sqrt(n as nat);
    let wide: u128 = n as u128;
    let mut k: u128 = 0;
    while k * k + k < wide
        invariant
            wide == n,
            sqrt_from(n as nat, k as nat) == target,
            k * k <= wide + k,
            k <= n,
        decreases n - k,
    {
        assert(k < n) by (nonlinear_arith)
            requires
                k * k + k < wide,
                wide == n,
        ;
        assert((k + 1) * (k + 1) <= wide + (k + 1)) by (nonlinear_arith)
            requires
                k * k + k < wide,
        ;
        k = k + 1;
    }
    assert(k as nat * k as nat + k as nat >= n as nat);
    k as usize
}

/// The number of columns for `item_count` per-core graphs (see
/// `column_count`).
pub fn compute_column_count(item_count: usize) -> (c: usize)
    ensures
        c == column_count(item_count as nat),
{
    if item_count <= 3 {
        return item_count;
    }
    let s = rounded_sqrt_exec(item_count);
    proof {
        lemma_rounded_sqrt(item_count as nat);
        if s >= 3 {
            assert(2 * s <= s * s - s) by (nonlinear_arith)
                requires
                    s >= 3,
            ;
        }
    }
    let doubled = s * 2;
    let end = if item_count < doubled { item_count } else { doubled };
    let mut i = s;
    while i < end
        invariant
            s <= i <= end,
            s >= 1,
            item_count > 3,
            s == rounded_sqrt(item_count as nat),
            end == (if item_count < 2 * s { item_count as nat } else { 2 * s as nat }),
            first_divisor(item_count as nat, s as nat, end as nat) == first_divisor(
                item_count as nat,
                i as nat,
                end as nat,
            ),
        decreases end - i,
    {
        if item_count % i == 0 {
            assert(first_divisor(item_count as nat, i as nat, end as nat) == Some(i as nat));
            return i;
        }
        i = i + 1;
    }
    s
}

/// Per-core graphs are laid out sensibly: for at least one graph there is
/// at least one column and no more columns than graphs, and whenever the
/// count is not the rounded square root it divides the number of graphs,
/// so every row is full.
pub proof fn lemma_column_count_bounds(n: nat)
    requires
        n >= 1,
    ensures
        1 <= column_count(n) <= n,
        n > 3 && column_count(n) != rounded_sqrt(n) ==> n % column_count(n) == 0,
{
    if n > 3 {
        lemma_rounded_sqrt(n);
        let s = rounded_sqrt(n);
        let end = if n < 2 * s { n } else { 2 * s };
        lemma_first_divisor(n, s, end);
    }
}

/// Where the graph of core `index` goes: row `index / columns`, column
/// `index % columns`.
pub fn grid_position(index: usize, columns: usize) -> (p: (usize, usize))
    requires
        columns > 0,
    ensures
        p.0 == index / columns,
        p.1 == index % columns,
        p.1 < columns,
{
    (index / columns, index % columns)
}

/// No two cores share a cell of the grid.
pub proof fn lemma_grid_positions_distinct(i: nat, j: nat, columns: nat)
    requires
        columns > 0,
        i != j,
    ensures
        (i / columns, i % columns) != (j / columns, j % columns),
{
    vstd::arithmetic::div_mod::lemma_fundamental_div_mod(i as int, columns as int);
    vstd::arithmetic::div_mod::lemma_fundamental_div_mod(j as int, columns as int);
}

// ---------------------------------------------------------------------
// Which usage graphs a selection shows
// ---------------------------------------------------------------------

/// Whether graph `index` is shown under `selection`. The graphs are, in
/// order: the overall graph, the all-threads graph, then one per core.
pub open spec fn usage_graph_visible(selection: i32, index: int) -> bool {
    if index == 0 {
        selection == GRAPH_SELECTION_OVERALL
    } else if index == 1 {
        selection == GRAPH_SELECTION_ALL_THREADS || selection == GRAPH_SELECTION_ALL_THREADS_STACKED
    } else {
        selection == GRAPH_SELECTION_ALL
    }
}

/// The visibility of each of `count` usage graphs under `selection`.
pub fn usage_graph_visibility(selection: i32, count: usize) -> (v: Vec<bool>)
    ensures
        v@.len() == count,
        forall|i: int| 0 <= i < count ==> #[trigger] v@[i] == usage_graph_visible(selection, i),
{
    let mut v: Vec<bool> = Vec::new();
    let mut i: usize = 0;
    while i < count
        invariant
            i <= count,
            v@.len() == i,
            forall|k: int| 0 <= k < i ==> #[trigger] v@[k] == usage_graph_visible(selection, k),
        decreases count - i,
    {
        let shown = if i == 0 {
            selection == GRAPH_SELECTION_OVERALL
        } else if i == 1 {
            selection == GRAPH_SELECTION_ALL_THREADS || selection == GRAPH_SELECTION_ALL_THREADS_STACKED
        } else {
            selection == GRAPH_SELECTION_ALL
        };
        v.push(shown);
        i = i + 1;
    }
    v
}

/// Only one kind of usage graph is on screen at a time: the overall graph,
/// the all-threads graph and the per-core graphs are never shown together.
pub proof fn lemma_one_kind_of_usage_graph(selection: i32, core: int)
    requires
        core >= 2,
    ensures
        !(usage_graph_visible(selection, 0) && usage_graph_visible(selection, 1)),
        !(usage_graph_visible(selection, 0) && usage_graph_visible(selection, core)),
        !(usage_graph_visible(selection, 1) && usage_graph_visible(selection, core)),
{
}

/// Which entry of the usage-graph menu is checked.
#[derive(Clone, Copy, PartialEq, Eq, Structural, Debug)]
pub struct UsageGraphMenu {
    pub overall: bool,
    pub all_processors: bool,
    pub all_threads: bool,
    pub all_threads_stacked: bool,
}

/// The checked entry of the usage-graph menu for `selection`: the one it
/// names, every other one unchecked.
pub fn usage_graph_menu(selection: i32) -> (m: UsageGraphMenu)
    ensures
        m == (UsageGraphMenu {
            overall: selection == GRAPH_SELECTION_OVERALL,
            all_processors: selection == GRAPH_SELECTION_ALL,
            all_threads: selection == GRAPH_SELECTION_ALL_THREADS,
            all_threads_stacked: selection == GRAPH_SELECTION_ALL_THREADS_STACKED,
        }),
{
    UsageGraphMenu {
        overall: selection == GRAPH_SELECTION_OVERALL,
        all_processors: selection == GRAPH_SELECTION_ALL,
        all_threads: selection == GRAPH_SELECTION_ALL_THREADS,
        all_threads_stacked: selection == GRAPH_SELECTION_ALL_THREADS_STACKED,
    }
}

/// How the all-threads graph draws its per-thread datasets.
#[derive(Clone, Copy, PartialEq, Eq, Structural, Debug)]
pub enum ThreadGraphMode {
    /// Overlaid on a fixed 0-100 scale, each thread faint.
    Overlaid,
    /// Stacked on a 0-(100 x threads) scale, filled to the bottom.
    Stacked,
}

/// How the all-threads graph draws under `selection`: stacked for the
/// stacked choice, overlaid for every other.
pub fn thread_graph_mode(selection: i32) -> (m: ThreadGraphMode)
    ensures
        m == (if selection == GRAPH_SELECTION_ALL_THREADS_STACKED {
            ThreadGraphMode::Stacked
        } else {
            ThreadGraphMode::Overlaid
        }),
{
    if selection == GRAPH_SELECTION_ALL_THREADS_STACKED {
        ThreadGraphMode::Stacked
    } else {
        ThreadGraphMode::Overlaid
    }
}

// ---------------------------------------------------------------------
// Bottom graph
// ---------------------------------------------------------------------

/// The bottom graph kept once the available readings are known, and the
/// values written back to the setting on the way: a power graph without
/// power readings falls back to temperature, and a temperature graph
/// without temperature readings falls back to clock speed.
pub struct BottomGraphChoice {
    pub selection: i32,
    pub saved: Vec<i32>,
}

pub open spec fn after_power_check(selection: i32, has_power: bool) -> i32 {
    if !has_power && selection == GRAPH_POWER { GRAPH_TEMPERATURE } else { selection }
}

pub open spec fn after_temperature_check(selection: i32, has_temperature: bool) -> i32 {
    if !has_temperature && selection == GRAPH_TEMPERATURE { GRAPH_CLOCK } else { selection }
}

/// The bottom graph kept for a saved `selection` (see `BottomGraphChoice`).
pub open spec fn spec_bottom_graph(selection: i32, has_power: bool, has_temperature: bool) -> i32 {
    after_temperature_check(after_power_check(selection, has_power), has_temperature)
}

/// The values saved to the setting, in order, while choosing.
pub open spec fn spec_bottom_graph_saves(selection: i32, has_power: bool, has_temperature: bool) -> Seq<i32> {
    let first = after_power_check(selection, has_power);
    let saves1: Seq<i32> = if first != selection { seq![first] } else { seq![] };
    let second = after_temperature_check(first, has_temperature);
    if second != first { saves1.push(second) } else { saves1 }
}

/// Chooses the bottom graph for the saved `selection`.
pub fn resolve_bottom_graph(selection: i32, has_power: bool, has_temperature: bool) -> (r: BottomGraphChoice)
    ensures
        r.selection == spec_bottom_graph(selection, has_power, has_temperature),
        r.saved@ == spec_bottom_graph_saves(selection, has_power, has_temperature),
{
    let mut current = selection;
    let mut saved: Vec<i32> = Vec::new();
    if !has_power && current == GRAPH_POWER {
        current = GRAPH_TEMPERATURE;
        saved.push(current);
    }
    if !has_temperature && current == GRAPH_TEMPERATURE {
        current = GRAPH_CLOCK;
        saved.push(current);
    }
    assert(saved@ =~= spec_bottom_graph_saves(selection, has_power, has_temperature));
    BottomGraphChoice { selection: current, saved }
}

/// The bottom graph never shows readings the CPU does not report, and a
/// choice whose readings are available is kept without touching the
/// setting.
pub proof fn lemma_bottom_graph_is_available(selection: i32, has_power: bool, has_temperature: bool)
    ensures
        !has_power ==> spec_bottom_graph(selection, has_power, has_temperature) != GRAPH_POWER,
        !has_temperature ==> spec_bottom_graph(selection, has_power, has_temperature) != GRAPH_TEMPERATURE,
        (selection != GRAPH_POWER || has_power) && (selection != GRAPH_TEMPERATURE || has_temperature)
            ==> spec_bottom_graph(selection, has_power, has_temperature) == selection
            && spec_bottom_graph_saves(selection, has_power, has_temperature).len() == 0,
{
}

/// Which entry of the bottom-graph menu is checked.
#[derive(Clone, Copy, PartialEq, Eq, Structural, Debug)]
pub struct BottomGraphMenu {
    pub none: bool,
    pub power: bool,
    pub clock: bool,
    pub temperature: bool,
}

/// The checked menu entry for `selection`: the one it names.
pub fn bottom_graph_menu(selection: i32) -> (m: BottomGraphMenu)
    ensures
        m == (BottomGraphMenu {
            none: selection == GRAPH_NONE,
            power: selection == GRAPH_POWER,
            clock: selection == GRAPH_CLOCK,
            temperature: selection == GRAPH_TEMPERATURE,
        }),
{
    BottomGraphMenu {
        none: selection == GRAPH_NONE,
        power: selection == GRAPH_POWER,
        clock: selection == GRAPH_CLOCK,
        temperature: selection == GRAPH_TEMPERATURE,
    }
}

/// What the bottom graph area shows for a selection.
pub struct BottomGraphView {
    /// Whether the bottom graph area is shown at all.
    pub box_visible: bool,
    /// The visibility of the power, clock and temperature datasets.
    pub power_visible: bool,
    pub clock_visible: bool,
    pub temperature_visible: bool,
    /// The (unlocalised) caption, when the area is shown and the
    /// selection is a known graph.
    pub label: Option<&'static str>,
}

/// The caption for a bottom-graph selection.
pub open spec fn spec_bottom_graph_label(selection: i32) -> Option<Seq<char>> {
    if selection == GRAPH_POWER {
        Some("Power draw over "@)
    } else if selection == GRAPH_CLOCK {
        Some("Clock speed over "@)
    } else if selection == GRAPH_TEMPERATURE {
        Some("Temperature over "@)
    } else {
        None
    }
}

/// What the bottom graph area shows for `selection`.
pub fn bottom_graph_view(selection: i32) -> (v: BottomGraphView)
    ensures
        v.box_visible == (selection != GRAPH_NONE),
        v.power_visible == (selection == GRAPH_POWER),
        v.clock_visible == (selection == GRAPH_CLOCK),
        v.temperature_visible == (selection == GRAPH_TEMPERATURE),
        match v.label {
            Some(t) => spec_bottom_graph_label(selection) == Some(t@),
            None => spec_bottom_graph_label(selection) is None,
        },
{
    let label = if selection == GRAPH_POWER {
        Some("Power draw over ")
    } else if selection == GRAPH_CLOCK {
        Some("Clock speed over ")
    } else if selection == GRAPH_TEMPERATURE {
        Some("Temperature over ")
    } else {
        None
    };
    BottomGraphView {
        box_visible: selection != GRAPH_NONE,
        power_visible: selection == GRAPH_POWER,
        clock_visible: selection == GRAPH_CLOCK,
        temperature_visible: selection == GRAPH_TEMPERATURE,
        label,
    }
}

/// How the maximum of the bottom graph is written.
#[derive(Clone, Copy, PartialEq, Eq, Structural, Debug)]
pub enum TotalFormat {
    /// `"{:.2} BogoMIPS"` of the clock dataset's maximum.
    BogoMips,
    /// Watts, of the power dataset's maximum.
    Watts,
    /// Hertz, of the clock dataset's maximum.
    Hertz,
    /// `"{:.0} °C"` of the temperature dataset's maximum.
    Celsius,
    /// An empty text.
    Empty,
}

/// How the maximum shown beside the bottom graph is written for
/// `selection`; a clock graph fed with BogoMIPS values shows them as such.
pub fn bottom_graph_total_format(selection: i32, is_bogomips: bool) -> (f: TotalFormat)
    ensures
        f == (if selection == GRAPH_CLOCK && is_bogomips {
            TotalFormat::BogoMips
        } else if selection == GRAPH_POWER {
            TotalFormat::Watts
        } else if selection == GRAPH_CLOCK {
            TotalFormat::Hertz
        } else if selection == GRAPH_TEMPERATURE {
            TotalFormat::Celsius
        } else {
            TotalFormat::Empty
        }),
{
    if selection == GRAPH_CLOCK && is_bogomips {
        TotalFormat::BogoMips
    } else if selection == GRAPH_POWER {
        TotalFormat::Watts
    } else if selection == GRAPH_CLOCK {
        TotalFormat::Hertz
    } else if selection == GRAPH_TEMPERATURE {
        TotalFormat::Celsius
    } else {
        TotalFormat::Empty
    }
}

/// Whether the reported frequency driver is `bogomips`, i.e. the
/// frequencies are BogoMIPS values rather than real clock speeds.
pub fn is_bogomips(frequency_driver: &Option<String>) -> (r: bool)
    ensures
        r == (match frequency_driver {
            Some(d) => d@ == "bogomips"@,
            None => false,
        }),
{
    match frequency_driver {
        Some(d) => {
            let expected = String::from_str("bogomips");
            *d == expected
        },
        None => false,
    }
}

/// The CPU's static information, as far as the page's texts and choices go
/// (sizes and frequencies are written in floating point and stay out).
pub struct CpuStaticInfo {
    pub name: Option<String>,
    /// The number of logical processors (entries of per-core usage).
    pub core_count: usize,
    pub frequency_driver: Option<String>,
    pub has_base_frequency: bool,
    pub socket_count: Option<u64>,
    pub virtualization_technology: Option<String>,
    pub is_virtual_machine: Option<bool>,
    pub l1_cache_bytes: Option<u64>,
    pub l2_cache_bytes: Option<u64>,
    pub l3_cache_bytes: Option<u64>,
    pub has_power: bool,
    pub has_temperature: bool,
}

/// The (unlocalised) texts and counts the static information sets.
pub struct CpuStaticTexts {
    /// The CPU's name, or "Unknown".
    pub name: String,
    /// The number of usage graphs: the overall one, the all-threads one,
    /// and one per logical processor.
    pub graph_count: usize,
    /// The number of logical processors, in decimal.
    pub virtual_processors: String,
    /// The socket count in decimal, or "Unknown".
    pub sockets: String,
    /// The virtualization technology, or "Unsupported".
    pub virtualization: String,
    /// "Yes", "No" or "Unknown".
    pub virtual_machine: &'static str,
    /// "Unknown" when there is no base frequency; `None` when the base
    /// speed is written from the frequency.
    pub base_speed: Option<&'static str>,
    /// "N/A" for a cache whose size is unknown; `None` when the size is
    /// written.
    pub l1_cache: Option<&'static str>,
    pub l2_cache: Option<&'static str>,
    pub l3_cache: Option<&'static str>,
}

/// What the static information leads to: the bottom graph kept (with the
/// values written back to the setting) and the texts shown.
pub struct CpuStaticUpdate {
    pub bottom: BottomGraphChoice,
    pub texts: CpuStaticTexts,
}

pub open spec fn or_unknown(o: Option<Seq<char>>) -> Seq<char> {
    match o {
        Some(s) => s,
        None => "Unknown"@,
    }
}

pub open spec fn spec_sockets_text(count: Option<u64>) -> Seq<char> {
    match count {
        Some(n) => decimal(n as nat),
        None => "Unknown"@,
    }
}

pub open spec fn spec_virtualization_text(vt: Option<Seq<char>>) -> Seq<char> {
    match vt {
        Some(s) => s,
        None => "Unsupported"@,
    }
}

pub open spec fn spec_vm_text(is_vm: Option<bool>) -> Seq<char> {
    match is_vm {
        Some(true) => "Yes"@,
        Some(false) => "No"@,
        None => "Unknown"@,
    }
}

pub open spec fn spec_cache_text(size: Option<u64>) -> Option<Seq<char>> {
    match size {
        Some(_) => None,
        None => Some("N/A"@),
    }
}

pub open spec fn static_str_view(o: Option<&'static str>) -> Option<Seq<char>> {
    match o {
        Some(t) => Some(t@),
        None => None,
    }
}

fn text_or(o: &Option<String>, fallback: &str) -> (r: String)
    ensures
        r@ == (match opt_view(*o) {
            Some(s) => s,
            None => fallback@,
        }),
{
    match o {
        Some(s) => s.clone(),
        None => String::from_str(fallback),
    }
}

fn cache_text(size: Option<u64>) -> (r: Option<&'static str>)
    ensures
        static_str_view(r) == spec_cache_text(size),
{
    match size {
        Some(_) => None,
        None => Some("N/A"),
    }
}

/// The texts for `info` (see `CpuStaticTexts`).
pub fn cpu_static_texts(info: &CpuStaticInfo) -> (t: CpuStaticTexts)
    requires
        info.core_count + 2 <= usize::MAX,
    ensures
        t.name@ == or_unknown(opt_view(info.name)),
        t.graph_count == info.core_count + 2,
        t.virtual_processors@ == decimal(info.core_count as nat),
        t.sockets@ == spec_sockets_text(info.socket_count),
        t.virtualization@ == spec_virtualization_text(opt_view(info.virtualization_technology)),
        t.virtual_machine@ == spec_vm_text(info.is_virtual_machine),
        static_str_view(t.base_speed) == (if info.has_base_frequency {
            None::<Seq<char>>
        } else {
            Some("Unknown"@)
        }),
        static_str_view(t.l1_cache) == spec_cache_text(info.l1_cache_bytes),
        static_str_view(t.l2_cache) == spec_cache_text(info.l2_cache_bytes),
        static_str_view(t.l3_cache) == spec_cache_text(info.l3_cache_bytes),
{
    let sockets = match info.socket_count {
        Some(n) => u64_to_decimal(n),
        None => String::from_str("Unknown"),
    };
    let virtual_machine = match info.is_virtual_machine {
        Some(true) => "Yes",
        Some(false) => "No",
        None => "Unknown",
    };
    CpuStaticTexts {
        name: text_or(&info.name, "Unknown"),
        graph_count: info.core_count + 2,
        virtual_processors: u64_to_decimal(info.core_count as u64),
        sockets,
        virtualization: text_or(&info.virtualization_technology, "Unsupported"),
        virtual_machine,
        base_speed: if info.has_base_frequency { None } else { Some("Unknown") },
        l1_cache: cache_text(info.l1_cache_bytes),
        l2_cache: cache_text(info.l2_cache_bytes),
        l3_cache: cache_text(info.l3_cache_bytes),
    }
}

/// The CPU page's own state: whether clock readings are BogoMIPS values,
/// and which bottom graph is shown.
#[derive(Clone, Copy, PartialEq, Eq, Structural, Debug)]
pub struct PerformancePageCpu {
    pub is_bogomips: bool,
    pub bottom_graph_selection: i32,
}

impl PerformancePageCpu {
    /// A page before any reading: real clock speeds, no bottom graph.
    pub fn new() -> (p: PerformancePageCpu)
        ensures
            p == (PerformancePageCpu { is_bogomips: false, bottom_graph_selection: GRAPH_NONE }),
    {
        PerformancePageCpu { is_bogomips: false, bottom_graph_selection: GRAPH_NONE }
    }

    /// The CPU's static information arrived: records whether its clock
    /// readings are BogoMIPS values, chooses the bottom graph from the saved
    /// choice given which readings exist (see `resolve_bottom_graph`), and
    /// gives the texts to show (see `cpu_static_texts`): the name or
    /// "Unknown", one usage graph per logical processor plus two, the
    /// processor count, the sockets or "Unknown", the virtualization or
    /// "Unsupported", Yes/No/Unknown for a virtual machine, and "N/A" for
    /// unknown caches. The returned choice also lists the values to write
    /// back; the page then shows the chosen graph.
    pub fn set_static_information(&mut self, info: &CpuStaticInfo, saved_bottom_graph: i32) -> (r: CpuStaticUpdate)
        requires
            info.core_count + 2 <= usize::MAX,
        ensures
            final(self).is_bogomips == (match info.frequency_driver {
                Some(d) => d@ == "bogomips"@,
                None => false,
            }),
            r.bottom.selection == spec_bottom_graph(saved_bottom_graph, info.has_power, info.has_temperature),
            r.bottom.saved@ == spec_bottom_graph_saves(saved_bottom_graph, info.has_power, info.has_temperature),
            final(self).bottom_graph_selection == r.bottom.selection,
            r.texts.name@ == or_unknown(opt_view(info.name)),
            r.texts.graph_count == info.core_count + 2,
            r.texts.virtual_processors@ == decimal(info.core_count as nat),
            r.texts.sockets@ == spec_sockets_text(info.socket_count),
            r.texts.virtualization@ == spec_virtualization_text(opt_view(info.virtualization_technology)),
            r.texts.virtual_machine@ == spec_vm_text(info.is_virtual_machine),
            static_str_view(r.texts.base_speed) == (if info.has_base_frequency {
                None::<Seq<char>>
            } else {
                Some("Unknown"@)
            }),
            static_str_view(r.texts.l1_cache) == spec_cache_text(info.l1_cache_bytes),
            static_str_view(r.texts.l2_cache) == spec_cache_text(info.l2_cache_bytes),
            static_str_view(r.texts.l3_cache) == spec_cache_text(info.l3_cache_bytes),
    {
        self.is_bogomips = is_bogomips(&info.frequency_driver);
        let bottom = resolve_bottom_graph(saved_bottom_graph, info.has_power, info.has_temperature);
        self.bottom_graph_selection = bottom.selection;
        let texts = cpu_static_texts(info);
        CpuStaticUpdate { bottom, texts }
    }

    /// The saved bottom-graph choice changed: it is shown as it is.
    pub fn bottom_setting_changed(&mut self, setting: i32)
        ensures
            *final(self) == (PerformancePageCpu { bottom_graph_selection: setting, ..*old(self) }),
    {
        self.bottom_graph_selection = setting;
    }
}

/// What toggling the kernel-times display does.
pub struct KernelTimesToggle {
    /// Whether kernel times are shown from now on (also saved to the
    /// `performance-page-kernel-times` setting and the action's state).
    pub shown: bool,
    /// The usage graphs whose kernel series is set to `shown`, in order:
    /// the overall graph and every per-core graph. The all-threads graph
    /// (index 1) has no kernel series and is left alone.
    pub graphs: Vec<usize>,
}

/// The graphs that carry a kernel series among `count` usage graphs: the
/// overall one (0) and the per-core ones (2 and on).
pub open spec fn kernel_graphs(count: nat) -> Seq<usize> {
    if count <= 2 {
        seq![0usize]
    } else {
        seq![0usize] + Seq::new((count - 2) as nat, |k: int| (k + 2) as usize)
    }
}

/// The kernel-times action was activated while its state was `current`:
/// the display flips, on graph 0 and on every per-core graph.
pub fn toggle_kernel_times(current: bool, graph_count: usize) -> (t: KernelTimesToggle)
    requires
        graph_count >= 1,
    ensures
        t.shown == !current,
        t.graphs@ == kernel_graphs(graph_count as nat),
        forall|i: int| 0 <= i < t.graphs@.len() ==> (t.graphs@[i] as int) < graph_count && t.graphs@[i] != 1,
{
    let mut graphs: Vec<usize> = Vec::new();
    graphs.push(0);
    let mut i: usize = 2;
    while i < graph_count
        invariant
            2 <= i,
            i <= graph_count || (i == 2 && graph_count < 2),
            graphs@ == seq![0usize] + Seq::new((i - 2) as nat, |k: int| (k + 2) as usize),
        decreases graph_count - i,
    {
        graphs.push(i);
        assert(graphs@ =~= seq![0usize] + Seq::new((i + 1 - 2) as nat, |k: int| (k + 2) as usize));
        i = i + 1;
    }
    proof {
        if graph_count <= 2 {
            assert(graphs@ =~= seq![0usize]);
        }
    }
    KernelTimesToggle { shown: !current, graphs }
}

// ---------------------------------------------------------------------
// Readings
// ---------------------------------------------------------------------

/// One CPU reading, as far as the page's texts and choices go (usage
/// percentages, frequencies, watts and degrees are drawn as they come).
pub struct CpuReading {
    /// Entries of the per-core usage list.
    pub core_count: usize,
    /// Entries of the per-core kernel-usage list.
    pub core_kernel_count: usize,
    pub has_power_draw: bool,
    pub has_temperature: bool,
    pub total_process_count: u64,
    pub total_thread_count: u64,
    pub total_handle_count: u64,
    pub uptime_secs: u64,
    pub frequency_driver: Option<String>,
    pub frequency_governor: Option<String>,
    pub power_preference: Option<String>,
}

/// What a reading does to an optional row of the details pane.
pub enum RowUpdate {
    /// The row's text is written; whether the row is shown is left as it
    /// is.
    Write(String),
    /// The row and its label are hidden. Nothing shows them again.
    Hide,
}

/// `u` is what a reading with the value `v` does to its row: its text is
/// written when the value is present, and the row is hidden otherwise.
pub open spec fn row_update_for(u: RowUpdate, v: Option<String>) -> bool {
    match (u, v) {
        (RowUpdate::Write(t), Some(s)) => t@ == s@,
        (RowUpdate::Hide, None) => true,
        _ => false,
    }
}

fn row_update(v: &Option<String>) -> (u: RowUpdate)
    ensures
        row_update_for(u, *v),
{
    match v {
        Some(s) => RowUpdate::Write(s.clone()),
        None => RowUpdate::Hide,
    }
}

/// What a reading updates on the page.
pub struct CpuReadouts {
    pub processes: String,
    pub threads: String,
    pub handles: String,
    /// `DD:HH:MM:SS`.
    pub uptime: String,
    /// The power row is hidden (a reading without a power draw); otherwise
    /// the power text is written and the row's visibility is left as it is.
    /// Nothing shows a hidden row again.
    pub hide_power_row: bool,
    /// What happens to the driver, governor and energy-preference rows.
    pub driver: RowUpdate,
    pub governor: RowUpdate,
    pub preference: RowUpdate,
    /// A temperature is drawn and written.
    pub temperature_shown: bool,
    /// The usage graph that core `i`'s usage and kernel usage go to.
    pub core_graphs: Vec<usize>,
}

/// The updates of a reading `r` for a page with `graph_count` usage graphs
/// (the overall one, the all-threads one, then one per core). With no graph
/// at all nothing is updated (`None`). Otherwise the counts and uptime are
/// written, the power row is hidden when there is no power draw (and left
/// alone otherwise), each of the driver, governor and preference rows gets
/// its value written when present and is hidden when not, and core `i` goes
/// to graph `i + 2`. The page must then
/// hold a graph for every core and a kernel figure for every core.
pub fn cpu_readouts(r: &CpuReading, graph_count: usize) -> (o: Option<CpuReadouts>)
    requires
        graph_count == 0 || (graph_count >= r.core_count + 2 && r.core_kernel_count >= r.core_count),
    ensures
        o is None <==> graph_count == 0,
        o matches Some(u) ==> {
            &&& u.processes@ == decimal(r.total_process_count as nat)
            &&& u.threads@ == decimal(r.total_thread_count as nat)
            &&& u.handles@ == decimal(r.total_handle_count as nat)
            &&& u.uptime@ == spec_uptime_text(r.uptime_secs as nat)
            &&& u.hide_power_row == !r.has_power_draw
            &&& row_update_for(u.driver, r.frequency_driver)
            &&& row_update_for(u.governor, r.frequency_governor)
            &&& row_update_for(u.preference, r.power_preference)
            &&& u.temperature_shown == r.has_temperature
            &&& u.core_graphs@.len() == r.core_count
            &&& forall|i: int| 0 <= i < r.core_count ==> #[trigger] u.core_graphs@[i] == i + 2
            &&& forall|i: int| 0 <= i < r.core_count ==> u.core_graphs@[i] < graph_count
        },
{
    if graph_count == 0 {
        return None;
    }
    let mut core_graphs: Vec<usize> = Vec::new();
    let mut i: usize = 0;
    while i < r.core_count
        invariant
            i <= r.core_count,
            r.core_count + 2 <= graph_count,
            core_graphs@.len() == i,
            forall|j: int| 0 <= j < i ==> #[trigger] core_graphs@[j] == j + 2,
        decreases r.core_count - i,
    {
        core_graphs.push(i + 2);
        i = i + 1;
    }
    Some(CpuReadouts {
        processes: u64_to_decimal(r.total_process_count),
        threads: u64_to_decimal(r.total_thread_count),
        handles: u64_to_decimal(r.total_handle_count),
        uptime: format_uptime(r.uptime_secs),
        hide_power_row: !r.has_power_draw,
        driver: row_update(&r.frequency_driver),
        governor: row_update(&r.frequency_governor),
        preference: row_update(&r.power_preference),
        temperature_shown: r.has_temperature,
        core_graphs,
    })
}

// ---------------------------------------------------------------------
// Uptime
// ---------------------------------------------------------------------

/// `secs` as days, hours, minutes and seconds.
pub fn uptime_parts(secs: u64) -> (p: (u64, u64, u64, u64))
    ensures
        p.0 == secs / 86400,
        p.1 == (secs % 86400) / 3600,
        p.2 == (secs % 3600) / 60,
        p.3 == secs % 60,
        p.1 < 24 && p.2 < 60 && p.3 < 60,
        p.0 * 86400 + p.1 * 3600 + p.2 * 60 + p.3 == secs,
{
    let days = secs / 86400;
    let hours = (secs % 86400) / 3600;
    let minutes = (secs % 3600) / 60;
    let seconds = secs % 60;
    assert(days * 86400 + hours * 3600 + minutes * 60 + seconds == secs) by (nonlinear_arith)
        requires
            days == secs / 86400,
            hours == (secs % 86400) / 3600,
            minutes == (secs % 3600) / 60,
            seconds == secs % 60,
    ;
    (days, hours, minutes, seconds)
}

/// Uptime as `DD:HH:MM:SS`, each part at least two digits.
pub open spec fn spec_uptime_text(secs: nat) -> Seq<char> {
    decimal2(secs / 86400) + seq![':'] + decimal2((secs % 86400) / 3600) + seq![':'] + decimal2(
        (secs % 3600) / 60,
    ) + seq![':'] + decimal2(secs % 60)
}

/// Uptime written as `DD:HH:MM:SS` (see `spec_uptime_text`).
pub fn format_uptime(secs: u64) -> (s: String)
    ensures
        s@ == spec_uptime_text(secs as nat),
{
    let (days, hours, minutes, seconds) = uptime_parts(secs);
    let mut s = String::new();
    push_decimal2(&mut s, days);
    push_char(&mut s, ':');
    push_decimal2(&mut s, hours);
    push_char(&mut s, ':');
    push_decimal2(&mut s, minutes);
    push_char(&mut s, ':');
    push_decimal2(&mut s, seconds);
    assert(s@ =~= spec_uptime_text(secs as nat));
    s
}

/// The virtual-machine text answers the question it is under: "Yes"
/// exactly when the CPU reports running in a virtual machine, "No" exactly
/// when it reports not, and "Unknown" exactly when it does not say; the
/// three texts differ.
pub proof fn lemma_vm_text_answers(is_vm: Option<bool>)
    ensures
        spec_vm_text(is_vm) == "Yes"@ <==> is_vm == Some(true),
        spec_vm_text(is_vm) == "No"@ <==> is_vm == Some(false),
        spec_vm_text(is_vm) == "Unknown"@ <==> is_vm is None,
{
    reveal_strlit("Yes");
    reveal_strlit("No");
    reveal_strlit("Unknown");
    assert("Yes"@[0] != "No"@[0]);
    assert("Yes"@[0] != "Unknown"@[0]);
    assert("No"@[0] != "Unknown"@[0]);
}

/// A reported name, socket count or virtualization technology is shown as
/// reported; a missing one shows its fallback.
pub proof fn lemma_static_texts_show_reported_values(info: CpuStaticInfo)
    ensures
        info.name matches Some(n) ==> or_unknown(opt_view(info.name)) == n@,
        info.socket_count matches Some(k) ==> spec_sockets_text(info.socket_count) == decimal(k as nat),
        info.virtualization_technology matches Some(v) ==> spec_virtualization_text(
            opt_view(info.virtualization_technology),
        ) == v@,
        info.name is None ==> or_unknown(opt_view(info.name)) == "Unknown"@,
        info.socket_count is None ==> spec_sockets_text(info.socket_count) == "Unknown"@,
        info.virtualization_technology is None ==> spec_virtualization_text(
            opt_view(info.virtualization_technology),
        ) == "Unsupported"@,
{
}

} // verus!
