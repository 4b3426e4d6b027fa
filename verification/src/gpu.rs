//! The rules of the GPU view: which graphs a GPU supports and which of
//! them the middle and bottom graph areas show, what those areas and their
//! menus look like, and how versions, PCIe links and memory titles are
//! written.

use vstd::prelude::*;
use vstd::string::*;

use arrayvec::ArrayString;
use bitfield::{Bit, BitMut};

use crate::text::{decimal, digit_char, push_decimal, u64_to_decimal};

verus! {

#[verifier::external_type_specification]
#[verifier::external_body]
pub struct ExArrayString<const CAP: usize>(ArrayString<CAP>);

/// The characters an `ArrayString<64>` holds.
pub uninterp spec fn array_string_view(s: ArrayString<64>) -> Seq<char>;

/// `bitfield::Bit::bit` on a `u8`: bit `index` of `value`. The crate's
/// implementation shifts by `7 - index`, which underflows for an index past
/// the last bit, so the index is kept below 8.
#[verifier::external_body]
fn u8_bit(value: u8, index: usize) -> (r: bool)
    requires
        index < 8,
    ensures
        r == ((value >> index) & 1u8 == 1u8),
{
    value.bit(index)
}

/// `bitfield::BitMut::set_bit` on a `u8`: `value` with bit `index` set to
/// `on`, every other bit kept.
#[verifier::external_body]
fn u8_set_bit(value: u8, index: usize, on: bool) -> (r: u8)
    requires
        index < 8,
    ensures
        r == (if on { value | (1u8 << index) } else { value & !(1u8 << index) }),
{
    let mut v = value;
    v.set_bit(index, on);
    v
}

/// `ArrayString::<64>::new`: an empty string.
#[verifier::external_body]
fn array_string_new() -> (s: ArrayString<64>)
    ensures
        array_string_view(s) == Seq::<char>::empty(),
{
    ArrayString::<64>::new()
}

/// `ArrayString::<64>::push_str`: appends `t`. The string holds the UTF-8
/// bytes of its characters, and the crate panics when they would exceed the
/// capacity, so the bytes after the push are kept within 64.
#[verifier::external_body]
fn array_string_push_str(s: &mut ArrayString<64>, t: &str)
    requires
        byte_len(array_string_view(*old(s)) + t@) <= 64,
    ensures
        array_string_view(*final(s)) == array_string_view(*old(s)) + t@,
{
    s.push_str(t);
}

/// `ArrayString::is_empty`: whether the string holds no bytes, i.e. no
/// characters.
#[verifier::external_body]
fn array_string_is_empty(s: &ArrayString<64>) -> (r: bool)
    ensures
        r == (array_string_view(*s).len() == 0),
{
    s.is_empty()
}

/// `ArrayString::as_str`, copied into a `String`.
#[verifier::external_body]
fn array_string_to_string(s: &ArrayString<64>) -> (r: String)
    ensures
        r@ == array_string_view(*s),
{
    String::from(s.as_str())
}

/// The number of bytes of the UTF-8 encoding of `s`.
pub open spec fn byte_len(s: Seq<char>) -> nat {
    vstd::utf8::encode_utf8(s).len()
}

// ---------------------------------------------------------------------
// The GPU readings the view decides on
// ---------------------------------------------------------------------

/// A graphics API version.
#[derive(Clone, Copy, PartialEq, Eq, Structural, Debug)]
pub struct ApiVersion {
    pub major: u32,
    pub minor: u32,
    pub patch: Option<u32>,
}

/// Which OpenGL flavour a GPU reports.
#[derive(Clone, Copy, PartialEq, Eq, Structural, Debug)]
pub enum OpenGlVariant {
    OpenGl,
    OpenGles,
}

/// What a GPU reading holds, as far as the view's decisions go: which
/// optional values are present, and the integer values that are shown or
/// compared. (Percentages, watts and degrees are drawn as they come.)
pub struct GpuInfo {
    /// The PCI address.
    pub id: String,
    pub device_name: Option<String>,
    pub has_encoder_percent: bool,
    pub has_decoder_percent: bool,
    pub encode_decode_shared: bool,
    pub total_memory: Option<u64>,
    pub used_memory: Option<u64>,
    pub total_shared_memory: Option<u64>,
    pub used_shared_memory: Option<u64>,
    pub has_power_draw: bool,
    pub has_max_power_draw: bool,
    pub clock_speed_mhz: Option<u32>,
    pub max_clock_speed_mhz: Option<u32>,
    pub memory_speed_mhz: Option<u32>,
    pub max_memory_speed_mhz: Option<u32>,
    pub has_temperature: bool,
    pub opengl_variant: Option<OpenGlVariant>,
    pub opengl_version: Option<ApiVersion>,
    pub vulkan_version: Option<ApiVersion>,
    pub pcie_gen: Option<u32>,
    pub pcie_lanes: Option<u32>,
    pub max_pcie_gen: Option<u32>,
    pub max_pcie_lanes: Option<u32>,
}

// ---------------------------------------------------------------------
// Graph kinds and support
// ---------------------------------------------------------------------

/// The graph kinds of the middle and bottom areas (the
/// `performance-page-gpu-graph-{middle,bottom}` keys).
pub const GRAPH_NONE: i32 = 0;
pub const GRAPH_ENCODE_DECODE: i32 = 1;
pub const GRAPH_MEMORY: i32 = 2;
pub const GRAPH_POWER: i32 = 3;
pub const GRAPH_CLOCKS: i32 = 4;
pub const GRAPH_TEMPERATURE: i32 = 5;

/// Which graph kinds a GPU's readings can feed.
#[derive(Clone, Copy, PartialEq, Eq, Structural, Debug)]
pub struct GraphCapabilities {
    pub encode_decode: bool,
    pub memory: bool,
    pub power: bool,
    pub clocks: bool,
    pub temperature: bool,
}

pub open spec fn spec_capabilities(gpu: GpuInfo) -> GraphCapabilities {
    GraphCapabilities {
        encode_decode: gpu.has_encoder_percent || gpu.has_decoder_percent,
        memory: gpu.total_memory is Some || gpu.used_memory is Some || gpu.total_shared_memory is Some
            || gpu.used_shared_memory is Some,
        power: gpu.has_power_draw,
        clocks: gpu.clock_speed_mhz is Some || gpu.memory_speed_mhz is Some,
        temperature: gpu.has_temperature,
    }
}

/// The graph kinds `gpu` can feed: encode/decode with either percentage,
/// memory with any memory figure, power with a power draw, clocks with
/// either clock, temperature with a temperature.
pub fn graph_capabilities(gpu: &GpuInfo) -> (c: GraphCapabilities)
    ensures
        c == spec_capabilities(*gpu),
{
    GraphCapabilities {
        encode_decode: gpu.has_encoder_percent || gpu.has_decoder_percent,
        memory: gpu.total_memory.is_some() || gpu.used_memory.is_some()
            || gpu.total_shared_memory.is_some() || gpu.used_shared_memory.is_some(),
        power: gpu.has_power_draw,
        clocks: gpu.clock_speed_mhz.is_some() || gpu.memory_speed_mhz.is_some(),
        temperature: gpu.has_temperature,
    }
}

/// Whether bit `graph` of a support mask is set.
pub open spec fn supports(support: u8, graph: int) -> bool {
    0 <= graph < 8 && (support >> (graph as u8)) & 1u8 == 1u8
}

/// Whether graph kind `graph` is among `caps` (kind 0, no graph, always is).
pub open spec fn capability(caps: GraphCapabilities, graph: int) -> bool {
    if graph == 0 {
        true
    } else if graph == 1 {
        caps.encode_decode
    } else if graph == 2 {
        caps.memory
    } else if graph == 3 {
        caps.power
    } else if graph == 4 {
        caps.clocks
    } else if graph == 5 {
        caps.temperature
    } else {
        false
    }
}

/// The support mask of `caps`: bit `k` is set exactly when graph kind `k`
/// is supported.
pub fn graph_support(caps: GraphCapabilities) -> (support: u8)
    ensures
        forall|k: int| 0 <= k < 8 ==> supports(support, k) == capability(caps, k),
{
    let flags: [bool; 6] = [true, caps.encode_decode, caps.memory, caps.power, caps.clocks, caps.temperature];
    let mut support: u8 = 0;
    let mut i: usize = 0;
    assert forall|k: int| 0 <= k < 8 implies !supports(0u8, k) by {
        let kk = k as u8;
        assert((0u8 >> kk) & 1u8 == 0u8) by (bit_vector);
    }
    while i < 6
        invariant
            i <= 6,
            flags@ == seq![true, caps.encode_decode, caps.memory, caps.power, caps.clocks, caps.temperature],
            forall|k: int| 0 <= k < i ==> supports(support, k) == capability(caps, k),
            forall|k: int| i <= k < 8 ==> !supports(support, k),
        decreases 6 - i,
    {
        let old_support = support;
        support = u8_set_bit(support, i, flags[i]);
        let on = flags[i];
        proof {
            assert(capability(caps, i as int) == on);
            assert forall|k: int| 0 <= k < 8 implies supports(support, k) == (if k == i {
                on
            } else {
                supports(old_support, k)
            }) by {
                let kk = k as u8;
                let ii = i as u8;
                assert(kk < 8 && ii < 8);
                if on {
                    assert(((old_support | (1u8 << ii)) >> kk) & 1u8 == (if kk == ii { 1u8 } else { (old_support >> kk) & 1u8 })) by (bit_vector)
                        requires
                            kk < 8,
                            ii < 8,
                    ;
                } else {
                    assert(((old_support & !(1u8 << ii)) >> kk) & 1u8 == (if kk == ii { 0u8 } else { (old_support >> kk) & 1u8 })) by (bit_vector)
                        requires
                            kk < 8,
                            ii < 8,
                    ;
                }
            }
        }
        i = i + 1;
    }
    support
}

/// The graph shown for a saved choice: the choice itself when supported,
/// no graph otherwise.
pub open spec fn spec_supported_graph(support: u8, selection: i32) -> i32 {
    if supports(support, selection as int) {
        selection
    } else {
        GRAPH_NONE
    }
}

/// The graph shown for the saved `selection` under `support`. The crate's
/// bit test is only defined for bits 0 to 7.
pub fn supported_graph(support: u8, selection: i32) -> (g: i32)
    requires
        0 <= selection < 8,
    ensures
        g == spec_supported_graph(support, selection),
{
    if u8_bit(support, selection as usize) {
        selection
    } else {
        GRAPH_NONE
    }
}

/// A GPU's graphs only ever show what its readings feed: the graph kept
/// for any saved choice is a supported one.
pub proof fn lemma_supported_graph_is_supported(caps: GraphCapabilities, support: u8, selection: i32)
    requires
        forall|k: int| 0 <= k < 8 ==> supports(support, k) == capability(caps, k),
        0 <= selection < 8,
    ensures
        capability(caps, spec_supported_graph(support, selection) as int),
        capability(caps, selection as int) ==> spec_supported_graph(support, selection) == selection,
{
}

// ---------------------------------------------------------------------
// The page's graph state
// ---------------------------------------------------------------------

/// The GPU page's graph choices, as plain values.
#[derive(Clone, Copy, PartialEq, Eq, Structural, Debug)]
pub struct GpuGraphState {
    /// Bit `k` set when graph kind `k` is supported (see `supports`).
    pub support: u8,
    pub middle: i32,
    pub bottom: i32,
    /// Encoder and decoder share one engine (a single, filled dataset).
    pub encode_decode_shared: bool,
    /// The GPU reports shared (GTT) memory, drawn beside dedicated memory.
    pub gtt_available: bool,
}

/// Whether the page's graph support has been recorded: "no graph" (kind 0)
/// is supported by every GPU, so its bit is set from then on.
pub open spec fn configured(s: GpuGraphState) -> bool {
    supports(s.support, GRAPH_NONE as int)
}

/// Both areas show a graph kind the GPU supports.
pub open spec fn graphs_supported(s: GpuGraphState) -> bool {
    supports(s.support, s.middle as int) && supports(s.support, s.bottom as int)
}

/// The checked state of one area's six menu actions, by graph kind: only
/// the shown kind is checked.
pub open spec fn checked_for(shown: i32) -> Seq<bool> {
    Seq::new(6, |k: int| shown == k)
}

/// One change of a saved graph choice: `(true, g)` for the middle area,
/// `(false, g)` for the bottom one.
pub open spec fn after_change(s: GpuGraphState, change: (bool, i32)) -> GpuGraphState {
    if change.0 {
        GpuGraphState { middle: spec_supported_graph(s.support, change.1), ..s }
    } else {
        GpuGraphState { bottom: spec_supported_graph(s.support, change.1), ..s }
    }
}

/// The graph state after a run of setting changes, applied in order.
pub open spec fn after_changes(s: GpuGraphState, changes: Seq<(bool, i32)>) -> GpuGraphState
    decreases changes.len(),
{
    if changes.len() == 0 {
        s
    } else {
        after_change(after_changes(s, changes.drop_last()), changes.last())
    }
}

/// One GPU page: its name, whether it is shown in summary mode, its graph
/// state and the checked state of its twelve graph actions (six per area).
pub struct PerformancePageGpu {
    state: GpuGraphState,
    name: String,
    summary_mode: bool,
    encode_decode_available: bool,
    middle_checked: Vec<bool>,
    bottom_checked: Vec<bool>,
}

impl View for PerformancePageGpu {
    type V = GpuGraphState;

    closed spec fn view(&self) -> GpuGraphState {
        self.state
    }
}

fn checked_actions(shown: i32) -> (v: Vec<bool>)
    ensures
        v@ == checked_for(shown),
{
    let mut v: Vec<bool> = Vec::new();
    let mut k: i32 = 0;
    while k < 6
        invariant
            0 <= k <= 6,
            v@ == checked_for(shown).take(k as int),
        decreases 6 - k,
    {
        v.push(shown == k);
        k = k + 1;
        assert(v@ =~= checked_for(shown).take(k as int));
    }
    assert(checked_for(shown).take(6) =~= checked_for(shown));
    v
}

fn all_checked() -> (v: Vec<bool>)
    ensures
        v@ == Seq::new(6, |k: int| true),
{
    let v = vec![true, true, true, true, true, true];
    assert(v@ =~= Seq::new(6, |k: int| true));
    v
}

impl PerformancePageGpu {
    #[verifier::type_invariant]
    spec fn inv(self) -> bool {
        configured(self.state) ==> graphs_supported(self.state)
    }

    /// The page's name (the GPU it belongs to).
    pub closed spec fn spec_name(&self) -> Seq<char> {
        self.name@
    }

    /// Whether the page is shown in summary mode.
    pub closed spec fn spec_summary_mode(&self) -> bool {
        self.summary_mode
    }

    /// Whether encode/decode readings are available.
    pub closed spec fn spec_encode_decode_available(&self) -> bool {
        self.encode_decode_available
    }

    /// The checked state of the middle area's actions, by graph kind.
    pub closed spec fn spec_middle_checked(&self) -> Seq<bool> {
        self.middle_checked@
    }

    /// The checked state of the bottom area's actions, by graph kind.
    pub closed spec fn spec_bottom_checked(&self) -> Seq<bool> {
        self.bottom_checked@
    }

    /// A page named `name`, with no graph support known yet, both areas
    /// empty, summary mode off, encode/decode taken as available, and all
    /// twelve graph actions (six per area) starting checked.
    pub fn new(name: &str) -> (p: PerformancePageGpu)
        ensures
            p@ == (GpuGraphState {
                support: 0,
                middle: GRAPH_NONE,
                bottom: GRAPH_NONE,
                encode_decode_shared: false,
                gtt_available: false,
            }),
            p.spec_name() == name@,
            !p.spec_summary_mode(),
            p.spec_encode_decode_available(),
            p.spec_middle_checked() == Seq::new(6, |k: int| true),
            p.spec_bottom_checked() == Seq::new(6, |k: int| true),
    {
        let state = GpuGraphState {
            support: 0,
            middle: GRAPH_NONE,
            bottom: GRAPH_NONE,
            encode_decode_shared: false,
            gtt_available: false,
        };
        assert(!supports(0u8, 0)) by {
            assert((0u8 >> 0u8) & 1u8 == 0u8) by (bit_vector);
        }
        PerformancePageGpu {
            state,
            name: String::from_str(name),
            summary_mode: false,
            encode_decode_available: true,
            middle_checked: all_checked(),
            bottom_checked: all_checked(),
        }
    }

    /// The current graph choices.
    pub fn state(&self) -> (s: GpuGraphState)
        ensures
            s == self@,
            configured(s) ==> graphs_supported(s),
    {
        proof {
            use_type_invariant(self);
        }
        self.state
    }

    /// The page's name.
    pub fn name(&self) -> (n: &str)
        ensures
            n@ == self.spec_name(),
    {
        self.name.as_str()
    }

    /// Renames the page.
    pub fn set_name(&mut self, name: &str)
        ensures
            final(self).spec_name() == name@,
            final(self)@ == old(self)@,
            final(self).spec_summary_mode() == old(self).spec_summary_mode(),
            final(self).spec_encode_decode_available() == old(self).spec_encode_decode_available(),
            final(self).spec_middle_checked() == old(self).spec_middle_checked(),
            final(self).spec_bottom_checked() == old(self).spec_bottom_checked(),
    {
        proof {
            use_type_invariant(&*self);
        }
        self.name = String::from_str(name);
    }

    /// Whether the page is shown in summary mode.
    pub fn summary_mode(&self) -> (b: bool)
        ensures
            b == self.spec_summary_mode(),
    {
        self.summary_mode
    }

    /// Turns summary mode on or off.
    pub fn set_summary_mode(&mut self, on: bool)
        ensures
            final(self).spec_summary_mode() == on,
            final(self)@ == old(self)@,
            final(self).spec_name() == old(self).spec_name(),
            final(self).spec_encode_decode_available() == old(self).spec_encode_decode_available(),
            final(self).spec_middle_checked() == old(self).spec_middle_checked(),
            final(self).spec_bottom_checked() == old(self).spec_bottom_checked(),
    {
        proof {
            use_type_invariant(&*self);
        }
        self.summary_mode = on;
    }

    /// Whether encode/decode readings are available.
    pub fn encode_decode_available(&self) -> (b: bool)
        ensures
            b == self.spec_encode_decode_available(),
    {
        self.encode_decode_available
    }

    /// The checked state of the middle area's actions, by graph kind.
    pub fn middle_checked(&self) -> (v: Vec<bool>)
        ensures
            v@ == self.spec_middle_checked(),
    {
        self.middle_checked.clone()
    }

    /// The checked state of the bottom area's actions, by graph kind.
    pub fn bottom_checked(&self) -> (v: Vec<bool>)
        ensures
            v@ == self.spec_bottom_checked(),
    {
        self.bottom_checked.clone()
    }

    /// The GPU's static information arrived: its graph support is recorded
    /// and the saved choices for the middle and bottom areas are kept when
    /// supported, replaced by no graph otherwise; each area's actions then
    /// check only the kind it shows. Shared encode/decode is recorded when
    /// the GPU has encode/decode figures, and shared memory when it has
    /// memory figures.
    pub fn configure_graphs(&mut self, gpu: &GpuInfo, middle_setting: i32, bottom_setting: i32)
        requires
            0 <= middle_setting < 8,
            0 <= bottom_setting < 8,
        ensures
            forall|k: int| 0 <= k < 8 ==> supports(final(self)@.support, k) == capability(spec_capabilities(*gpu), k),
            final(self)@.middle == spec_supported_graph(final(self)@.support, middle_setting),
            final(self)@.bottom == spec_supported_graph(final(self)@.support, bottom_setting),
            final(self)@.encode_decode_shared == (old(self)@.encode_decode_shared || (
                spec_capabilities(*gpu).encode_decode && gpu.encode_decode_shared)),
            final(self)@.gtt_available == (if spec_capabilities(*gpu).memory {
                gpu.total_shared_memory is Some
            } else {
                old(self)@.gtt_available
            }),
            configured(final(self)@),
            graphs_supported(final(self)@),
            final(self).spec_middle_checked() == checked_for(final(self)@.middle),
            final(self).spec_bottom_checked() == checked_for(final(self)@.bottom),
            final(self).spec_name() == old(self).spec_name(),
            final(self).spec_summary_mode() == old(self).spec_summary_mode(),
            final(self).spec_encode_decode_available() == old(self).spec_encode_decode_available(),
    {
        let caps = graph_capabilities(gpu);
        let support = graph_support(caps);
        let middle = supported_graph(support, middle_setting);
        let bottom = supported_graph(support, bottom_setting);
        assert(capability(caps, 0));
        let encode_decode_shared = self.state.encode_decode_shared || (caps.encode_decode
            && gpu.encode_decode_shared);
        let gtt_available = if caps.memory {
            gpu.total_shared_memory.is_some()
        } else {
            self.state.gtt_available
        };
        self.state = GpuGraphState { support, middle, bottom, encode_decode_shared, gtt_available };
        self.middle_checked = checked_actions(middle);
        self.bottom_checked = checked_actions(bottom);
    }

    /// The saved middle-area choice changed to `setting`; returns the graph
    /// now shown there, and the middle actions check only that kind.
    pub fn middle_setting_changed(&mut self, setting: i32) -> (g: i32)
        requires
            0 <= setting < 8,
        ensures
            g == spec_supported_graph(old(self)@.support, setting),
            final(self)@ == (GpuGraphState { middle: g, ..old(self)@ }),
            final(self)@ == after_change(old(self)@, (true, setting)),
            configured(old(self)@) ==> graphs_supported(final(self)@),
            final(self).spec_middle_checked() == checked_for(g),
            final(self).spec_bottom_checked() == old(self).spec_bottom_checked(),
            final(self).spec_name() == old(self).spec_name(),
            final(self).spec_summary_mode() == old(self).spec_summary_mode(),
            final(self).spec_encode_decode_available() == old(self).spec_encode_decode_available(),
    {
        proof {
            use_type_invariant(&*self);
        }
        let g = supported_graph(self.state.support, setting);
        self.state = GpuGraphState { middle: g, ..self.state };
        self.middle_checked = checked_actions(g);
        g
    }

    /// The saved bottom-area choice changed to `setting`; returns the graph
    /// now shown there, and the bottom actions check only that kind.
    pub fn bottom_setting_changed(&mut self, setting: i32) -> (g: i32)
        requires
            0 <= setting < 8,
        ensures
            g == spec_supported_graph(old(self)@.support, setting),
            final(self)@ == (GpuGraphState { bottom: g, ..old(self)@ }),
            final(self)@ == after_change(old(self)@, (false, setting)),
            configured(old(self)@) ==> graphs_supported(final(self)@),
            final(self).spec_bottom_checked() == checked_for(g),
            final(self).spec_middle_checked() == old(self).spec_middle_checked(),
            final(self).spec_name() == old(self).spec_name(),
            final(self).spec_summary_mode() == old(self).spec_summary_mode(),
            final(self).spec_encode_decode_available() == old(self).spec_encode_decode_available(),
    {
        proof {
            use_type_invariant(&*self);
        }
        let g = supported_graph(self.state.support, setting);
        self.state = GpuGraphState { bottom: g, ..self.state };
        self.bottom_checked = checked_actions(g);
        g
    }
}

impl Default for PerformancePageGpu {
    /// The page as first built: an empty name, and otherwise as `new`.
    fn default() -> (p: PerformancePageGpu)
        ensures
            p@ == (GpuGraphState {
                support: 0,
                middle: GRAPH_NONE,
                bottom: GRAPH_NONE,
                encode_decode_shared: false,
                gtt_available: false,
            }),
            p.spec_name() == Seq::<char>::empty(),
            !p.spec_summary_mode(),
            p.spec_encode_decode_available(),
            p.spec_middle_checked() == Seq::new(6, |k: int| true),
            p.spec_bottom_checked() == Seq::new(6, |k: int| true),
    {
        let p = PerformancePageGpu::new("");
        proof {
            reveal_strlit("");
        }
        p
    }
}

/// Once a GPU's graph support is recorded, both areas show a supported
/// graph kind, and they keep doing so through any number of later changes
/// of either saved choice: an unsupported choice is replaced by "no graph"
/// and never shown.
pub proof fn lemma_choices_stay_supported(s: GpuGraphState, changes: Seq<(bool, i32)>)
    requires
        configured(s),
        graphs_supported(s),
    ensures
        configured(after_changes(s, changes)),
        graphs_supported(after_changes(s, changes)),
        after_changes(s, changes).support == s.support,
    decreases changes.len(),
{
    if changes.len() > 0 {
        lemma_choices_stay_supported(s, changes.drop_last());
    }
}

// ---------------------------------------------------------------------
// Graph menus
// ---------------------------------------------------------------------

/// The state of the two graph menus, indexed by graph kind (0 to 5).
pub struct GraphMenus {
    pub middle_checked: Vec<bool>,
    pub bottom_checked: Vec<bool>,
    pub middle_enabled: Vec<bool>,
    pub bottom_enabled: Vec<bool>,
}

/// Whether an area's menu offers graph kind `k` while the other area shows
/// `other`: "no graph" always, any other kind unless the other area shows it.
pub open spec fn menu_offers(other: i32, k: int) -> bool {
    k == 0 || other != k
}

/// The menus once both areas' choices are applied: each menu checks its
/// own area's choice, and offers every kind except the one the other area
/// shows ("no graph" is always offered).
pub fn graph_menus(middle: i32, bottom: i32) -> (m: GraphMenus)
    ensures
        m.middle_checked@.len() == 6 && m.bottom_checked@.len() == 6,
        m.middle_enabled@.len() == 6 && m.bottom_enabled@.len() == 6,
        forall|k: int| 0 <= k < 6 ==> #[trigger] m.middle_checked@[k] == (middle == k),
        forall|k: int| 0 <= k < 6 ==> #[trigger] m.bottom_checked@[k] == (bottom == k),
        forall|k: int| 0 <= k < 6 ==> #[trigger] m.middle_enabled@[k] == menu_offers(bottom, k),
        forall|k: int| 0 <= k < 6 ==> #[trigger] m.bottom_enabled@[k] == menu_offers(middle, k),
{
    let mut middle_checked: Vec<bool> = Vec::new();
    let mut bottom_checked: Vec<bool> = Vec::new();
    let mut middle_enabled: Vec<bool> = Vec::new();
    let mut bottom_enabled: Vec<bool> = Vec::new();
    let mut k: i32 = 0;
    while k < 6
        invariant
            0 <= k <= 6,
            middle_checked@.len() == k && bottom_checked@.len() == k,
            middle_enabled@.len() == k && bottom_enabled@.len() == k,
            forall|j: int| 0 <= j < k ==> #[trigger] middle_checked@[j] == (middle == j),
            forall|j: int| 0 <= j < k ==> #[trigger] bottom_checked@[j] == (bottom == j),
            forall|j: int| 0 <= j < k ==> #[trigger] middle_enabled@[j] == (j == 0 || bottom != j),
            forall|j: int| 0 <= j < k ==> #[trigger] bottom_enabled@[j] == (j == 0 || middle != j),
        decreases 6 - k,
    {
        middle_checked.push(middle == k);
        bottom_checked.push(bottom == k);
        middle_enabled.push(k == 0 || bottom != k);
        bottom_enabled.push(k == 0 || middle != k);
        k = k + 1;
    }
    GraphMenus { middle_checked, bottom_checked, middle_enabled, bottom_enabled }
}

// ---------------------------------------------------------------------
// What a graph area shows
// ---------------------------------------------------------------------

/// The datasets of a graph area, in order.
pub const GRAPH_ENCODE_DATASET: usize = 0;
pub const GRAPH_DECODE_DATASET: usize = 1;
pub const GRAPH_VRAM_DATASET: usize = 2;
pub const GRAPH_GTT_DATASET: usize = 3;
pub const GRAPH_POWER_DATASET: usize = 4;
pub const GRAPH_CLOCK_GPU_DATASET: usize = 5;
pub const GRAPH_CLOCK_MEM_DATASET: usize = 6;
pub const GRAPH_TEMPERATURE_DATASET: usize = 7;

/// Whether dataset `d` is drawn when an area shows graph kind `num`.
pub open spec fn dataset_visible(num: i32, gtt_available: bool, d: int) -> bool {
    if d == 0 || d == 1 {
        num == GRAPH_ENCODE_DECODE
    } else if d == 2 {
        num == GRAPH_MEMORY
    } else if d == 3 {
        gtt_available && num == GRAPH_MEMORY
    } else if d == 4 {
        num == GRAPH_POWER
    } else if d == 5 || d == 6 {
        num == GRAPH_CLOCKS
    } else {
        num == GRAPH_TEMPERATURE
    }
}

/// The (unlocalised) caption of an area showing graph kind `num`.
pub open spec fn spec_area_label(num: i32, gtt_available: bool) -> Option<Seq<char>> {
    if num == GRAPH_ENCODE_DECODE {
        Some("Video encode/decode utilization over "@)
    } else if num == GRAPH_MEMORY {
        if gtt_available {
            Some("Dedicated and shared memory usage over "@)
        } else {
            Some("Memory usage over "@)
        }
    } else if num == GRAPH_POWER {
        Some("Power draw over "@)
    } else if num == GRAPH_CLOCKS {
        Some("Clock speed over "@)
    } else if num == GRAPH_TEMPERATURE {
        Some("Temperature over "@)
    } else {
        None
    }
}

/// What one graph area (middle or bottom) shows, and the page-wide
/// settings that depend on both areas' choices.
pub struct GpuGraphView {
    /// Whether this area is shown at all.
    pub box_visible: bool,
    /// Whether the main graph and the areas share the height equally (when
    /// at least one area is shown), and the spacing between them.
    pub homogeneous: bool,
    pub spacing: i32,
    /// Which legend entries of the details pane are shown.
    pub legend_encode_decode: bool,
    pub legend_memory: bool,
    pub legend_clock: bool,
    /// The visibility of the eight datasets, when the area is shown.
    pub datasets: Option<Vec<bool>>,
    /// The caption, when the area shows a known graph kind.
    pub label: Option<&'static str>,
    /// Whether the maximum beside the graph reads a fixed "100%".
    pub total_is_percent: bool,
}

/// What an area set to graph kind `num` shows, given both areas' choices,
/// whether encode/decode is shared, whether shared memory is reported, and
/// whether both clock readouts are visible.
pub fn graph_view(
    num: i32,
    middle: i32,
    bottom: i32,
    encode_decode_shared: bool,
    gtt_available: bool,
    both_clocks_visible: bool,
) -> (v: GpuGraphView)
    ensures
        v.box_visible == (num != GRAPH_NONE),
        v.homogeneous == !(middle == GRAPH_NONE && bottom == GRAPH_NONE),
        v.spacing == (if middle == GRAPH_NONE && bottom == GRAPH_NONE { 0i32 } else { 10i32 }),
        v.legend_encode_decode == ((middle == GRAPH_ENCODE_DECODE || bottom == GRAPH_ENCODE_DECODE)
            && !encode_decode_shared),
        v.legend_memory == ((middle == GRAPH_MEMORY || bottom == GRAPH_MEMORY) && gtt_available),
        v.legend_clock == ((middle == GRAPH_CLOCKS || bottom == GRAPH_CLOCKS) && both_clocks_visible),
        num == GRAPH_NONE ==> v.datasets is None && v.label is None && !v.total_is_percent,
        num != GRAPH_NONE ==> (v.datasets matches Some(ds) && ds@.len() == 8 && forall|d: int|
            0 <= d < 8 ==> #[trigger] ds@[d] == dataset_visible(num, gtt_available, d)),
        num != GRAPH_NONE ==> match v.label {
            Some(t) => spec_area_label(num, gtt_available) == Some(t@),
            None => spec_area_label(num, gtt_available) is None,
        },
        v.total_is_percent == (num == GRAPH_ENCODE_DECODE),
{
    let single_graph = middle == GRAPH_NONE && bottom == GRAPH_NONE;
    let enc_dec = middle == GRAPH_ENCODE_DECODE || bottom == GRAPH_ENCODE_DECODE;
    let memory = middle == GRAPH_MEMORY || bottom == GRAPH_MEMORY;
    let clocks = middle == GRAPH_CLOCKS || bottom == GRAPH_CLOCKS;
    let mut datasets: Option<Vec<bool>> = None;
    let mut label: Option<&'static str> = None;
    if num != GRAPH_NONE {
        let mut ds: Vec<bool> = Vec::new();
        ds.push(num == GRAPH_ENCODE_DECODE);
        ds.push(num == GRAPH_ENCODE_DECODE);
        ds.push(num == GRAPH_MEMORY);
        ds.push(gtt_available && num == GRAPH_MEMORY);
        ds.push(num == GRAPH_POWER);
        ds.push(num == GRAPH_CLOCKS);
        ds.push(num == GRAPH_CLOCKS);
        ds.push(num == GRAPH_TEMPERATURE);
        assert forall|d: int| 0 <= d < 8 implies #[trigger] ds@[d] == dataset_visible(
            num,
            gtt_available,
            d,
        ) by {}
        datasets = Some(ds);
        label = if num == GRAPH_ENCODE_DECODE {
            Some("Video encode/decode utilization over ")
        } else if num == GRAPH_MEMORY {
            if gtt_available {
                Some("Dedicated and shared memory usage over ")
            } else {
                Some("Memory usage over ")
            }
        } else if num == GRAPH_POWER {
            Some("Power draw over ")
        } else if num == GRAPH_CLOCKS {
            Some("Clock speed over ")
        } else if num == GRAPH_TEMPERATURE {
            Some("Temperature over ")
        } else {
            None
        };
    }
    GpuGraphView {
        box_visible: num != GRAPH_NONE,
        homogeneous: !single_graph,
        spacing: if single_graph { 0 } else { 10 },
        legend_encode_decode: enc_dec && !encode_decode_shared,
        legend_memory: memory && gtt_available,
        legend_clock: clocks && both_clocks_visible,
        datasets,
        label,
        total_is_percent: num == GRAPH_ENCODE_DECODE,
    }
}

/// How the maximum beside an area's graph is written.
#[derive(Clone, Copy, PartialEq, Eq, Structural, Debug)]
pub enum GpuTotal {
    /// Left as it is (no graph, or the encode/decode graph's "100%").
    Unchanged,
    /// Dedicated and shared memory maxima, `"<vram> / <gtt>"`, in bytes.
    MemoryPair,
    /// The dedicated memory maximum, in bytes.
    Memory,
    /// The power maximum, in watts.
    Watts,
    /// The GPU clock maximum, in hertz.
    Hertz,
    /// The temperature maximum, `"{:.0} °C"`.
    Celsius,
    /// An empty text.
    Empty,
}

/// How the maximum beside an area showing graph kind `num` is written.
pub fn graph_total(num: i32, gtt_available: bool) -> (t: GpuTotal)
    ensures
        t == (if num == GRAPH_NONE || num == GRAPH_ENCODE_DECODE {
            GpuTotal::Unchanged
        } else if num == GRAPH_MEMORY {
            if gtt_available { GpuTotal::MemoryPair } else { GpuTotal::Memory }
        } else if num == GRAPH_POWER {
            GpuTotal::Watts
        } else if num == GRAPH_CLOCKS {
            GpuTotal::Hertz
        } else if num == GRAPH_TEMPERATURE {
            GpuTotal::Celsius
        } else {
            GpuTotal::Empty
        }),
{
    if num == GRAPH_NONE || num == GRAPH_ENCODE_DECODE {
        GpuTotal::Unchanged
    } else if num == GRAPH_MEMORY {
        if gtt_available { GpuTotal::MemoryPair } else { GpuTotal::Memory }
    } else if num == GRAPH_POWER {
        GpuTotal::Watts
    } else if num == GRAPH_CLOCKS {
        GpuTotal::Hertz
    } else if num == GRAPH_TEMPERATURE {
        GpuTotal::Celsius
    } else {
        GpuTotal::Empty
    }
}

/// An area shows the datasets of its own graph kind only: no dataset is
/// drawn for two different kinds, and none at all for "no graph".
pub proof fn lemma_one_kind_per_area(num: i32, other: i32, gtt_available: bool, d: int)
    requires
        0 <= d < 8,
        num != other,
    ensures
        !(dataset_visible(num, gtt_available, d) && dataset_visible(other, gtt_available, d)),
        !dataset_visible(GRAPH_NONE, gtt_available, d),
{
}

// ---------------------------------------------------------------------
// Details pane
// ---------------------------------------------------------------------

/// The PCIe link as written in the details pane: `PCIe Gen <gen> x<lanes> `.
pub open spec fn spec_pcie_text(generation: u32, lanes: u32) -> Seq<char> {
    "PCIe Gen "@ + decimal(generation as nat) + " x"@ + decimal(lanes as nat) + " "@
}

/// The PCIe link text (see `spec_pcie_text`).
pub fn pcie_speed_text(generation: u32, lanes: u32) -> (s: String)
    ensures
        s@ == spec_pcie_text(generation, lanes),
{
    let mut s = String::new();
    s.append("PCIe Gen ");
    push_decimal(&mut s, generation as u64);
    s.append(" x");
    push_decimal(&mut s, lanes as u64);
    s.append(" ");
    s
}

/// Which PCIe rows the static information shows, as `(current, maximum)`:
/// each one when both its generation and lane count are known.
pub fn static_pcie_visibility(gpu: &GpuInfo) -> (v: (bool, bool))
    ensures
        v == (gpu.pcie_gen is Some && gpu.pcie_lanes is Some, gpu.max_pcie_gen is Some
            && gpu.max_pcie_lanes is Some),
{
    (gpu.pcie_gen.is_some() && gpu.pcie_lanes.is_some(), gpu.max_pcie_gen.is_some()
        && gpu.max_pcie_lanes.is_some())
}

/// Which PCIe rows a live reading shows, as `(current, maximum)`: the
/// current link when it is known, and the maximum only beside a known
/// current link, when the maximum is known and differs from it.
pub open spec fn spec_live_pcie(gpu: GpuInfo) -> (bool, bool) {
    match (gpu.pcie_gen, gpu.pcie_lanes) {
        (Some(g), Some(l)) => (true, match (gpu.max_pcie_gen, gpu.max_pcie_lanes) {
            (Some(mg), Some(ml)) => !(mg == g && ml == l),
            _ => false,
        }),
        _ => (false, false),
    }
}

/// The PCIe rows of a live reading (see `spec_live_pcie`).
pub fn live_pcie_visibility(gpu: &GpuInfo) -> (v: (bool, bool))
    ensures
        v == spec_live_pcie(*gpu),
{
    match (gpu.pcie_gen, gpu.pcie_lanes) {
        (Some(g), Some(l)) => (true, match (gpu.max_pcie_gen, gpu.max_pcie_lanes) {
            (Some(mg), Some(ml)) => !(mg == g && ml == l),
            _ => false,
        }),
        _ => (false, false),
    }
}

/// The page title: `GPU <index>`, or `GPU` for the only GPU.
pub open spec fn spec_gpu_id_text(index: Option<usize>) -> Seq<char> {
    match index {
        Some(i) => "GPU "@ + decimal(i as nat),
        None => "GPU"@,
    }
}

/// The page title (see `spec_gpu_id_text`).
pub fn gpu_id_text(index: Option<usize>) -> (s: String)
    ensures
        s@ == spec_gpu_id_text(index),
{
    match index {
        Some(i) => {
            let mut s = String::new();
            s.append("GPU ");
            push_decimal(&mut s, i as u64);
            s
        },
        None => {
            let mut s = String::new();
            s.append("GPU");
            s
        },
    }
}

/// The Vulkan version, `major.minor.patch` with a missing patch written as
/// 0; `None` when the GPU has no Vulkan support.
pub open spec fn spec_vulkan_text(v: Option<ApiVersion>) -> Option<Seq<char>> {
    match v {
        Some(v) => Some(decimal(v.major as nat) + "."@ + decimal(v.minor as nat) + "."@ + decimal(
            match v.patch {
                Some(p) => p as nat,
                None => 0,
            },
        )),
        None => None,
    }
}

/// The Vulkan version text (see `spec_vulkan_text`).
pub fn vulkan_version_text(v: Option<ApiVersion>) -> (r: Option<String>)
    ensures
        match r {
            Some(s) => spec_vulkan_text(v) == Some(s@),
            None => spec_vulkan_text(v) is None,
        },
{
    match v {
        Some(v) => {
            let mut s = String::new();
            push_decimal(&mut s, v.major as u64);
            s.append(".");
            push_decimal(&mut s, v.minor as u64);
            s.append(".");
            let patch: u32 = match v.patch {
                Some(p) => p,
                None => 0,
            };
            push_decimal(&mut s, patch as u64);
            Some(s)
        },
        None => None,
    }
}

/// The OpenGL version: `ES ` for OpenGL ES, then `major.minor` when known;
/// `unknown` when that leaves nothing.
pub open spec fn spec_opengl_text(
    variant: Option<OpenGlVariant>,
    version: Option<ApiVersion>,
    unknown: Seq<char>,
) -> Seq<char> {
    let prefix: Seq<char> = if variant == Some(OpenGlVariant::OpenGles) { "ES "@ } else { seq![] };
    let text: Seq<char> = match version {
        Some(v) => prefix + decimal(v.major as nat) + "."@ + decimal(v.minor as nat),
        None => prefix,
    };
    if text.len() == 0 {
        unknown
    } else {
        text
    }
}

/// `10^k`.
pub open spec fn pow10(k: nat) -> nat
    decreases k,
{
    if k == 0 { 1 } else { 10 * pow10((k - 1) as nat) }
}

proof fn lemma_decimal_ascii_len(n: nat, k: nat)
    requires
        k >= 1,
        n < pow10(k),
    ensures
        decimal(n).len() <= k,
        vstd::utf8::is_ascii_chars(decimal(n)),
    decreases n,
{
    if n >= 10 {
        assert(k >= 2) by {
            if k == 1 {
                assert(pow10(1) == 10) by {
                    reveal_with_fuel(pow10, 2);
                }
            }
        }
        assert(n / 10 < pow10((k - 1) as nat)) by {
            assert(pow10(k) == 10 * pow10((k - 1) as nat));
        }
        lemma_decimal_ascii_len(n / 10, (k - 1) as nat);
        let d = decimal(n / 10);
        assert(decimal(n) == d.push(digit_char(n % 10)));
        assert forall|i: int| 0 <= i < decimal(n).len() implies '\0' <= #[trigger] decimal(n)[i]
            <= '\u{7f}' by {
            if i < d.len() {
                assert(decimal(n)[i] == d[i]);
            }
        }
    } else {
        assert forall|i: int| 0 <= i < decimal(n).len() implies '\0' <= #[trigger] decimal(n)[i]
            <= '\u{7f}' by {}
    }
}

proof fn lemma_u32_decimal(n: u32)
    ensures
        decimal(n as nat).len() <= 10,
        vstd::utf8::is_ascii_chars(decimal(n as nat)),
{
    assert(pow10(10) == 10000000000) by {
        reveal_with_fuel(pow10, 11);
    }
    lemma_decimal_ascii_len(n as nat, 10);
}

proof fn lemma_ascii_concat_byte_len(a: Seq<char>, b: Seq<char>)
    requires
        vstd::utf8::is_ascii_chars(a),
        vstd::utf8::is_ascii_chars(b),
    ensures
        vstd::utf8::is_ascii_chars(a + b),
        byte_len(a + b) == a.len() + b.len(),
{
    assert forall|i: int| 0 <= i < (a + b).len() implies '\0' <= #[trigger] (a + b)[i] <= '\u{7f}' by {
        if i < a.len() {
            assert((a + b)[i] == a[i]);
        } else {
            assert((a + b)[i] == b[i - a.len()]);
        }
    }
    vstd::utf8::is_ascii_chars_encode_utf8(a + b);
}

/// The OpenGL version text (see `spec_opengl_text`), assembled in a
/// fixed-capacity string of 64 bytes. `unknown` (the localised "Unknown")
/// is only used when neither an ES prefix nor a version is present, and
/// then has to fit in those 64 bytes.
pub fn opengl_version_text(
    variant: Option<OpenGlVariant>,
    version: Option<ApiVersion>,
    unknown: &str,
) -> (s: String)
    requires
        variant != Some(OpenGlVariant::OpenGles) && version is None ==> byte_len(unknown@) <= 64,
    ensures
        s@ == spec_opengl_text(variant, version, unknown@),
{
    let mut buf = array_string_new();
    let ghost prefix: Seq<char> = seq![];
    proof {
        reveal_strlit("ES ");
        reveal_strlit(".");
        assert(vstd::utf8::is_ascii_chars(prefix));
    }
    if let Some(var) = variant {
        if var == OpenGlVariant::OpenGles {
            proof {
                assert(vstd::utf8::is_ascii_chars("ES "@));
                lemma_ascii_concat_byte_len(array_string_view(buf), "ES "@);
            }
            array_string_push_str(&mut buf, "ES ");
            proof {
                prefix = "ES "@;
            }
        }
    }
    assert(array_string_view(buf) == prefix);
    assert(prefix.len() <= 3);
    assert(vstd::utf8::is_ascii_chars(prefix));
    if let Some(v) = version {
        let major = u64_to_decimal(v.major as u64);
        let minor = u64_to_decimal(v.minor as u64);
        proof {
            lemma_u32_decimal(v.major);
            lemma_u32_decimal(v.minor);
            assert(vstd::utf8::is_ascii_chars("."@));
            lemma_ascii_concat_byte_len(prefix, major@);
        }
        array_string_push_str(&mut buf, major.as_str());
        proof {
            lemma_ascii_concat_byte_len(prefix + major@, "."@);
        }
        array_string_push_str(&mut buf, ".");
        proof {
            lemma_ascii_concat_byte_len(prefix + major@ + "."@, minor@);
        }
        array_string_push_str(&mut buf, minor.as_str());
    }
    if array_string_is_empty(&buf) {
        assert(Seq::<char>::empty() + unknown@ =~= unknown@);
        array_string_push_str(&mut buf, unknown);
    }
    array_string_to_string(&buf)
}

/// The dedicated-memory readout: whether a used figure is shown, and the
/// (unlocalised) title, when it changes.
pub struct MemoryLabels {
    pub used_valid: bool,
    pub title: Option<&'static str>,
}

/// The dedicated-memory readout for a reading: with a used figure it is
/// titled "Memory Usage"; without one, "Total Memory" when the total is
/// known, and the title is left alone otherwise.
pub fn dedicated_memory_labels(used_memory: Option<u64>, total_memory_valid: bool) -> (l: MemoryLabels)
    ensures
        l.used_valid == used_memory is Some,
        used_memory is Some ==> l.title == Some("Memory Usage"),
        used_memory is None && total_memory_valid ==> l.title == Some("Total Memory"),
        used_memory is None && !total_memory_valid ==> l.title is None,
{
    match used_memory {
        Some(_) => MemoryLabels { used_valid: true, title: Some("Memory Usage") },
        None => MemoryLabels {
            used_valid: false,
            title: if total_memory_valid { Some("Total Memory") } else { None },
        },
    }
}

/// The shared-memory readout: whether the total and used figures are
/// shown, and the (unlocalised) title, when it changes.
pub struct SharedMemoryLabels {
    pub total_valid: bool,
    pub used_valid: bool,
    pub title: Option<&'static str>,
}

/// The shared-memory readout for a reading: titled "Shared Memory Usage"
/// with a used figure; otherwise "Total Shared Memory" when the total is
/// known, and the title is left alone when neither is.
pub fn shared_memory_labels(total_shared: Option<u64>, used_shared: Option<u64>) -> (l: SharedMemoryLabels)
    ensures
        l.total_valid == total_shared is Some,
        l.used_valid == used_shared is Some,
        used_shared is Some ==> l.title == Some("Shared Memory Usage"),
        used_shared is None && total_shared is Some ==> l.title == Some("Total Shared Memory"),
        used_shared is None && total_shared is None ==> l.title is None,
{
    let total_valid = total_shared.is_some();
    match used_shared {
        Some(_) => SharedMemoryLabels { total_valid, used_valid: true, title: Some("Shared Memory Usage") },
        None => SharedMemoryLabels {
            total_valid,
            used_valid: false,
            title: if total_valid { Some("Total Shared Memory") } else { None },
        },
    }
}

/// Which readouts of the details pane a reading fills.
#[derive(Clone, Copy, PartialEq, Eq, Structural, Debug)]
pub struct GpuReadouts {
    /// The clock maximum (and its separator) is shown.
    pub clock_max_visible: bool,
    /// A current clock is shown.
    pub clock_available: bool,
    pub power_max_visible: bool,
    pub power_available: bool,
    pub memory_speed_max_visible: bool,
    pub memory_speed_available: bool,
    /// The temperature box is shown.
    pub temperature_visible: bool,
    /// An encoder figure is drawn and written.
    pub encoder_shown: bool,
    /// A decoder figure is drawn and written: only when encoder and decoder
    /// do not share one engine.
    pub decoder_shown: bool,
}

/// The readouts a reading fills (see `GpuReadouts`).
pub fn gpu_readouts(gpu: &GpuInfo) -> (r: GpuReadouts)
    ensures
        r == (GpuReadouts {
            clock_max_visible: gpu.max_clock_speed_mhz is Some,
            clock_available: gpu.clock_speed_mhz is Some,
            power_max_visible: gpu.has_max_power_draw,
            power_available: gpu.has_power_draw,
            memory_speed_max_visible: gpu.max_memory_speed_mhz is Some,
            memory_speed_available: gpu.memory_speed_mhz is Some,
            temperature_visible: gpu.has_temperature,
            encoder_shown: gpu.has_encoder_percent,
            decoder_shown: !gpu.encode_decode_shared && gpu.has_decoder_percent,
        }),
{
    GpuReadouts {
        clock_max_visible: gpu.max_clock_speed_mhz.is_some(),
        clock_available: gpu.clock_speed_mhz.is_some(),
        power_max_visible: gpu.has_max_power_draw,
        power_available: gpu.has_power_draw,
        memory_speed_max_visible: gpu.max_memory_speed_mhz.is_some(),
        memory_speed_available: gpu.memory_speed_mhz.is_some(),
        temperature_visible: gpu.has_temperature,
        encoder_shown: gpu.has_encoder_percent,
        decoder_shown: !gpu.encode_decode_shared && gpu.has_decoder_percent,
    }
}

/// The texts the static information sets besides versions and PCIe links.
pub struct GpuStaticTexts {
    /// The device name, or "Unknown".
    pub device_name: String,
    /// The PCI address.
    pub pci_address: String,
    /// Whether the total dedicated memory is known (and written).
    pub total_memory_valid: bool,
    /// Whether encoder and decoder share one engine.
    pub encode_decode_shared: bool,
    /// "Video encode/decode" when they do: the encoder readout then stands
    /// for both; `None` leaves the encoder's own title.
    pub encode_label: Option<&'static str>,
}

pub open spec fn spec_device_name(name: Option<String>) -> Seq<char> {
    match name {
        Some(n) => n@,
        None => "Unknown"@,
    }
}

/// The texts for `gpu` (see `GpuStaticTexts`).
pub fn gpu_static_texts(gpu: &GpuInfo) -> (t: GpuStaticTexts)
    ensures
        t.device_name@ == spec_device_name(gpu.device_name),
        t.pci_address@ == gpu.id@,
        t.total_memory_valid == gpu.total_memory is Some,
        t.encode_decode_shared == gpu.encode_decode_shared,
        t.encode_label == (if gpu.encode_decode_shared {
            Some("Video encode/decode")
        } else {
            None::<&'static str>
        }),
{
    let device_name = match &gpu.device_name {
        Some(n) => n.clone(),
        None => String::from_str("Unknown"),
    };
    GpuStaticTexts {
        device_name,
        pci_address: gpu.id.clone(),
        total_memory_valid: gpu.total_memory.is_some(),
        encode_decode_shared: gpu.encode_decode_shared,
        encode_label: if gpu.encode_decode_shared { Some("Video encode/decode") } else { None },
    }
}

/// The two graph areas never offer the same graph: whatever one area
/// shows (other than no graph) cannot be chosen in the other.
pub proof fn lemma_menus_exclude_other_area(other: i32, k: int)
    requires
        1 <= k < 6,
        other == k,
    ensures
        !menu_offers(other, k),
        menu_offers(other, 0),
{
}

/// A GPU supports a graph kind exactly when it reports some figure that
/// graph draws: encode/decode with an encoder or decoder percentage, memory
/// with any dedicated or shared memory figure, power with a power draw,
/// clocks with a GPU clock or a memory clock, temperature with a
/// temperature. "No graph" is always supported.
pub proof fn lemma_capabilities_follow_readings(gpu: GpuInfo)
    ensures
        capability(spec_capabilities(gpu), GRAPH_NONE as int),
        gpu.has_encoder_percent ==> capability(spec_capabilities(gpu), GRAPH_ENCODE_DECODE as int),
        gpu.has_decoder_percent ==> capability(spec_capabilities(gpu), GRAPH_ENCODE_DECODE as int),
        !gpu.has_encoder_percent && !gpu.has_decoder_percent ==> !capability(
            spec_capabilities(gpu),
            GRAPH_ENCODE_DECODE as int,
        ),
        gpu.total_memory is Some || gpu.used_memory is Some || gpu.total_shared_memory is Some
            || gpu.used_shared_memory is Some <==> capability(spec_capabilities(gpu), GRAPH_MEMORY as int),
        gpu.has_power_draw <==> capability(spec_capabilities(gpu), GRAPH_POWER as int),
        gpu.clock_speed_mhz is Some ==> capability(spec_capabilities(gpu), GRAPH_CLOCKS as int),
        gpu.memory_speed_mhz is Some ==> capability(spec_capabilities(gpu), GRAPH_CLOCKS as int),
        gpu.clock_speed_mhz is None && gpu.memory_speed_mhz is None ==> !capability(
            spec_capabilities(gpu),
            GRAPH_CLOCKS as int,
        ),
        gpu.has_temperature <==> capability(spec_capabilities(gpu), GRAPH_TEMPERATURE as int),
{
}

/// A saved choice of a graph the GPU's readings feed is kept when the page
/// is configured; one they do not feed becomes "no graph".
pub proof fn lemma_configured_choice_kept(gpu: GpuInfo, support: u8, selection: i32)
    requires
        forall|k: int| 0 <= k < 8 ==> supports(support, k) == capability(spec_capabilities(gpu), k),
        0 <= selection < 8,
    ensures
        capability(spec_capabilities(gpu), selection as int) ==> spec_supported_graph(support, selection) == selection,
        !capability(spec_capabilities(gpu), selection as int) ==> spec_supported_graph(support, selection) == GRAPH_NONE,
{
}

} // verus!
