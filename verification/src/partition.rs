//! One row of the disk page's partition list: what it remembers of the
//! last reading, what a new reading changes, and how mount points are
//! shown.

use vstd::prelude::*;
use vstd::string::*;

use crate::text::views;

verus! {

/// What a disk reading says of one partition.
pub struct PartitionInfo {
    pub devname: String,
    pub mountpoints: Vec<String>,
    pub filesystem: Option<String>,
    pub size: Option<u64>,
    pub used: Option<u64>,
}

/// What a row remembers of the last reading it showed.
#[verifier::ext_equal]
pub ghost struct CacheModel {
    pub mount_points: Seq<Seq<char>>,
    pub filesystem: Option<Seq<char>>,
    pub size: Option<u64>,
    pub used: Option<u64>,
}

pub open spec fn opt_view(o: Option<String>) -> Option<Seq<char>> {
    match o {
        Some(s) => Some(s@),
        None => None,
    }
}

/// The part of a reading a row remembers.
pub open spec fn cache_of(info: PartitionInfo) -> CacheModel {
    CacheModel {
        mount_points: views(info.mountpoints@),
        filesystem: opt_view(info.filesystem),
        size: info.size,
        used: info.used,
    }
}

/// How the usage bar and percentage are updated.
#[derive(Clone, Copy, PartialEq, Eq, Structural, Debug)]
pub enum UsageUpdate {
    /// Neither the size nor the used amount changed; nothing to do.
    Unchanged,
    /// The partition has size 0: no percentage can be computed (a warning
    /// is logged).
    ZeroSize,
    /// Both figures are known: the bar shows `used / size`, clamped to
    /// `0..=1`, and the percentage that fraction.
    Fraction,
    /// A figure is missing; the bar is left alone.
    Incomplete,
}

/// Which parts of a row a new reading changes.
#[derive(Clone, Copy, PartialEq, Eq, Structural, Debug)]
pub struct PartitionUpdate {
    /// The mount-point list is rebuilt.
    pub mount_points: bool,
    /// The filesystem label is rewritten ("Unknown" when there is none).
    pub filesystem: bool,
    /// The used amount is rewritten, or hidden when unknown.
    pub used: bool,
    /// The total size is rewritten, or hidden when unknown.
    pub size: bool,
    pub usage: UsageUpdate,
}

/// The mount-point rows and tooltip of a row.
pub struct MountPointView {
    /// The mount points that get a row, in order.
    pub rows: Vec<String>,
    /// The tooltip listing the others, `None` when there are none.
    pub tooltip: Option<String>,
}

/// What a new reading changes, and the mount-point rows and tooltip to show
/// when the mount points changed.
pub struct PartitionChanges {
    pub parts: PartitionUpdate,
    pub mount_point_view: Option<MountPointView>,
}

/// The (unlocalised) tooltip header for `n` additional mount points:
/// singular for one, plural otherwise.
pub open spec fn spec_tooltip_header(n: nat) -> Seq<char> {
    if n == 1 {
        "Additional mount point:"@
    } else {
        "Additional mount points:"@
    }
}

/// The tooltip for the mount points `mps`: none when there are at most
/// three, otherwise the header and the fourth and later ones.
pub open spec fn spec_mount_point_tooltip(mps: Seq<Seq<char>>) -> Option<Seq<char>> {
    let extra = extra_mount_points(mps);
    if extra.len() == 0 {
        None
    } else {
        Some(spec_tooltip(spec_tooltip_header(extra.len()), extra))
    }
}

/// `v` shows `mps`: a row for each of the first three, the tooltip for
/// the rest.
pub open spec fn spec_mount_point_view(v: MountPointView, mps: Seq<Seq<char>>) -> bool {
    &&& views(v.rows@) == shown_mount_points(mps)
    &&& opt_view(v.tooltip) == spec_mount_point_tooltip(mps)
}

/// The usage update for a reading whose size or used amount changed.
pub open spec fn spec_usage(changed: bool, size: Option<u64>, used: Option<u64>) -> UsageUpdate {
    if !changed {
        UsageUpdate::Unchanged
    } else {
        match (size, used) {
            (Some(s), _) if s == 0 => UsageUpdate::ZeroSize,
            (Some(_), Some(_)) => UsageUpdate::Fraction,
            _ => UsageUpdate::Incomplete,
        }
    }
}

/// What a reading `info` changes in a row that remembers `cache`: each
/// part whose remembered value differs.
pub open spec fn spec_update(cache: CacheModel, info: PartitionInfo) -> PartitionUpdate {
    let new = cache_of(info);
    let used = cache.used != new.used;
    let size = cache.size != new.size;
    PartitionUpdate {
        mount_points: cache.mount_points != new.mount_points,
        filesystem: cache.filesystem != new.filesystem,
        used,
        size,
        usage: spec_usage(used || size, info.size, info.used),
    }
}

/// A row of the partition list.
pub struct PartitionUsageItem {
    mount_points: Vec<String>,
    part_size: Option<u64>,
    part_used: Option<u64>,
    filesystem: Option<String>,
}

impl View for PartitionUsageItem {
    type V = CacheModel;

    closed spec fn view(&self) -> CacheModel {
        CacheModel {
            mount_points: views(self.mount_points@),
            filesystem: opt_view(self.filesystem),
            size: self.part_size,
            used: self.part_used,
        }
    }
}

fn strings_equal(a: &Vec<String>, b: &Vec<String>) -> (r: bool)
    ensures
        r == (views(a@) == views(b@)),
{
    if a.len() != b.len() {
        assert(views(a@).len() != views(b@).len());
        return false;
    }
    let mut i: usize = 0;
    while i < a.len()
        invariant
            a.len() == b.len(),
            i <= a.len(),
            forall|k: int| 0 <= k < i ==> a@[k]@ == b@[k]@,
        decreases a.len() - i,
    {
        if a[i] != b[i] {
            assert(views(a@)[i as int] != views(b@)[i as int]);
            return false;
        }
        i = i + 1;
    }
    assert(views(a@) =~= views(b@));
    true
}

fn options_equal(a: &Option<String>, b: &Option<String>) -> (r: bool)
    ensures
        r == (opt_view(*a) == opt_view(*b)),
{
    match (a, b) {
        (Some(x), Some(y)) => *x == *y,
        (None, None) => true,
        _ => false,
    }
}

fn copy_strings(v: &Vec<String>) -> (r: Vec<String>)
    ensures
        views(r@) == views(v@),
{
    let mut r: Vec<String> = Vec::new();
    let mut i: usize = 0;
    while i < v.len()
        invariant
            i <= v.len(),
            views(r@) == views(v@).take(i as int),
        decreases v.len() - i,
    {
        let ghost before = r@;
        let c = v[i].clone();
        assert(c@ == v@[i as int]@);
        r.push(c);
        assert(r@ == before.push(c));
        assert(views(r@) =~= views(before).push(c@));
        i = i + 1;
        assert(views(r@) =~= views(v@).take(i as int));
    }
    assert(views(v@).take(v.len() as int) =~= views(v@));
    r
}

fn copy_option(o: &Option<String>) -> (r: Option<String>)
    ensures
        opt_view(r) == opt_view(*o),
{
    match o {
        Some(s) => Some(s.clone()),
        None => None,
    }
}

impl PartitionUsageItem {
    /// A row that remembers nothing yet.
    pub fn new() -> (item: PartitionUsageItem)
        ensures
            item@ == (CacheModel { mount_points: seq![], filesystem: None, size: None, used: None }),
    {
        let item = PartitionUsageItem {
            mount_points: Vec::new(),
            part_size: None,
            part_used: None,
            filesystem: None,
        };
        assert(item@.mount_points =~= seq![]);
        item
    }

    /// A row built for `info`, with the changes its first update made.
    pub fn from_part_info(info: &PartitionInfo) -> (r: (PartitionUsageItem, PartitionChanges))
        ensures
            r.0@ == cache_of(*info),
            r.1.parts == spec_update(
                CacheModel { mount_points: seq![], filesystem: None, size: None, used: None },
                *info,
            ),
            r.1.mount_point_view is Some <==> r.1.parts.mount_points,
            r.1.mount_point_view matches Some(v) ==> spec_mount_point_view(v, views(info.mountpoints@)),
    {
        let mut out = Self::new();
        let changes = out.update(info);
        (out, changes)
    }

    /// Shows a new reading: every part that differs from what the row
    /// remembers is redone, and the row then remembers the reading. When the
    /// mount points changed, the rows and tooltip to show are returned: a
    /// row for each of the first three, the rest in the tooltip.
    pub fn update(&mut self, info: &PartitionInfo) -> (changes: PartitionChanges)
        ensures
            final(self)@ == after_update(old(self)@, *info),
            final(self)@ == cache_of(*info),
            changes.parts == spec_update(old(self)@, *info),
            changes.mount_point_view is Some <==> changes.parts.mount_points,
            changes.mount_point_view matches Some(v) ==> spec_mount_point_view(v, views(info.mountpoints@)),
    {
        let mount_points = !strings_equal(&self.mount_points, &info.mountpoints);
        let mut mount_point_view: Option<MountPointView> = None;
        if mount_points {
            self.mount_points = copy_strings(&info.mountpoints);
            let (rows, extra) = split_mount_points(&info.mountpoints);
            let header = mount_point_header(extra.len());
            let tooltip = mount_point_tooltip(header, &extra);
            mount_point_view = Some(MountPointView { rows, tooltip });
        }
        let filesystem = !options_equal(&self.filesystem, &info.filesystem);
        if filesystem {
            self.filesystem = copy_option(&info.filesystem);
        }
        let used = self.part_used != info.used;
        if used {
            self.part_used = info.used;
        }
        let size = self.part_size != info.size;
        if size {
            self.part_size = info.size;
        }
        let usage = if !(used || size) {
            UsageUpdate::Unchanged
        } else {
            match (info.size, info.used) {
                (Some(0), _) => UsageUpdate::ZeroSize,
                (Some(_), Some(_)) => UsageUpdate::Fraction,
                _ => UsageUpdate::Incomplete,
            }
        };
        PartitionChanges { parts: PartitionUpdate { mount_points, filesystem, used, size, usage }, mount_point_view }
    }

    /// The partition size of the last reading shown.
    pub fn partition_size(&self) -> (s: Option<u64>)
        ensures
            s == self@.size,
    {
        self.part_size
    }
}

/// What a row remembers after showing `info`, whatever it remembered before.
pub open spec fn after_update(cache: CacheModel, info: PartitionInfo) -> CacheModel {
    cache_of(info)
}

/// What a row remembers after showing the readings `infos` in order.
pub open spec fn after_updates(start: CacheModel, infos: Seq<PartitionInfo>) -> CacheModel
    decreases infos.len(),
{
    if infos.len() == 0 {
        start
    } else {
        after_update(after_updates(start, infos.drop_last()), infos.last())
    }
}

/// An update that redoes nothing.
pub open spec fn no_changes() -> PartitionUpdate {
    PartitionUpdate {
        mount_points: false,
        filesystem: false,
        used: false,
        size: false,
        usage: UsageUpdate::Unchanged,
    }
}

/// Showing the same reading twice changes nothing the second time,
/// whatever the row remembered before the first.
pub proof fn lemma_update_is_idempotent(start: CacheModel, info: PartitionInfo)
    ensures
        spec_update(after_update(start, info), info) == no_changes(),
{
}

/// After any run of readings, from any starting state, showing the last
/// reading again changes nothing.
pub proof fn lemma_repeated_reading_changes_nothing(start: CacheModel, infos: Seq<PartitionInfo>)
    requires
        infos.len() > 0,
    ensures
        spec_update(after_updates(start, infos), infos.last()) == no_changes(),
{
    lemma_update_is_idempotent(after_updates(start, infos.drop_last()), infos.last());
}

/// How many mount points get a row of their own; the rest go into the
/// tooltip.
pub const SHOWN_MOUNT_POINTS: usize = 3;

/// The mount points that get a row: the first three.
pub open spec fn shown_mount_points(mps: Seq<Seq<char>>) -> Seq<Seq<char>> {
    if mps.len() <= 3 { mps } else { mps.take(3) }
}

/// The mount points listed in the tooltip: all after the first three.
pub open spec fn extra_mount_points(mps: Seq<Seq<char>>) -> Seq<Seq<char>> {
    if mps.len() <= 3 { seq![] } else { mps.skip(3) }
}

/// The mount points split into those shown as rows and those listed in the
/// tooltip.
pub fn split_mount_points(mps: &Vec<String>) -> (r: (Vec<String>, Vec<String>))
    ensures
        views(r.0@) == shown_mount_points(views(mps@)),
        views(r.1@) == extra_mount_points(views(mps@)),
{
    let mut shown: Vec<String> = Vec::new();
    let mut extra: Vec<String> = Vec::new();
    let mut i: usize = 0;
    while i < mps.len()
        invariant
            i <= mps.len(),
            views(shown@) == views(mps@).take(if i < 3 { i as int } else { 3 }),
            views(extra@) == (if i <= 3 { seq![] } else { views(mps@).subrange(3, i as int) }),
        decreases mps.len() - i,
    {
        let c = mps[i].clone();
        assert(c@ == views(mps@)[i as int]);
        if i < SHOWN_MOUNT_POINTS {
            let ghost before = shown@;
            shown.push(c);
            assert(views(shown@) =~= views(before).push(c@));
            assert(views(shown@) =~= views(mps@).take(i + 1));
        } else {
            let ghost before = extra@;
            extra.push(c);
            assert(views(extra@) =~= views(before).push(c@));
            assert(views(extra@) =~= views(mps@).subrange(3, i + 1));
        }
        i = i + 1;
    }
    assert(views(mps@).take(mps.len() as int) =~= views(mps@));
    assert(mps.len() > 3 ==> views(mps@).subrange(3, mps.len() as int) =~= views(mps@).skip(3));
    (shown, extra)
}

/// The tooltip listing the extra mount points: the header, then each mount
/// point on a line of its own indented by four spaces.
pub open spec fn spec_tooltip(header: Seq<char>, extra: Seq<Seq<char>>) -> Seq<char>
    decreases extra.len(),
{
    if extra.len() == 0 {
        header
    } else {
        spec_tooltip(header, extra.drop_last()) + "\n    "@ + extra.last()
    }
}

/// The tooltip header for `n` additional mount points.
pub fn mount_point_header(n: usize) -> (h: &'static str)
    ensures
        h@ == spec_tooltip_header(n as nat),
{
    if n == 1 {
        "Additional mount point:"
    } else {
        "Additional mount points:"
    }
}

/// The tooltip for the extra mount points, `None` when there are none (the
/// tooltip is then turned off). `header` is the (localised, pluralised)
/// "Additional mount point(s):" line.
pub fn mount_point_tooltip(header: &str, extra: &Vec<String>) -> (r: Option<String>)
    ensures
        extra@.len() == 0 ==> r is None,
        extra@.len() > 0 ==> (r matches Some(t) && t@ == spec_tooltip(header@, views(extra@))),
{
    if extra.len() == 0 {
        return None;
    }
    let mut t = String::from_str(header);
    let mut i: usize = 0;
    while i < extra.len()
        invariant
            i <= extra.len(),
            t@ == spec_tooltip(header@, views(extra@).take(i as int)),
        decreases extra.len() - i,
    {
        t.append("\n    ");
        t.append(extra[i].as_str());
        i = i + 1;
        assert(views(extra@).take(i as int).drop_last() =~= views(extra@).take(i - 1));
    }
    assert(views(extra@).take(extra.len() as int) =~= views(extra@));
    Some(t)
}

/// Every mount point is shown exactly once: the rows and the tooltip
/// together list all of them, in order, with at most three rows.
pub proof fn lemma_mount_points_partitioned(mps: Seq<Seq<char>>)
    ensures
        shown_mount_points(mps) + extra_mount_points(mps) == mps,
        shown_mount_points(mps).len() <= 3,
{
    assert(shown_mount_points(mps) + extra_mount_points(mps) =~= mps);
}

/// The usage bar follows the figures: when the used amount or the size
/// changes and both are known with a non-zero size, the bar and percentage
/// are redrawn; a changed figure with size 0 gives the zero-size warning; a
/// changed figure with one of them unknown leaves the bar; and when neither
/// changes, the bar is left alone. Each other part is redone exactly when
/// its figure differs from what the row showed.
pub proof fn lemma_usage_bar_follows_figures(cache: CacheModel, info: PartitionInfo)
    ensures
        (cache.used != info.used || cache.size != info.size) && info.size is Some && info.size->0 > 0
            && info.used is Some ==> spec_update(cache, info).usage == UsageUpdate::Fraction,
        (cache.used != info.used || cache.size != info.size) && info.size == Some(0u64)
            ==> spec_update(cache, info).usage == UsageUpdate::ZeroSize,
        (cache.used != info.used || cache.size != info.size) && (info.size is None || (info.used is None
            && info.size != Some(0u64))) ==> spec_update(cache, info).usage == UsageUpdate::Incomplete,
        cache.used == info.used && cache.size == info.size ==> spec_update(cache, info).usage
            == UsageUpdate::Unchanged,
        spec_update(cache, info).used == (cache.used != info.used),
        spec_update(cache, info).size == (cache.size != info.size),
        spec_update(cache, info).mount_points == (cache.mount_points != views(info.mountpoints@)),
        spec_update(cache, info).filesystem == (cache.filesystem != opt_view(info.filesystem)),
{
}

} // verus!
