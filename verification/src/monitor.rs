//! Monitor snapshots, their assembly from OS-reported data, and refresh-rate
//! mutation requests.
//!
//! The OS boundary is modelled as plain data: a [`DeviceRecord`] for each
//! slot of the display-device registry, a [`ModeRecord`] for each display
//! mode, and an `i32` status code for a mode change.  The callers walk the
//! native registry, fill a [`DeviceSnapshot`] per slot, and hand the whole
//! snapshot to [`Monitor::enumerate_monitors`]; they submit the
//! [`ModeChangeRequest`] that [`Monitor::plan_refresh_rate_change`] produces
//! and hand the returned status code to [`Monitor::interpret_change_status`].

use vstd::prelude::*;

use crate::wide::{null_terminated_prefix, utf16_decode_of, wide_string_to_string};

verus! {

/// State-flag bit with which the OS marks a display device as part of the
/// active desktop.
pub const ATTACHED_TO_DESKTOP: u32 = 0x00000001;

/// Status code with which the OS reports that a mode change succeeded; every
/// other code is a failure.
pub const CHANGE_SUCCESSFUL: i32 = 0;

/// One slot of the OS's display-device registry: the device's identifier and
/// description as null-terminated wide-character buffers, and its state
/// flags.
#[derive(Debug, Clone)]
pub struct DeviceRecord {
    pub name: Vec<u16>,
    pub description: Vec<u16>,
    pub state_flags: u32,
}

/// One display mode as the OS reports it: a resolution and a refresh rate.
#[derive(Debug, Clone, Copy, PartialEq, Eq, Structural)]
pub struct ModeRecord {
    pub width: u32,
    pub height: u32,
    pub refresh_rate: u32,
}

/// What querying one device's modes yielded: either the query failed (the
/// device disappeared, access was denied), or the currently active mode
/// together with every mode the OS enumerates for the device.
#[derive(Debug, Clone)]
pub enum ModeQuery {
    Failed,
    Modes { current: ModeRecord, all: Vec<ModeRecord> },
}

/// Everything the OS reported for one device slot.
#[derive(Debug, Clone)]
pub struct DeviceSnapshot {
    pub record: DeviceRecord,
    pub query: ModeQuery,
}

/// A point-in-time snapshot of one active monitor.
#[derive(Debug, Clone, PartialEq)]
pub struct Monitor {
    pub device_name: String,
    pub description: String,
    pub current_width: u32,
    pub current_height: u32,
    pub current_refresh_rate: u32,
    pub available_refresh_rates: Vec<u32>,
}

/// A mode change to submit to the OS: the monitor's resolution unchanged,
/// only the refresh rate set, and the change persisted to the OS's display
/// configuration store.
#[derive(Debug, Clone, PartialEq)]
pub struct ModeChangeRequest {
    pub device_name: String,
    pub width: u32,
    pub height: u32,
    pub refresh_rate: u32,
    pub persist: bool,
}

/// The ways an operation on a monitor fails.
#[derive(Debug, Clone, PartialEq)]
pub enum MonitorError {
    /// The OS could not be queried for devices at all.
    EnumerationFailure,
    /// One device could not yield its current mode.
    DeviceQueryFailure { device_name: String },
    /// The requested rate is not among the monitor's available ones; no
    /// mutation is attempted.
    UnsupportedRate { requested: u32, available: Vec<u32>, description: String },
    /// The OS refused the mode change with the embedded status code.
    MutationRejected { requested: u32, code: i32, description: String },
}

/// Whether the state flags mark a device as attached to the active desktop.
pub open spec fn is_attached(state_flags: u32) -> bool {
    state_flags & ATTACHED_TO_DESKTOP != 0
}

/// A display mode the OS actually yields: width, height and refresh rate are
/// positive.  An all-zero record is the OS's way of reporting no real mode
/// (a zero frequency stands for "hardware default"), and the data model
/// admits no such snapshot.
pub open spec fn mode_is_positive(m: ModeRecord) -> bool {
    m.width > 0 && m.height > 0 && m.refresh_rate > 0
}

/// Whether a device's mode query yielded a usable current mode: the query
/// succeeded and the mode it reports is positive in every field.
pub open spec fn query_usable(q: ModeQuery) -> bool {
    match q {
        ModeQuery::Failed => false,
        ModeQuery::Modes { current, .. } => mode_is_positive(current),
    }
}

/// A sequence of rates that is sorted ascending with no duplicates.
pub open spec fn strictly_ascending(s: Seq<u32>) -> bool {
    forall|i: int, j: int| 0 <= i < j < s.len() ==> s[i] < s[j]
}

/// Whether `modes[k]` exists, has the given resolution, and carries `rate`.
pub open spec fn mode_has(modes: Seq<ModeRecord>, k: int, width: u32, height: u32, rate: u32) -> bool {
    &&& 0 <= k < modes.len()
    &&& modes[k].width == width
    &&& modes[k].height == height
    &&& modes[k].refresh_rate == rate
}

/// Whether some mode of the given resolution carries `rate`.
pub open spec fn modes_have_rate(modes: Seq<ModeRecord>, width: u32, height: u32, rate: u32) -> bool {
    exists|k: int| #[trigger] mode_has(modes, k, width, height, rate)
}

/// `rates` holds exactly the positive refresh rates that the modes of the
/// given resolution carry; a zero rate is no real rate and is never listed.
pub open spec fn rates_complete(rates: Seq<u32>, modes: Seq<ModeRecord>, width: u32, height: u32) -> bool {
    forall|r: u32|
        #![trigger rates.contains(r)]
        #![trigger modes_have_rate(modes, width, height, r)]
        rates.contains(r) <==> (r > 0 && modes_have_rate(modes, width, height, r))
}

impl Monitor {
    /// The snapshot's internal invariant: the active mode is positive in
    /// every field, and the available rates are positive, sorted ascending
    /// and without duplicates.
    pub open spec fn wf(self) -> bool {
        &&& self.current_width > 0
        &&& self.current_height > 0
        &&& self.current_refresh_rate > 0
        &&& strictly_ascending(self.available_refresh_rates@)
        &&& forall|i: int|
            0 <= i < self.available_refresh_rates@.len() ==> (#[trigger] self.available_refresh_rates@[i]) > 0
    }
}

/// Whether `rates` holds `rate`.
fn rates_contain(rates: &Vec<u32>, rate: u32) -> (present: bool)
    ensures
        present == rates@.contains(rate),
{
    let mut i: usize = 0;
    while i < rates.len()
        invariant
            0 <= i <= rates@.len(),
            forall|k: int| 0 <= k < i ==> rates@[k] != rate,
        decreases rates@.len() - i,
    {
        if rates[i] == rate {
            return true;
        }
        i += 1;
    }
    false
}

/// Copies a rate list; the verified callers need the copy's contents pinned.
fn copy_rates(rates: &Vec<u32>) -> (r: Vec<u32>)
    ensures
        r@ == rates@,
{
    let mut out: Vec<u32> = Vec::new();
    let mut i: usize = 0;
    while i < rates.len()
        invariant
            0 <= i <= rates@.len(),
            out@ == rates@.subrange(0, i as int),
        decreases rates@.len() - i,
    {
        out.push(rates[i]);
        assert(out@ =~= rates@.subrange(0, i + 1 as int));
        i += 1;
    }
    assert(out@ =~= rates@);
    out
}

/// Inserts a rate into a sorted list of distinct rates, keeping it sorted
/// and without duplicates.
fn insert_rate_sorted(rates: &mut Vec<u32>, rate: u32)
    requires
        strictly_ascending(old(rates)@),
    ensures
        strictly_ascending(final(rates)@),
        forall|x: u32| #[trigger] final(rates)@.contains(x) <==> (old(rates)@.contains(x) || x == rate),
{
    let ghost orig = rates@;
    let mut i: usize = 0;
    while i < rates.len() && rates[i] < rate
        invariant
            0 <= i <= rates@.len(),
            rates@ == orig,
            forall|k: int| 0 <= k < i ==> rates@[k] < rate,
        decreases rates@.len() - i,
    {
        i += 1;
    }
    if i < rates.len() && rates[i] == rate {
        assert(rates@.contains(rate)) by {
            assert(rates@[i as int] == rate);
        }
        assert(forall|x: u32| #[trigger] rates@.contains(x) <==> (orig.contains(x) || x == rate));
        return;
    }
    assert(i < rates@.len() ==> rates@[i as int] > rate);
    rates.insert(i, rate);
    proof {
        orig.insert_ensures(i as int, rate);
        let now = rates@;
        assert(strictly_ascending(now)) by {
            assert forall|a: int, b: int| 0 <= a < b < now.len() implies now[a] < now[b] by {
                if b < i {
                    assert(now[a] == orig[a] && now[b] == orig[b]);
                } else if a < i && b == i {
                    assert(now[a] == orig[a] && now[b] == rate);
                } else if a < i && b > i {
                    assert(now[a] == orig[a] && now[b] == orig[b - 1]);
                    assert(orig[b - 1] >= rate || b - 1 >= i);
                    if b - 1 == i {
                        assert(orig[b - 1] > rate);
                    } else {
                        assert(orig[i as int] > rate && orig[i as int] < orig[b - 1]);
                    }
                } else if a == i {
                    assert(now[a] == rate && now[b] == orig[b - 1]);
                    if b - 1 == i {
                        assert(orig[b - 1] > rate);
                    } else {
                        assert(orig[i as int] > rate && orig[i as int] < orig[b - 1]);
                    }
                } else {
                    assert(now[a] == orig[a - 1] && now[b] == orig[b - 1]);
                    assert(orig[a - 1] < orig[b - 1]);
                }
            }
        }
        assert forall|x: u32| #[trigger] now.contains(x) implies (orig.contains(x) || x == rate) by {
            let k = choose|k: int| 0 <= k < now.len() && now[k] == x;
            if k < i {
                assert(orig[k] == x);
            } else if k == i {
                assert(x == rate);
            } else {
                assert(orig[k - 1] == x);
            }
        }
        assert forall|x: u32| orig.contains(x) || x == rate implies #[trigger] now.contains(x) by {
            if x == rate {
                assert(now[i as int] == rate);
            } else {
                let k = choose|k: int| 0 <= k < orig.len() && orig[k] == x;
                if k < i {
                    assert(now[k] == x);
                } else {
                    assert(now[k + 1] == x);
                }
            }
        }
    }
}

/// Collects, deduplicated and sorted ascending, every positive refresh rate
/// that the OS reports for the given resolution; a zero rate stands for no
/// real rate and is discarded.
pub fn collect_refresh_rates(modes: &Vec<ModeRecord>, width: u32, height: u32) -> (rates: Vec<u32>)
    ensures
        strictly_ascending(rates@),
        rates_complete(rates@, modes@, width, height),
{
    let mut rates: Vec<u32> = Vec::new();
    let mut i: usize = 0;
    while i < modes.len()
        invariant
            0 <= i <= modes@.len(),
            strictly_ascending(rates@),
            forall|r: u32| #[trigger]
                rates@.contains(r) <==> (r > 0 && exists|k: int| k < i && #[trigger] mode_has(modes@, k, width, height, r)),
        decreases modes@.len() - i,
    {
        let m = modes[i];
        let ghost before = rates@;
        if m.width == width && m.height == height && m.refresh_rate > 0 {
            insert_rate_sorted(&mut rates, m.refresh_rate);
            assert forall|r: u32| #[trigger] rates@.contains(r) implies
                (r > 0 && exists|k: int| k < i + 1 && #[trigger] mode_has(modes@, k, width, height, r)) by {
                if before.contains(r) {
                    let k = choose|k: int| k < i && #[trigger] mode_has(modes@, k, width, height, r);
                    assert(k < i + 1 && mode_has(modes@, k, width, height, r));
                } else {
                    assert(r == m.refresh_rate);
                    assert(mode_has(modes@, i as int, width, height, r));
                }
            }
            assert forall|r: u32| r > 0 && exists|k: int| k < i + 1 && #[trigger] mode_has(modes@, k, width, height, r) implies
                #[trigger] rates@.contains(r) by {
                let k = choose|k: int| k < i + 1 && #[trigger] mode_has(modes@, k, width, height, r);
                if k < i {
                    assert(before.contains(r));
                } else {
                    assert(r == m.refresh_rate);
                }
            }
        } else {
            assert forall|r: u32| r > 0 && exists|k: int| k < i + 1 && #[trigger] mode_has(modes@, k, width, height, r) implies
                #[trigger] rates@.contains(r) by {
                let k = choose|k: int| k < i + 1 && #[trigger] mode_has(modes@, k, width, height, r);
                assert(k != i);
            }
        }
        i += 1;
    }
    assert forall|r: u32| #[trigger] rates@.contains(r) <==> (r > 0 && modes_have_rate(modes@, width, height, r)) by {
        if rates@.contains(r) {
            let k = choose|k: int| k < modes@.len() && #[trigger] mode_has(modes@, k, width, height, r);
            assert(mode_has(modes@, k, width, height, r));
        }
        if r > 0 && modes_have_rate(modes@, width, height, r) {
            let k = choose|k: int| #[trigger] mode_has(modes@, k, width, height, r);
            assert(k < modes@.len() && mode_has(modes@, k, width, height, r));
        }
    }
    rates
}

/// Whether a device slot makes it into the enumeration: the device is
/// attached to the desktop and its mode query yielded a usable current mode.
pub open spec fn keeps(d: DeviceSnapshot) -> bool {
    is_attached(d.record.state_flags) && query_usable(d.query)
}

/// The device slots that the enumeration keeps, in slot order.
pub open spec fn kept_devices(devices: Seq<DeviceSnapshot>) -> Seq<DeviceSnapshot>
    decreases devices.len(),
{
    if devices.len() == 0 {
        Seq::empty()
    } else {
        let rest = kept_devices(devices.drop_last());
        if keeps(devices.last()) {
            rest.push(devices.last())
        } else {
            rest
        }
    }
}

/// Whether `m` is the monitor snapshot that device slot `d` gives rise to:
/// identifier and description decoded from the wide buffers, the current
/// mode's resolution and rate, and exactly the rates of the modes at that
/// resolution, sorted ascending without duplicates.
pub open spec fn monitor_matches(d: DeviceSnapshot, m: Monitor) -> bool {
    match d.query {
        ModeQuery::Failed => false,
        ModeQuery::Modes { current, all } => {
            &&& m.device_name@ == utf16_decode_of(null_terminated_prefix(d.record.name@))
            &&& m.description@ == utf16_decode_of(null_terminated_prefix(d.record.description@))
            &&& m.current_width == current.width
            &&& m.current_height == current.height
            &&& m.current_refresh_rate == current.refresh_rate
            &&& strictly_ascending(m.available_refresh_rates@)
            &&& rates_complete(m.available_refresh_rates@, all@, current.width, current.height)
        },
    }
}

/// Whether `monitors` is what enumerating `devices` yields: one monitor per
/// kept device slot, in slot order.
pub open spec fn enumeration_matches(devices: Seq<DeviceSnapshot>, monitors: Seq<Monitor>) -> bool {
    &&& monitors.len() == kept_devices(devices).len()
    &&& forall|j: int|
        0 <= j < monitors.len() ==> monitor_matches(kept_devices(devices)[j], #[trigger] monitors[j])
}

proof fn lemma_kept_devices_push(devices: Seq<DeviceSnapshot>, d: DeviceSnapshot)
    ensures
        kept_devices(devices.push(d)) == if keeps(d) {
            kept_devices(devices).push(d)
        } else {
            kept_devices(devices)
        },
{
    let p = devices.push(d);
    assert(p.drop_last() =~= devices);
    assert(p.last() == d);
}

/// Every kept device slot satisfies the keeping policy and occurs among the
/// device slots.
pub proof fn lemma_kept_devices_from(devices: Seq<DeviceSnapshot>, j: int)
    requires
        0 <= j < kept_devices(devices).len(),
    ensures
        keeps(kept_devices(devices)[j]),
        exists|i: int| 0 <= i < devices.len() && devices[i] == kept_devices(devices)[j],
    decreases devices.len(),
{
    if devices.len() > 0 {
        let rest = kept_devices(devices.drop_last());
        if keeps(devices.last()) && j == rest.len() {
            assert(devices[devices.len() - 1] == kept_devices(devices)[j]);
        } else {
            lemma_kept_devices_from(devices.drop_last(), j);
            let i = choose|i: int|
                0 <= i < devices.drop_last().len() && devices.drop_last()[i] == kept_devices(
                    devices.drop_last(),
                )[j];
            assert(devices[i] == kept_devices(devices)[j]);
        }
    }
}

/// Law: every enumerated monitor's available rates are sorted ascending with
/// no duplicate values.
pub proof fn lemma_enumerated_rates_sorted(devices: Seq<DeviceSnapshot>, monitors: Seq<Monitor>, j: int)
    requires
        enumeration_matches(devices, monitors),
        0 <= j < monitors.len(),
    ensures
        strictly_ascending(monitors[j].available_refresh_rates@),
{
}

/// Law: when the OS reports no mode at the current resolution that carries
/// the current refresh rate, that rate is absent from the monitor's
/// available list — it is not forced in, and the snapshot still exists.
pub proof fn lemma_current_rate_not_forced(d: DeviceSnapshot, m: Monitor)
    requires
        monitor_matches(d, m),
        d.query matches ModeQuery::Modes { current, all } && !modes_have_rate(
            all@,
            current.width,
            current.height,
            current.refresh_rate,
        ),
    ensures
        !m.available_refresh_rates@.contains(m.current_refresh_rate),
{
}

/// Law: every enumerated monitor arises from a device slot that carries the
/// attached-to-desktop flag; a device without it never appears, whatever
/// mode data it has.
pub proof fn lemma_enumerated_only_attached(devices: Seq<DeviceSnapshot>, monitors: Seq<Monitor>, j: int)
    requires
        enumeration_matches(devices, monitors),
        0 <= j < monitors.len(),
    ensures
        exists|i: int|
            0 <= i < devices.len() && is_attached(devices[i].record.state_flags) && #[trigger] monitor_matches(
                devices[i],
                monitors[j],
            ),
{
    lemma_kept_devices_from(devices, j);
    let i = choose|i: int| 0 <= i < devices.len() && devices[i] == kept_devices(devices)[j];
    assert(monitor_matches(devices[i], monitors[j]));
}

/// Two sorted, duplicate-free rate lists with the same members are equal.
pub proof fn lemma_sorted_distinct_unique(a: Seq<u32>, b: Seq<u32>)
    requires
        strictly_ascending(a),
        strictly_ascending(b),
        forall|x: u32| #[trigger] a.contains(x) <==> #[trigger] b.contains(x),
    ensures
        a == b,
    decreases a.len(),
{
    if a.len() == 0 {
        if b.len() > 0 {
            assert(b.contains(b[0]));
            assert(a.contains(b[0]));
        }
        assert(a =~= b);
    } else {
        assert(a[a.len() - 1] == a.last());
        assert(a.contains(a.last()));
        assert(b.contains(a.last()));
        assert(b.len() > 0);
        let ka = choose|k: int| 0 <= k < b.len() && b[k] == a.last();
        assert(a.last() <= b.last()) by {
            if ka < b.len() - 1 {
                assert(b[ka] < b[b.len() - 1]);
            }
        }
        assert(b[b.len() - 1] == b.last());
        assert(b.contains(b.last()));
        assert(a.contains(b.last()));
        let kb = choose|k: int| 0 <= k < a.len() && a[k] == b.last();
        assert(b.last() <= a.last()) by {
            if kb < a.len() - 1 {
                assert(a[kb] < a[a.len() - 1]);
            }
        }
        let la = a.drop_last();
        let lb = b.drop_last();
        assert(strictly_ascending(la)) by {
            assert(forall|i: int, j: int|
                0 <= i < j < la.len() ==> la[i] == a[i] && la[j] == a[j]);
        }
        assert(strictly_ascending(lb)) by {
            assert(forall|i: int, j: int|
                0 <= i < j < lb.len() ==> lb[i] == b[i] && lb[j] == b[j]);
        }
        assert forall|x: u32| #[trigger] la.contains(x) implies #[trigger] lb.contains(x) by {
            let k = choose|k: int| 0 <= k < la.len() && la[k] == x;
            assert(a[k] == x);
            assert(x < a.last());
            assert(a.contains(x));
            assert(b.contains(x));
            let k2 = choose|k2: int| 0 <= k2 < b.len() && b[k2] == x;
            assert(k2 < b.len() - 1) by {
                if k2 == b.len() - 1 {
                    assert(x == b.last());
                }
            }
            assert(lb[k2] == x);
        }
        assert forall|x: u32| #[trigger] lb.contains(x) implies #[trigger] la.contains(x) by {
            let k = choose|k: int| 0 <= k < lb.len() && lb[k] == x;
            assert(b[k] == x);
            assert(x < b.last());
            assert(b.contains(x));
            assert(a.contains(x));
            let k2 = choose|k2: int| 0 <= k2 < a.len() && a[k2] == x;
            assert(k2 < a.len() - 1) by {
                if k2 == a.len() - 1 {
                    assert(x == a.last());
                }
            }
            assert(la[k2] == x);
        }
        lemma_sorted_distinct_unique(la, lb);
        assert(a =~= b) by {
            assert(la.len() == lb.len());
            assert(forall|i: int| 0 <= i < a.len() - 1 ==> a[i] == la[i] && b[i] == lb[i]);
            assert(a[a.len() - 1] == a.last() && b[b.len() - 1] == b.last());
        }
    }
}

/// Whether two monitor snapshots agree in content.
pub open spec fn monitors_agree(a: Monitor, b: Monitor) -> bool {
    &&& a.device_name@ == b.device_name@
    &&& a.description@ == b.description@
    &&& a.current_width == b.current_width
    &&& a.current_height == b.current_height
    &&& a.current_refresh_rate == b.current_refresh_rate
    &&& a.available_refresh_rates@ == b.available_refresh_rates@
}

/// One device slot gives rise to one monitor snapshot only, up to content.
pub proof fn lemma_monitor_unique(d: DeviceSnapshot, m1: Monitor, m2: Monitor)
    requires
        monitor_matches(d, m1),
        monitor_matches(d, m2),
    ensures
        monitors_agree(m1, m2),
{
    match d.query {
        ModeQuery::Failed => {
            assert(false);
        },
        ModeQuery::Modes { current, all } => {
            assert forall|x: u32|
                #[trigger] m1.available_refresh_rates@.contains(x)
                    <==> #[trigger] m2.available_refresh_rates@.contains(x) by {
                assert(m1.available_refresh_rates@.contains(x) <==> (x > 0 && modes_have_rate(
                    all@,
                    current.width,
                    current.height,
                    x,
                )));
                assert(m2.available_refresh_rates@.contains(x) <==> (x > 0 && modes_have_rate(
                    all@,
                    current.width,
                    current.height,
                    x,
                )));
            }
            lemma_sorted_distinct_unique(
                m1.available_refresh_rates@,
                m2.available_refresh_rates@,
            );
        },
    }
}

/// Law: two enumerations of one and the same registry pass yield monitor
/// lists equal in content, monitor for monitor.
pub proof fn lemma_enumeration_deterministic(
    devices: Seq<DeviceSnapshot>,
    m1: Seq<Monitor>,
    m2: Seq<Monitor>,
)
    requires
        enumeration_matches(devices, m1),
        enumeration_matches(devices, m2),
    ensures
        m1.len() == m2.len(),
        forall|j: int| 0 <= j < m1.len() ==> #[trigger] monitors_agree(m1[j], m2[j]),
{
    assert forall|j: int| 0 <= j < m1.len() implies #[trigger] monitors_agree(m1[j], m2[j]) by {
        lemma_monitor_unique(kept_devices(devices)[j], m1[j], m2[j]);
    }
}

impl Monitor {
    /// Assembles the snapshot of one monitor from its identifier, its
    /// description, its currently active mode — positive in every field, as
    /// the data model demands — and the modes the OS enumerates for it.
    /// Modes at other resolutions than the current one are discarded; the
    /// current mode's rate is not forced into the available list when the OS
    /// omits it.
    pub fn from_modes(
        device_name: String,
        description: String,
        current: ModeRecord,
        modes: &Vec<ModeRecord>,
    ) -> (m: Monitor)
        requires
            mode_is_positive(current),
        ensures
            m.wf(),
            m.device_name == device_name,
            m.description == description,
            m.current_width == current.width,
            m.current_height == current.height,
            m.current_refresh_rate == current.refresh_rate,
            rates_complete(m.available_refresh_rates@, modes@, current.width, current.height),
    {
        let available_refresh_rates = collect_refresh_rates(modes, current.width, current.height);
        proof {
            assert forall|i: int|
                0 <= i < available_refresh_rates@.len() implies (
            #[trigger] available_refresh_rates@[i]) > 0 by {
                assert(available_refresh_rates@.contains(available_refresh_rates@[i]));
            }
        }
        Monitor {
            device_name,
            description,
            current_width: current.width,
            current_height: current.height,
            current_refresh_rate: current.refresh_rate,
            available_refresh_rates,
        }
    }

    /// Inspects one device slot: decodes its identifier and description and
    /// assembles its monitor snapshot.  A device whose mode query failed, or
    /// whose reported current mode has a zero width, height or rate and so
    /// is no real mode, is a hard error for that device — no data is
    /// fabricated; the error names the device.
    pub fn inspect(record: &DeviceRecord, query: &ModeQuery) -> (r: Result<Monitor, MonitorError>)
        ensures
            r is Ok <==> query_usable(*query),
            r matches Ok(m) ==> m.wf() && monitor_matches(
                DeviceSnapshot { record: *record, query: *query },
                m,
            ),
            r matches Err(e) ==> e matches MonitorError::DeviceQueryFailure { device_name }
                && device_name@ == utf16_decode_of(null_terminated_prefix(record.name@)),
    {
        match query {
            ModeQuery::Failed => Err(MonitorError::DeviceQueryFailure {
                device_name: wide_string_to_string(record.name.as_slice()),
            }),
            ModeQuery::Modes { current, all } => {
                if current.width > 0 && current.height > 0 && current.refresh_rate > 0 {
                    let device_name = wide_string_to_string(record.name.as_slice());
                    let description = wide_string_to_string(record.description.as_slice());
                    Ok(Monitor::from_modes(device_name, description, *current, all))
                } else {
                    Err(MonitorError::DeviceQueryFailure {
                        device_name: wide_string_to_string(record.name.as_slice()),
                    })
                }
            },
        }
    }

    /// Turns one full pass over the OS's display-device registry into the
    /// list of active monitors: devices not attached to the desktop and
    /// devices whose mode query failed or yielded no usable mode are left
    /// out, every other device becomes one snapshot, in slot order.
    pub fn enumerate_monitors(devices: &Vec<DeviceSnapshot>) -> (monitors: Vec<Monitor>)
        ensures
            enumeration_matches(devices@, monitors@),
            forall|j: int| 0 <= j < monitors@.len() ==> (#[trigger] monitors@[j]).wf(),
    {
        let mut monitors: Vec<Monitor> = Vec::new();
        let mut i: usize = 0;
        while i < devices.len()
            invariant
                0 <= i <= devices@.len(),
                enumeration_matches(devices@.subrange(0, i as int), monitors@),
                forall|j: int| 0 <= j < monitors@.len() ==> (#[trigger] monitors@[j]).wf(),
            decreases devices@.len() - i,
        {
            let ghost prefix = devices@.subrange(0, i as int);
            let d = &devices[i];
            let attached = d.record.state_flags & ATTACHED_TO_DESKTOP != 0;
            if attached {
                match Monitor::inspect(&d.record, &d.query) {
                    Ok(m) => {
                        assert(monitor_matches(devices@[i as int], m));
                        monitors.push(m);
                    },
                    Err(_) => {},
                }
            }
            proof {
                lemma_kept_devices_push(prefix, devices@[i as int]);
                assert(devices@.subrange(0, i + 1 as int) =~= prefix.push(devices@[i as int]));
            }
            i += 1;
        }
        proof {
            assert(devices@.subrange(0, devices@.len() as int) =~= devices@);
        }
        monitors
    }

    /// Validates a requested refresh rate against this snapshot and, when it
    /// is available, builds the mode-change request to submit: the current
    /// resolution unchanged, only the rate set, the change persisted.  When
    /// the rate is not available, no request exists and the error lists the
    /// rejected value and the valid alternatives.
    pub fn plan_refresh_rate_change(&self, refresh_rate: u32) -> (r: Result<ModeChangeRequest, MonitorError>)
        ensures
            r is Ok <==> self.available_refresh_rates@.contains(refresh_rate),
            r matches Ok(req) ==> {
                &&& req.device_name@ == self.device_name@
                &&& req.width == self.current_width
                &&& req.height == self.current_height
                &&& req.refresh_rate == refresh_rate
                &&& req.persist == true
            },
            r matches Err(e) ==> e matches MonitorError::UnsupportedRate { requested, available, description }
                && requested == refresh_rate
                && available@ == self.available_refresh_rates@
                && description@ == self.description@,
    {
        if !rates_contain(&self.available_refresh_rates, refresh_rate) {
            return Err(MonitorError::UnsupportedRate {
                requested: refresh_rate,
                available: copy_rates(&self.available_refresh_rates),
                description: self.description.clone(),
            });
        }
        Ok(ModeChangeRequest {
            device_name: self.device_name.clone(),
            width: self.current_width,
            height: self.current_height,
            refresh_rate,
            persist: true,
        })
    }

    /// Reads the status code the OS returned for a submitted mode change:
    /// exactly one code means success, every other code is surfaced as a
    /// rejection that embeds the code.
    pub fn interpret_change_status(&self, refresh_rate: u32, code: i32) -> (r: Result<(), MonitorError>)
        ensures
            r is Ok <==> code == CHANGE_SUCCESSFUL,
            r matches Err(e) ==> e matches MonitorError::MutationRejected { requested, code: c, description }
                && requested == refresh_rate
                && c == code
                && description@ == self.description@,
    {
        if code == CHANGE_SUCCESSFUL {
            Ok(())
        } else {
            Err(MonitorError::MutationRejected {
                requested: refresh_rate,
                code,
                description: self.description.clone(),
            })
        }
    }
}

} // verus!
