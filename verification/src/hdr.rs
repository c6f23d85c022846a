//! Which monitors have HDR switched on, and a short-lived memory of it.
//!
//! The caller asks the system for its monitors and for its active display
//! paths. The functions here match the two by device name, read the HDR state
//! out of the answers, and remember it per monitor for a few seconds, so that
//! not every question costs an enumeration.

use std::collections::HashMap;
use vstd::prelude::*;

verus! {

/// Seconds for which a remembered HDR state is taken for current.
pub const CACHE_TTL_SECS: u64 = 5;

/// Nanoseconds in a second.
pub const NANOS_PER_SEC: u64 = 1_000_000_000;

/// Why the HDR state of a monitor is not known.
#[derive(Debug, Clone, Copy, PartialEq, Eq, Structural)]
pub enum HdrError {
    /// The system reported no monitor.
    NoMonitors,
    /// The monitor asked for is not among those the system reported.
    MonitorNotFound,
}

/// A monitor as the system lists it.
pub struct RawMonitorInfo {
    pub handle: isize,
    /// Device name, such as `\\.\DISPLAY1`.
    pub device_name: String,
    pub is_primary: bool,
    pub width: u32,
    pub height: u32,
}

/// What the system answered about one active display path. A query that
/// failed is `None`.
pub struct DisplayPath {
    /// Device name of the path's source.
    pub source_name: Option<String>,
    /// The flags word of the path's advanced color state.
    pub advanced_color: Option<u32>,
}

/// A monitor and its HDR state.
#[derive(Debug, Clone)]
pub struct MonitorInfo {
    /// The monitor's handle, as a plain number.
    pub handle_ptr: isize,
    /// Device name, such as `\\.\DISPLAY1`.
    pub name: String,
    /// Whether this is the primary monitor.
    pub is_primary: bool,
    /// Width in pixels.
    pub width: u32,
    /// Height in pixels.
    pub height: u32,
    /// Whether HDR is supported and switched on.
    pub is_hdr: bool,
}

/// A remembered HDR state and the time it was learnt, on a monotonic clock.
#[derive(Debug, Clone, Copy, PartialEq, Eq, Structural)]
pub struct CacheEntry {
    pub is_hdr: bool,
    pub timestamp_ns: u64,
}

/// The HDR states remembered, by monitor handle.
pub struct HdrCache {
    entries: HashMap<isize, CacheEntry>,
}

/// Whether the flags word of an advanced color state says that advanced color
/// is enabled: that is its second-lowest bit.
pub open spec fn spec_advanced_color_enabled(value: u32) -> bool {
    (value / 2) % 2 == 1
}

/// The HDR state that a display path reports; a path whose state could not be
/// read counts as not HDR.
pub open spec fn spec_path_hdr(path: DisplayPath) -> bool {
    match path.advanced_color {
        Some(value) => spec_advanced_color_enabled(value),
        None => false,
    }
}

/// The HDR state of the device `name` according to `paths`: that of the last
/// path whose source has this name, and not HDR if there is none.
pub open spec fn spec_device_hdr(paths: Seq<DisplayPath>, name: Seq<char>) -> bool
    decreases paths.len(),
{
    if paths.len() == 0 {
        false
    } else if paths.last().source_name is Some && paths.last().source_name->0@ == name {
        spec_path_hdr(paths.last())
    } else {
        spec_device_hdr(paths.drop_last(), name)
    }
}

/// Whether an entry learnt at `timestamp_ns` is still current at `now_ns`:
/// fewer than `CACHE_TTL_SECS` whole seconds have passed.
pub open spec fn spec_is_current(timestamp_ns: u64, now_ns: u64) -> bool {
    now_ns <= timestamp_ns || (now_ns - timestamp_ns) / (NANOS_PER_SEC as int) < CACHE_TTL_SECS
}

/// The cache after the first `n` of `monitors` were recorded at `now_ns` with
/// their state according to `paths`.
pub open spec fn spec_recorded(
    cache: Map<isize, CacheEntry>,
    monitors: Seq<RawMonitorInfo>,
    paths: Seq<DisplayPath>,
    now_ns: u64,
    n: nat,
) -> Map<isize, CacheEntry>
    decreases n,
{
    if n == 0 {
        cache
    } else {
        let monitor = monitors[n - 1];
        spec_recorded(cache, monitors, paths, now_ns, (n - 1) as nat).insert(
            monitor.handle,
            CacheEntry {
                is_hdr: spec_device_hdr(paths, monitor.device_name@),
                timestamp_ns: now_ns,
            },
        )
    }
}

/// Read the flag "advanced color enabled" out of the flags word.
pub fn advanced_color_enabled(value: u32) -> (enabled: bool)
    ensures
        enabled == spec_advanced_color_enabled(value),
{
    assert(((value >> 1) & 1 == 1) == ((value / 2) % 2 == 1)) by (bit_vector);
    (value >> 1) & 1 == 1
}

/// The HDR state of the device `name` according to the display paths.
pub fn device_hdr(paths: &Vec<DisplayPath>, name: &String) -> (hdr: bool)
    ensures
        hdr == spec_device_hdr(paths@, name@),
{
    let mut n: usize = paths.len();
    assert(paths@.take(n as int) =~= paths@);
    while n > 0
        invariant
            n <= paths@.len(),
            spec_device_hdr(paths@, name@) == spec_device_hdr(paths@.take(n as int), name@),
        decreases n,
    {
        let path = &paths[n - 1];
        assert(paths@.take(n as int).last() == paths@[n - 1]);
        assert(paths@.take(n as int).drop_last() =~= paths@.take(n - 1));
        match &path.source_name {
            Some(source) => {
                if *source == *name {
                    return match path.advanced_color {
                        Some(value) => advanced_color_enabled(value),
                        None => false,
                    };
                }
            },
            None => {},
        }
        n -= 1;
    }
    false
}

impl MonitorInfo {
    /// The monitor's handle.
    pub open spec fn spec_handle(&self) -> isize {
        self.handle_ptr
    }

    /// Describe a monitor.
    pub fn new(
        handle: isize,
        name: String,
        is_primary: bool,
        width: u32,
        height: u32,
        is_hdr: bool,
    ) -> (info: MonitorInfo)
        ensures
            info.spec_handle() == handle,
            info.name == name,
            info.is_primary == is_primary,
            info.width == width,
            info.height == height,
            info.is_hdr == is_hdr,
    {
        MonitorInfo { handle_ptr: handle, name, is_primary, width, height, is_hdr }
    }

    /// The monitor's handle.
    pub fn handle(&self) -> (handle: isize)
        ensures
            handle == self.spec_handle(),
    {
        self.handle_ptr
    }
}

impl View for HdrCache {
    type V = Map<isize, CacheEntry>;

    closed spec fn view(&self) -> Map<isize, CacheEntry> {
        self.entries@
    }
}

impl HdrCache {
    /// What the cache answers for `monitor` at `now_ns`: the remembered state
    /// if there is one and it is still current.
    pub open spec fn spec_lookup(&self, monitor: isize, now_ns: u64) -> Option<bool> {
        if self@.contains_key(monitor) && spec_is_current(self@[monitor].timestamp_ns, now_ns) {
            Some(self@[monitor].is_hdr)
        } else {
            None
        }
    }

    /// A cache that remembers nothing.
    pub fn new() -> (cache: HdrCache)
        ensures
            cache@ == Map::<isize, CacheEntry>::empty(),
    {
        HdrCache { entries: HashMap::new() }
    }

    /// Number of monitors remembered.
    pub fn len(&self) -> (n: usize)
        ensures
            n == self@.len(),
    {
        self.entries.len()
    }

    /// The state remembered for `monitor`, if it is still current at `now_ns`.
    pub fn lookup(&self, monitor: isize, now_ns: u64) -> (state: Option<bool>)
        ensures
            state == self.spec_lookup(monitor, now_ns),
    {
        broadcast use vstd::std_specs::hash::group_hash_axioms;

        match self.entries.get(&monitor) {
            Some(entry) => {
                let current: bool = now_ns <= entry.timestamp_ns || (now_ns - entry.timestamp_ns)
                    / NANOS_PER_SEC < CACHE_TTL_SECS;
                if current {
                    Some(entry.is_hdr)
                } else {
                    None
                }
            },
            None => None,
        }
    }

    /// The state remembered for `monitor`, however old.
    pub fn peek(&self, monitor: isize) -> (state: Option<bool>)
        ensures
            state == (if self@.contains_key(monitor) {
                Some(self@[monitor].is_hdr)
            } else {
                None
            }),
    {
        broadcast use vstd::std_specs::hash::group_hash_axioms;

        match self.entries.get(&monitor) {
            Some(entry) => Some(entry.is_hdr),
            None => None,
        }
    }

    /// Remember the state of `monitor` as learnt at `now_ns`.
    pub fn record(&mut self, monitor: isize, is_hdr: bool, now_ns: u64)
        ensures
            final(self)@ == old(self)@.insert(monitor, CacheEntry { is_hdr, timestamp_ns: now_ns }),
    {
        broadcast use vstd::std_specs::hash::group_hash_axioms;

        self.entries.insert(monitor, CacheEntry { is_hdr, timestamp_ns: now_ns });
    }

    /// Forget everything.
    pub fn clear(&mut self)
        ensures
            final(self)@ == Map::<isize, CacheEntry>::empty(),
    {
        broadcast use vstd::std_specs::hash::group_hash_axioms;

        self.entries.clear();
    }
}

/// Forget every remembered HDR state, so that the next question asks the
/// system again. For use after the user has switched HDR on or off.
pub fn clear_hdr_cache(cache: &mut HdrCache)
    ensures
        final(cache)@ == Map::<isize, CacheEntry>::empty(),
        forall|monitor: isize, now_ns: u64| final(cache).spec_lookup(monitor, now_ns) is None,
{
    cache.clear();
}

/// List the monitors with their HDR state and remember the states.
///
/// `monitors` are the monitors as the system lists them, `paths` its active
/// display paths. A monitor is HDR if the last path whose source has the
/// monitor's device name says so. Every monitor listed is recorded in the
/// cache at `now_ns`. Fails, and records nothing, if no monitor is listed.
pub fn enumerate_monitors(
    monitors: &Vec<RawMonitorInfo>,
    paths: &Vec<DisplayPath>,
    cache: &mut HdrCache,
    now_ns: u64,
) -> (listed: Result<Vec<MonitorInfo>, HdrError>)
    ensures
        monitors@.len() == 0 ==> listed == Err::<Vec<MonitorInfo>, HdrError>(HdrError::NoMonitors)
            && final(cache)@ == old(cache)@,
        monitors@.len() > 0 ==> listed is Ok && final(cache)@ == spec_recorded(
            old(cache)@,
            monitors@,
            paths@,
            now_ns,
            monitors@.len(),
        ),
        listed matches Ok(infos) ==> {
            &&& infos@.len() == monitors@.len()
            &&& forall|i: int|
                0 <= i < infos@.len() ==> {
                    &&& (#[trigger] infos@[i]).spec_handle() == monitors@[i].handle
                    &&& infos@[i].name@ == monitors@[i].device_name@
                    &&& infos@[i].is_primary == monitors@[i].is_primary
                    &&& infos@[i].width == monitors@[i].width
                    &&& infos@[i].height == monitors@[i].height
                    &&& infos@[i].is_hdr == spec_device_hdr(paths@, monitors@[i].device_name@)
                }
        },
{
    if monitors.len() == 0 {
        return Err(HdrError::NoMonitors);
    }
    let mut infos: Vec<MonitorInfo> = Vec::with_capacity(monitors.len());
    let mut i: usize = 0;
    while i < monitors.len()
        invariant
            i <= monitors@.len(),
            infos@.len() == i,
            cache@ == spec_recorded(old(cache)@, monitors@, paths@, now_ns, i as nat),
            forall|k: int|
                0 <= k < i ==> {
                    &&& (#[trigger] infos@[k]).spec_handle() == monitors@[k].handle
                    &&& infos@[k].name@ == monitors@[k].device_name@
                    &&& infos@[k].is_primary == monitors@[k].is_primary
                    &&& infos@[k].width == monitors@[k].width
                    &&& infos@[k].height == monitors@[k].height
                    &&& infos@[k].is_hdr == spec_device_hdr(paths@, monitors@[k].device_name@)
                },
        decreases monitors@.len() - i,
    {
        let monitor = &monitors[i];
        let is_hdr: bool = device_hdr(paths, &monitor.device_name);
        cache.record(monitor.handle, is_hdr, now_ns);
        infos.push(
            MonitorInfo::new(
                monitor.handle,
                monitor.device_name.clone(),
                monitor.is_primary,
                monitor.width,
                monitor.height,
                is_hdr,
            ),
        );
        i += 1;
    }
    Ok(infos)
}

/// Answer from the cache whether `monitor` is in HDR mode: the remembered
/// state, if it is still current at `now_ns`. `None` means that the monitors
/// must be enumerated anew.
pub fn is_monitor_hdr(cache: &HdrCache, monitor: isize, now_ns: u64) -> (state: Option<bool>)
    ensures
        state == cache.spec_lookup(monitor, now_ns),
{
    cache.lookup(monitor, now_ns)
}

/// Answer whether `monitor` is in HDR mode once the monitors have been
/// enumerated anew: what was recorded for it, or an error if it was not among
/// them.
pub fn monitor_hdr_after_refresh(cache: &HdrCache, monitor: isize) -> (state: Result<bool, HdrError>)
    ensures
        cache@.contains_key(monitor) ==> state == Ok::<bool, HdrError>(cache@[monitor].is_hdr),
        !cache@.contains_key(monitor) ==> state == Err::<bool, HdrError>(HdrError::MonitorNotFound),
{
    match cache.peek(monitor) {
        Some(is_hdr) => Ok(is_hdr),
        None => Err(HdrError::MonitorNotFound),
    }
}

/// The platform's code of the color space of an HDR10 output: full-range RGB
/// with the PQ transfer curve and BT.2020 primaries.
pub const DXGI_COLOR_SPACE_RGB_FULL_G2084_NONE_P2020: u32 = 12;

/// One output of the graphics adapter.
#[derive(Debug, Clone, Copy, PartialEq, Eq, Structural)]
pub struct OutputDesc {
    /// Handle of the monitor that the output drives.
    pub monitor: isize,
    /// Code of the output's color space; `None` if the output cannot tell.
    pub color_space: Option<u32>,
}

/// Whether the first of `outputs` that drives `monitor` is in the HDR color
/// space. A monitor that no output drives, and an output that cannot tell its
/// color space, count as not HDR.
pub open spec fn spec_target_is_hdr(outputs: Seq<OutputDesc>, monitor: isize) -> bool
    decreases outputs.len(),
{
    if outputs.len() == 0 {
        false
    } else if outputs.first().monitor == monitor {
        outputs.first().color_space == Some(DXGI_COLOR_SPACE_RGB_FULL_G2084_NONE_P2020)
    } else {
        spec_target_is_hdr(outputs.drop_first(), monitor)
    }
}

/// Decide from the adapter's outputs whether the target's monitor has HDR
/// active: the output that drives the monitor is in the HDR10 color space.
/// Without a monitor (`None`) the answer is no.
pub fn target_is_hdr(outputs: &Vec<OutputDesc>, monitor: Option<isize>) -> (hdr: bool)
    ensures
        monitor matches Some(m) ==> hdr == spec_target_is_hdr(outputs@, m),
        monitor is None ==> !hdr,
{
    let target: isize = match monitor {
        Some(m) => m,
        None => {
            return false;
        },
    };
    let mut i: usize = 0;
    assert(outputs@.skip(0) =~= outputs@);
    while i < outputs.len()
        invariant
            i <= outputs@.len(),
            monitor == Some(target),
            spec_target_is_hdr(outputs@, target) == spec_target_is_hdr(
                outputs@.skip(i as int),
                target,
            ),
        decreases outputs@.len() - i,
    {
        let output = outputs[i];
        assert(outputs@.skip(i as int).first() == outputs@[i as int]);
        assert(outputs@.skip(i as int).drop_first() =~= outputs@.skip(i as int + 1));
        if output.monitor == target {
            return match output.color_space {
                Some(code) => code == DXGI_COLOR_SPACE_RGB_FULL_G2084_NONE_P2020,
                None => false,
            };
        }
        i += 1;
    }
    false
}

} // verus!
