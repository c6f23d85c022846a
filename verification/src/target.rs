//! Choosing what to capture: a monitor by its index, a window by handle,
//! process id or process name.
//!
//! The caller takes a snapshot of the monitors, processes and windows of the
//! system; the functions here pick the target from the snapshot. Windows of
//! the wanted processes are ranked, the most likely main window first.

use vstd::prelude::*;

use crate::geometry::Rect;

verus! {

/// Why no target was found.
#[derive(Debug, Clone, Copy, PartialEq, Eq, Structural)]
pub enum TargetError {
    /// Neither a handle nor a process id nor a process name was given.
    NoSelector,
    /// The handle given is not a window.
    InvalidWindow,
    /// No running process has the name given.
    NoProcess,
    /// The processes have no window.
    NoCandidates,
    /// There are only `found` windows, so none has index `index`.
    WindowIndexOutOfRange { index: usize, found: usize },
    /// The system has no monitor.
    NoMonitors,
    /// There are only `found` monitors, so none has index `index`.
    MonitorIndexOutOfRange { index: usize, found: usize },
}

/// What is captured: a monitor or a window, by its handle.
#[derive(Debug, Clone, Copy, PartialEq, Eq, Structural)]
pub enum CaptureTarget {
    /// Monitor capture
    Monitor(isize),
    /// Window capture
    Window(isize),
}

impl CaptureTarget {
    /// Whether the target is a window.
    pub fn is_window(&self) -> (window: bool)
        ensures
            window == (self is Window),
    {
        match self {
            CaptureTarget::Window(_) => true,
            CaptureTarget::Monitor(_) => false,
        }
    }

    /// The window's handle, if the target is a window.
    pub fn window_handle(&self) -> (handle: Option<isize>)
        ensures
            handle == (match *self {
                CaptureTarget::Window(hwnd) => Some(hwnd),
                CaptureTarget::Monitor(_) => None,
            }),
    {
        match self {
            CaptureTarget::Window(hwnd) => Some(*hwnd),
            CaptureTarget::Monitor(_) => None,
        }
    }
}

/// How to find the window to capture.
pub enum WindowSelector {
    /// By window handle.
    Hwnd(isize),
    /// By the id of the process that owns it.
    Pid(u32),
    /// By the executable name of the process that owns it.
    Process(String),
}

/// One process of the snapshot.
pub struct ProcessEntry {
    pub pid: u32,
    /// File name of the executable.
    pub exe_name: String,
}

/// One top-level window of the snapshot.
#[derive(Debug, Clone, Copy, PartialEq, Eq)]
pub struct WindowEntry {
    pub hwnd: isize,
    /// Id of the owning process; zero if unknown.
    pub pid: u32,
    pub visible: bool,
    pub minimized: bool,
    /// The window is a tool window.
    pub tool: bool,
    /// The window's rectangle on screen, if it could be had.
    pub rect: Option<Rect>,
}

/// A window with the numbers it is ranked by.
#[derive(Debug, Clone, Copy, PartialEq, Eq, Structural)]
pub struct WindowCandidate {
    pub hwnd: isize,
    pub score: i64,
    pub area: i64,
}

/// Area of a window's rectangle; zero for a rectangle turned inside out or
/// unknown. Areas beyond `i64::MAX` count as `i64::MAX`.
pub open spec fn spec_area(rect: Option<Rect>) -> int {
    match rect {
        Some(r) => {
            let w = if r.right > r.left {
                r.right - r.left
            } else {
                0
            };
            let h = if r.bottom > r.top {
                r.bottom - r.top
            } else {
                0
            };
            if w * h > i64::MAX {
                i64::MAX as int
            } else {
                w * h
            }
        },
        None => 0,
    }
}

/// Score of a window: 10000 if visible, 3000 if no tool window, 1000 if not
/// minimized, and one point for every 10000 pixels of area up to 5000 points.
pub open spec fn spec_score(window: WindowEntry) -> int {
    let bonus = spec_area(window.rect) / 10_000;
    (if window.visible {
        10_000int
    } else {
        0
    }) + (if !window.tool {
        3_000int
    } else {
        0
    }) + (if !window.minimized {
        1_000int
    } else {
        0
    }) + (if bonus > 5_000 {
        5_000
    } else {
        bonus
    })
}

/// The candidate that a window makes.
pub open spec fn spec_candidate(window: WindowEntry) -> WindowCandidate {
    WindowCandidate {
        hwnd: window.hwnd,
        score: spec_score(window) as i64,
        area: spec_area(window.rect) as i64,
    }
}

/// Whether `a` ranks strictly before `b`: by the higher score, then by the
/// larger area, then by the smaller handle.
pub open spec fn spec_ranks_before(a: WindowCandidate, b: WindowCandidate) -> bool {
    a.score > b.score || (a.score == b.score && (a.area > b.area || (a.area == b.area && a.hwnd
        < b.hwnd)))
}

/// Whether no candidate of `ranked` stands behind one that it ranks before.
pub open spec fn spec_is_ranked(ranked: Seq<WindowCandidate>) -> bool {
    forall|i: int, j: int|
        0 <= i < j < ranked.len() ==> !spec_ranks_before(#[trigger] ranked[j], #[trigger] ranked[i])
}

/// The ranking of `candidates`: the same candidates, each as often, with none
/// behind one that it ranks before. There is exactly one such sequence.
pub open spec fn spec_ranking(candidates: Seq<WindowCandidate>) -> Seq<WindowCandidate> {
    choose|ranked: Seq<WindowCandidate>|
        spec_is_ranked(ranked) && ranked.to_multiset() == candidates.to_multiset()
}

/// The handles of the windows of the processes `pids`, the best candidate
/// first.
pub open spec fn spec_ranked_windows(pids: Seq<u32>, windows: Seq<WindowEntry>) -> Seq<isize> {
    spec_handles(spec_ranking(spec_candidates(pids, windows)))
}

/// The handles of the windows of the processes named `process`, the best
/// candidate first.
pub open spec fn spec_process_windows(
    processes: Seq<ProcessEntry>,
    process: Seq<char>,
    windows: Seq<WindowEntry>,
) -> Seq<isize> {
    spec_handles(spec_ranking(spec_process_candidates(processes, process, windows)))
}

/// The candidates among `windows`, in the order of the snapshot: the windows
/// of the processes named `process`.
pub open spec fn spec_process_candidates(
    processes: Seq<ProcessEntry>,
    process: Seq<char>,
    windows: Seq<WindowEntry>,
) -> Seq<WindowCandidate> {
    windows.filter(
        |w: WindowEntry| w.pid != 0 && spec_is_pid_of(processes, process, w.pid),
    ).map_values(|w: WindowEntry| spec_candidate(w))
}

/// Whether `ranked` is the ranking of `candidates`: it is ranked and holds the
/// same candidates, each as often.
pub open spec fn spec_ranks(ranked: Seq<WindowCandidate>, candidates: Seq<WindowCandidate>) -> bool {
    &&& spec_is_ranked(ranked)
    &&& ranked.to_multiset() == candidates.to_multiset()
    &&& ranked.len() == candidates.len()
}

/// Whether a window belongs to one of the processes `pids`.
pub open spec fn spec_owned(pids: Seq<u32>, window: WindowEntry) -> bool {
    window.pid != 0 && pids.contains(window.pid)
}

/// The candidates among `windows`, in the order of the snapshot: the windows
/// of the processes `pids`.
pub open spec fn spec_candidates(pids: Seq<u32>, windows: Seq<WindowEntry>) -> Seq<
    WindowCandidate,
> {
    windows.filter(|w: WindowEntry| spec_owned(pids, w)).map_values(
        |w: WindowEntry| spec_candidate(w),
    )
}

/// The handles of candidates, in their order.
pub open spec fn spec_handles(candidates: Seq<WindowCandidate>) -> Seq<isize> {
    candidates.map_values(|c: WindowCandidate| c.hwnd)
}

/// The entry at `index` of a list of `found` entries, as a result.
pub open spec fn spec_pick(handles: Seq<isize>, index: Option<usize>) -> Result<isize, TargetError> {
    let idx = match index {
        Some(i) => i,
        None => 0usize,
    };
    if handles.len() == 0 {
        Err(TargetError::NoCandidates)
    } else if idx < handles.len() {
        Ok(handles[idx as int])
    } else {
        Err(TargetError::WindowIndexOutOfRange { index: idx, found: handles.len() as usize })
    }
}

/// Area of a window's rectangle.
pub fn window_area(rect: Option<Rect>) -> (area: i64)
    ensures
        area == spec_area(rect),
        area >= 0,
{
    match rect {
        Some(r) => {
            let w: u64 = if r.right > r.left {
                (r.right as i64 - r.left as i64) as u64
            } else {
                0
            };
            let h: u64 = if r.bottom > r.top {
                (r.bottom as i64 - r.top as i64) as u64
            } else {
                0
            };
            assert(w * h <= 0xFFFF_FFFF * 0xFFFF_FFFF) by (nonlinear_arith)
                requires
                    0 <= w <= 0xFFFF_FFFF,
                    0 <= h <= 0xFFFF_FFFF,
            ;
            assert(w * h >= 0) by (nonlinear_arith)
                requires
                    0 <= w,
                    0 <= h,
            ;
            let product: u64 = w * h;
            if product > i64::MAX as u64 {
                i64::MAX
            } else {
                product as i64
            }
        },
        None => 0,
    }
}

/// Score of a window by how likely it is the one meant.
pub fn window_score(window: &WindowEntry) -> (score: i64)
    ensures
        score == spec_score(*window),
        0 <= score <= 19_000,
{
    let area: i64 = window_area(window.rect);
    let bonus: i64 = area / 10_000;
    let mut score: i64 = 0;
    if window.visible {
        score += 10_000;
    }
    if !window.tool {
        score += 3_000;
    }
    if !window.minimized {
        score += 1_000;
    }
    if bonus > 5_000 {
        score += 5_000;
    } else {
        score += bonus;
    }
    score
}

/// Whether `a` ranks strictly before `b`.
pub fn ranks_before(a: &WindowCandidate, b: &WindowCandidate) -> (before: bool)
    ensures
        before == spec_ranks_before(*a, *b),
{
    a.score > b.score || (a.score == b.score && (a.area > b.area || (a.area == b.area && a.hwnd
        < b.hwnd)))
}

proof fn lemma_insert_multiset(s: Seq<WindowCandidate>, at: int, c: WindowCandidate)
    requires
        0 <= at <= s.len(),
    ensures
        s.insert(at, c).to_multiset() =~= s.to_multiset().insert(c),
{
    broadcast use vstd::seq_lib::group_to_multiset_ensures;

    let t = s.insert(at, c);
    assert(t.remove(at) =~= s);
    assert(t[at] == c);
    assert(t.remove(at).to_multiset() =~= t.to_multiset().remove(t[at]));
    assert(t.contains(c));
    assert(t.to_multiset().count(c) > 0);
}

/// Rank candidates: the result holds the same candidates, each as often as
/// the input, and none stands behind one that it ranks before.
pub fn rank_candidates(candidates: &Vec<WindowCandidate>) -> (ranked: Vec<WindowCandidate>)
    ensures
        ranked@ == spec_ranking(candidates@),
        spec_is_ranked(ranked@),
        ranked@.to_multiset() == candidates@.to_multiset(),
        ranked@.len() == candidates@.len(),
{
    let mut ranked: Vec<WindowCandidate> = Vec::new();
    let mut n: usize = 0;
    assert(candidates@.take(0) =~= Seq::<WindowCandidate>::empty());
    while n < candidates.len()
        invariant
            n <= candidates@.len(),
            spec_is_ranked(ranked@),
            ranked@.len() == n,
            ranked@.to_multiset() == candidates@.take(n as int).to_multiset(),
        decreases candidates@.len() - n,
    {
        let c: WindowCandidate = candidates[n];
        let mut at: usize = 0;
        while at < ranked.len() && !ranks_before(&c, &ranked[at])
            invariant
                at <= ranked@.len(),
                forall|k: int| 0 <= k < at ==> !spec_ranks_before(c, #[trigger] ranked@[k]),
            decreases ranked@.len() - at,
        {
            at += 1;
        }
        let ghost before = ranked@;
        ranked.insert(at, c);
        proof {
            lemma_insert_multiset(before, at as int, c);
            assert(candidates@.take(n as int + 1) =~= candidates@.take(n as int).push(c));
            broadcast use vstd::seq_lib::group_to_multiset_ensures;

            assert forall|i: int, j: int| 0 <= i < j < ranked@.len() implies !spec_ranks_before(
                #[trigger] ranked@[j],
                #[trigger] ranked@[i],
            ) by {
                if j < at {
                    assert(ranked@[i] == before[i] && ranked@[j] == before[j]);
                } else if j == at {
                    assert(ranked@[i] == before[i]);
                } else if i < at {
                    assert(ranked@[i] == before[i] && ranked@[j] == before[j - 1]);
                } else if i == at {
                    assert(ranked@[j] == before[j - 1]);
                    assert(!spec_ranks_before(before[j - 1], before[at as int]) || j - 1 == at);
                } else {
                    assert(ranked@[i] == before[i - 1] && ranked@[j] == before[j - 1]);
                }
            }
        }
        n += 1;
    }
    assert(candidates@.take(n as int) =~= candidates@);
    proof {
        lemma_ranking_unique(ranked@, spec_ranking(candidates@));
    }
    ranked
}

proof fn lemma_filter_same(
    s: Seq<WindowEntry>,
    p: spec_fn(WindowEntry) -> bool,
    q: spec_fn(WindowEntry) -> bool,
)
    requires
        forall|w: WindowEntry| #[trigger] p(w) == q(w),
    ensures
        s.filter(p) == s.filter(q),
    decreases s.len(),
{
    reveal(Seq::filter);
    if s.len() > 0 {
        lemma_filter_same(s.drop_last(), p, q);
    }
}

proof fn lemma_filter_push(s: Seq<WindowEntry>, pred: spec_fn(WindowEntry) -> bool, w: WindowEntry)
    ensures
        s.push(w).filter(pred) == if pred(w) {
            s.filter(pred).push(w)
        } else {
            s.filter(pred)
        },
{
    reveal(Seq::filter);
    let t = s.push(w);
    assert(t.drop_last() =~= s);
    assert(t.last() == w);
    assert(t.len() > 0);
    assert(t.filter(pred) == if pred(t.last()) {
        t.drop_last().filter(pred).push(t.last())
    } else {
        t.drop_last().filter(pred)
    });
}

/// Candidates have one ranking only: two rankings of the same candidates are
/// the same sequence.
pub proof fn lemma_ranking_unique(a: Seq<WindowCandidate>, b: Seq<WindowCandidate>)
    requires
        spec_is_ranked(a),
        spec_is_ranked(b),
        a.to_multiset() == b.to_multiset(),
    ensures
        a == b,
    decreases a.len(),
{
    broadcast use vstd::seq_lib::group_to_multiset_ensures;

    a.to_multiset_ensures();
    b.to_multiset_ensures();
    assert(a.len() == b.len());
    if a.len() == 0 {
        assert(a =~= b);
    } else {
        let x = a[0];
        let y = b[0];
        assert(a.contains(x));
        assert(b.to_multiset().count(x) > 0);
        assert(b.contains(x));
        let j = choose|j: int| 0 <= j < b.len() && b[j] == x;
        assert(!spec_ranks_before(x, y)) by {
            if j > 0 {
                assert(!spec_ranks_before(b[j], b[0]));
            }
        }
        assert(b.contains(y));
        assert(a.to_multiset().count(y) > 0);
        assert(a.contains(y));
        let i = choose|i: int| 0 <= i < a.len() && a[i] == y;
        assert(!spec_ranks_before(y, x)) by {
            if i > 0 {
                assert(!spec_ranks_before(a[i], a[0]));
            }
        }
        assert(x == y);
        let rest_a = a.remove(0);
        let rest_b = b.remove(0);
        assert(rest_a.to_multiset() =~= a.to_multiset().remove(x));
        assert(rest_b.to_multiset() =~= b.to_multiset().remove(y));
        assert forall|p: int, q: int| 0 <= p < q < rest_a.len() implies !spec_ranks_before(
            #[trigger] rest_a[q],
            #[trigger] rest_a[p],
        ) by {
            assert(rest_a[p] == a[p + 1] && rest_a[q] == a[q + 1]);
        }
        assert forall|p: int, q: int| 0 <= p < q < rest_b.len() implies !spec_ranks_before(
            #[trigger] rest_b[q],
            #[trigger] rest_b[p],
        ) by {
            assert(rest_b[p] == b[p + 1] && rest_b[q] == b[q + 1]);
        }
        lemma_ranking_unique(rest_a, rest_b);
        assert(a =~= seq![x] + rest_a);
        assert(b =~= seq![y] + rest_b);
    }
}

/// Every list of candidates has its ranking: `spec_ranking` is ranked and
/// holds the same candidates, each as often.
pub proof fn lemma_ranking(candidates: Seq<WindowCandidate>)
    ensures
        spec_is_ranked(spec_ranking(candidates)),
        spec_ranking(candidates).to_multiset() == candidates.to_multiset(),
        spec_ranking(candidates).len() == candidates.len(),
        spec_handles(spec_ranking(candidates)).len() == candidates.len(),
{
    let at_or_before = |a: WindowCandidate, b: WindowCandidate| !spec_ranks_before(b, a);
    assert(vstd::relations::total_ordering(at_or_before)) by {
        assert(vstd::relations::reflexive(at_or_before));
        assert(vstd::relations::antisymmetric(at_or_before)) by {
            assert forall|a: WindowCandidate, b: WindowCandidate|
                #[trigger] at_or_before(a, b) && #[trigger] at_or_before(b, a) implies a == b by {
                assert(a.score == b.score && a.area == b.area && a.hwnd == b.hwnd);
            }
        }
        assert(vstd::relations::transitive(at_or_before));
        assert(vstd::relations::strongly_connected(at_or_before));
    }
    candidates.lemma_sort_by_ensures(at_or_before);
    let sorted = candidates.sort_by(at_or_before);
    assert forall|i: int, j: int| 0 <= i < j < sorted.len() implies !spec_ranks_before(
        #[trigger] sorted[j],
        #[trigger] sorted[i],
    ) by {
        assert(at_or_before(sorted[i], sorted[j]));
    }
    assert(spec_is_ranked(sorted) && sorted.to_multiset() == candidates.to_multiset());
    spec_ranking(candidates).to_multiset_ensures();
    candidates.to_multiset_ensures();
}

/// Whether `pid` is one of `pids`.
pub fn contains_pid(pids: &Vec<u32>, pid: u32) -> (found: bool)
    ensures
        found == pids@.contains(pid),
{
    let mut i: usize = 0;
    while i < pids.len()
        invariant
            i <= pids@.len(),
            forall|k: int| 0 <= k < i ==> pids@[k] != pid,
        decreases pids@.len() - i,
    {
        if pids[i] == pid {
            return true;
        }
        i += 1;
    }
    false
}

/// List the windows of the processes `pids`, the best candidate first.
///
/// No window is left out for being hidden, minimized or a tool window: that
/// only lowers its rank.
pub fn enumerate_windows(pids: &Vec<u32>, windows: &Vec<WindowEntry>) -> (handles: Vec<isize>)
    ensures
        handles@ == spec_ranked_windows(pids@, windows@),
        handles@.len() == spec_candidates(pids@, windows@).len(),
        // The list is that of a ranking of the candidates: none is left out,
        // none stands behind one that it ranks before.
        spec_ranks(
            spec_ranking(spec_candidates(pids@, windows@)),
            spec_candidates(pids@, windows@),
        ),
{
    proof {
        lemma_ranking(spec_candidates(pids@, windows@));
    }
    let ghost owned = |w: WindowEntry| spec_owned(pids@, w);
    let ghost candidate = |w: WindowEntry| spec_candidate(w);
    let mut candidates: Vec<WindowCandidate> = Vec::new();
    let mut i: usize = 0;
    assert(windows@.take(0) =~= Seq::<WindowEntry>::empty());
    assert(windows@.take(0).filter(owned) =~= Seq::<WindowEntry>::empty()) by {
        reveal(Seq::filter);
    }
    while i < windows.len()
        invariant
            i <= windows@.len(),
            owned == |w: WindowEntry| spec_owned(pids@, w),
            candidate == |w: WindowEntry| spec_candidate(w),
            candidates@ =~= windows@.take(i as int).filter(owned).map_values(candidate),
        decreases windows@.len() - i,
    {
        let w: WindowEntry = windows[i];
        proof {
            assert(windows@.take(i as int + 1) =~= windows@.take(i as int).push(w));
            lemma_filter_push(windows@.take(i as int), owned, w);
        }
        if w.pid != 0 && contains_pid(pids, w.pid) {
            let area: i64 = window_area(w.rect);
            let score: i64 = window_score(&w);
            candidates.push(WindowCandidate { hwnd: w.hwnd, score, area });
        }
        i += 1;
    }
    assert(windows@.take(i as int) =~= windows@);
    let ranked = rank_candidates(&candidates);
    let mut handles: Vec<isize> = Vec::new();
    let mut k: usize = 0;
    while k < ranked.len()
        invariant
            k <= ranked@.len(),
            handles@ =~= spec_handles(ranked@.take(k as int)),
        decreases ranked@.len() - k,
    {
        assert(ranked@.take(k as int + 1) =~= ranked@.take(k as int).push(ranked@[k as int]));
        handles.push(ranked[k].hwnd);
        k += 1;
    }
    assert(ranked@.take(k as int) =~= ranked@);
    handles
}

/// Pick one window from a ranked list: the one at `index`, or the first if no
/// index is given.
pub fn pick_window(handles: &Vec<isize>, index: Option<usize>) -> (picked: Result<
    isize,
    TargetError,
>)
    ensures
        picked == spec_pick(handles@, index),
{
    if handles.len() == 0 {
        return Err(TargetError::NoCandidates);
    }
    let idx: usize = match index {
        Some(i) => i,
        None => 0,
    };
    if idx < handles.len() {
        Ok(handles[idx])
    } else {
        Err(TargetError::WindowIndexOutOfRange { index: idx, found: handles.len() })
    }
}

/// Find a monitor by its index in the order of enumeration.
pub fn find_monitor(monitors: &Vec<isize>, index: usize) -> (found: Result<isize, TargetError>)
    ensures
        monitors@.len() == 0 ==> found == Err::<isize, TargetError>(TargetError::NoMonitors),
        monitors@.len() > 0 && index < monitors@.len() ==> found == Ok::<isize, TargetError>(
            monitors@[index as int],
        ),
        monitors@.len() > 0 && index >= monitors@.len() ==> found == Err::<isize, TargetError>(
            TargetError::MonitorIndexOutOfRange { index, found: monitors@.len() as usize },
        ),
{
    if monitors.len() == 0 {
        Err(TargetError::NoMonitors)
    } else if index < monitors.len() {
        Ok(monitors[index])
    } else {
        Err(TargetError::MonitorIndexOutOfRange { index, found: monitors.len() })
    }
}

/// Turn the inputs of a window capture into a selector: the handle takes
/// precedence over the process id, and that over the process name. With none
/// of the three there is nothing to select by.
pub fn select_window(process: Option<String>, pid: Option<u32>, hwnd: Option<isize>) -> (selector:
    Result<WindowSelector, TargetError>)
    ensures
        hwnd matches Some(h) ==> (selector matches Ok(WindowSelector::Hwnd(s)) && s == h),
        hwnd is None && pid is Some ==> (selector matches Ok(WindowSelector::Pid(p)) && p
            == pid->0),
        hwnd is None && pid is None && process is Some ==> (selector matches Ok(
            WindowSelector::Process(name),
        ) && name@ == process->0@),
        hwnd is None && pid is None && process is None ==> (selector matches Err(e) && e
            == TargetError::NoSelector),
{
    match hwnd {
        Some(h) => Ok(WindowSelector::Hwnd(h)),
        None => match pid {
            Some(p) => Ok(WindowSelector::Pid(p)),
            None => match process {
                Some(name) => Ok(WindowSelector::Process(name)),
                None => Err(TargetError::NoSelector),
            },
        },
    }
}

/// The lower-case form of a string, as the standard library makes it.
pub uninterp spec fn spec_lowercase(name: Seq<char>) -> Seq<char>;

/// Calls `str::to_lowercase` of the standard library. The contract claims
/// only that the result is a function of the characters of `name`: the same
/// name always has the same lower-case form.
#[verifier::external_body]
fn lowercase(name: &str) -> (lower: String)
    ensures
        lower@ == spec_lowercase(name@),
{
    name.to_lowercase()
}

/// The ids of the processes whose name is exactly `name`, in the order of the
/// snapshot.
pub open spec fn spec_pids_named(processes: Seq<ProcessEntry>, name: Seq<char>) -> Seq<u32> {
    processes.filter(|p: ProcessEntry| p.exe_name@ == name).map_values(|p: ProcessEntry| p.pid)
}

/// Whether a process has the name `process`, whatever the case of the
/// letters.
pub open spec fn spec_process_matches(p: ProcessEntry, process: Seq<char>) -> bool {
    spec_lowercase(p.exe_name@) == spec_lowercase(process)
}

/// Whether `pid` is the id of a process of the snapshot that has the name
/// `process`.
pub open spec fn spec_is_pid_of(processes: Seq<ProcessEntry>, process: Seq<char>, pid: u32) -> bool {
    exists|i: int|
        0 <= i < processes.len() && (#[trigger] processes[i]).pid == pid && spec_process_matches(
            processes[i],
            process,
        )
}

proof fn lemma_pids_named_contains(processes: Seq<ProcessEntry>, name: Seq<char>, pid: u32)
    ensures
        spec_pids_named(processes, name).contains(pid) <==> exists|i: int|
            0 <= i < processes.len() && (#[trigger] processes[i]).pid == pid
                && processes[i].exe_name@ == name,
    decreases processes.len(),
{
    reveal(Seq::filter);
    let named = |p: ProcessEntry| p.exe_name@ == name;
    let pid_of = |p: ProcessEntry| p.pid;
    let all = spec_pids_named(processes, name);
    if processes.len() == 0 {
        assert(all.len() == 0);
    } else {
        let rest = processes.drop_last();
        let last = processes.last();
        let before = spec_pids_named(rest, name);
        lemma_pids_named_contains(rest, name, pid);
        assert(processes.filter(named) == if named(last) {
            rest.filter(named).push(last)
        } else {
            rest.filter(named)
        });
        if named(last) {
            assert(all =~= before.push(last.pid));
        } else {
            assert(all =~= before);
        }
        if all.contains(pid) {
            let k = choose|k: int| 0 <= k < all.len() && all[k] == pid;
            if named(last) && k == all.len() - 1 {
                assert(processes[processes.len() - 1].pid == pid);
            } else {
                assert(before[k] == pid);
                assert(before.contains(pid));
                let i = choose|i: int|
                    0 <= i < rest.len() && (#[trigger] rest[i]).pid == pid && rest[i].exe_name@
                        == name;
                assert(processes[i] == rest[i]);
            }
        }
        if exists|i: int|
            0 <= i < processes.len() && (#[trigger] processes[i]).pid == pid
                && processes[i].exe_name@ == name {
            let i = choose|i: int|
                0 <= i < processes.len() && (#[trigger] processes[i]).pid == pid
                    && processes[i].exe_name@ == name;
            if i == processes.len() - 1 {
                assert(all[all.len() - 1] == pid);
            } else {
                assert(rest[i] == processes[i]);
                assert(before.contains(pid));
                let k = choose|k: int| 0 <= k < before.len() && before[k] == pid;
                assert(all[k] == pid);
            }
        }
    }
}

proof fn lemma_process_filter_push(
    s: Seq<ProcessEntry>,
    pred: spec_fn(ProcessEntry) -> bool,
    p: ProcessEntry,
)
    ensures
        s.push(p).filter(pred) == if pred(p) {
            s.filter(pred).push(p)
        } else {
            s.filter(pred)
        },
{
    reveal(Seq::filter);
    let t = s.push(p);
    assert(t.drop_last() =~= s);
    assert(t.last() == p);
    assert(t.filter(pred) == if pred(t.last()) {
        t.drop_last().filter(pred).push(t.last())
    } else {
        t.drop_last().filter(pred)
    });
}

/// Collect the ids of the processes whose executable name is exactly `name`.
pub fn pids_named(processes: &Vec<ProcessEntry>, name: &String) -> (pids: Vec<u32>)
    ensures
        pids@ == spec_pids_named(processes@, name@),
{
    let ghost named = |p: ProcessEntry| p.exe_name@ == name@;
    let ghost pid_of = |p: ProcessEntry| p.pid;
    let mut pids: Vec<u32> = Vec::new();
    let mut i: usize = 0;
    assert(processes@.take(0) =~= Seq::<ProcessEntry>::empty());
    assert(processes@.take(0).filter(named) =~= Seq::<ProcessEntry>::empty()) by {
        reveal(Seq::filter);
    }
    while i < processes.len()
        invariant
            i <= processes@.len(),
            named == |p: ProcessEntry| p.exe_name@ == name@,
            pid_of == |p: ProcessEntry| p.pid,
            pids@ =~= processes@.take(i as int).filter(named).map_values(pid_of),
        decreases processes@.len() - i,
    {
        proof {
            assert(processes@.take(i as int + 1) =~= processes@.take(i as int).push(
                processes@[i as int],
            ));
            lemma_process_filter_push(processes@.take(i as int), named, processes@[i as int]);
        }
        if processes[i].exe_name == *name {
            pids.push(processes[i].pid);
        }
        i += 1;
    }
    assert(processes@.take(i as int) =~= processes@);
    pids
}

/// Collect the ids of the processes whose executable name is `process`,
/// whatever the case of the letters: both names are compared in lower case.
pub fn get_pids(processes: &Vec<ProcessEntry>, process: &str) -> (pids: Vec<u32>)
    ensures
        forall|pid: u32| pids@.contains(pid) <==> spec_is_pid_of(processes@, process@, pid),
{
    let target: String = lowercase(process);
    let mut lowered: Vec<ProcessEntry> = Vec::new();
    let mut i: usize = 0;
    while i < processes.len()
        invariant
            i <= processes@.len(),
            lowered@.len() == i,
            forall|k: int|
                0 <= k < i ==> (#[trigger] lowered@[k]).pid == processes@[k].pid
                    && lowered@[k].exe_name@ == spec_lowercase(processes@[k].exe_name@),
        decreases processes@.len() - i,
    {
        let name: String = lowercase(processes[i].exe_name.as_str());
        lowered.push(ProcessEntry { pid: processes[i].pid, exe_name: name });
        i += 1;
    }
    let pids = pids_named(&lowered, &target);
    proof {
        assert forall|pid: u32| pids@.contains(pid) <==> spec_is_pid_of(
            processes@,
            process@,
            pid,
        ) by {
            lemma_pids_named_contains(lowered@, target@, pid);
            if pids@.contains(pid) {
                let k = choose|k: int|
                    0 <= k < lowered@.len() && (#[trigger] lowered@[k]).pid == pid
                        && lowered@[k].exe_name@ == target@;
                assert(processes@[k].pid == pid && spec_process_matches(processes@[k], process@));
            }
            if spec_is_pid_of(processes@, process@, pid) {
                let k = choose|k: int|
                    0 <= k < processes@.len() && (#[trigger] processes@[k]).pid == pid
                        && spec_process_matches(processes@[k], process@);
                assert(lowered@[k].pid == pid && lowered@[k].exe_name@ == target@);
            }
        }
    }
    pids
}

/// Accept a window handle if the window system knows it as a window.
pub fn validate_window(hwnd: isize, is_window: bool) -> (valid: Result<isize, TargetError>)
    ensures
        is_window ==> valid == Ok::<isize, TargetError>(hwnd),
        !is_window ==> valid == Err::<isize, TargetError>(TargetError::InvalidWindow),
{
    if is_window {
        Ok(hwnd)
    } else {
        Err(TargetError::InvalidWindow)
    }
}

/// Rank the windows of the processes `pids` and pick the one at `index`.
pub fn pick_ranked_window(pids: &Vec<u32>, windows: &Vec<WindowEntry>, index: Option<usize>) -> (picked:
    Result<isize, TargetError>)
    ensures
        picked == spec_pick(spec_ranked_windows(pids@, windows@), index),
        spec_ranks(
            spec_ranking(spec_candidates(pids@, windows@)),
            spec_candidates(pids@, windows@),
        ),
        spec_candidates(pids@, windows@).len() == 0 ==> picked == Err::<isize, TargetError>(
            TargetError::NoCandidates,
        ),
        picked is Ok <==> (match index {
            Some(i) => i,
            None => 0usize,
        }) < spec_candidates(pids@, windows@).len(),
{
    let handles = enumerate_windows(pids, windows);
    pick_window(&handles, index)
}

/// Find the window that a selector and an optional rank name, in a snapshot
/// of the system.
///
/// A handle is checked and returned as it is. A process id selects among the
/// windows of that process, a process name among the windows of all processes
/// of that name; without an index the best-ranked window is taken.
/// `hwnd_is_window` is the window system's answer for a handle selector.
pub fn find_window(
    selector: &WindowSelector,
    index: Option<usize>,
    hwnd_is_window: bool,
    processes: &Vec<ProcessEntry>,
    windows: &Vec<WindowEntry>,
) -> (found: Result<isize, TargetError>)
    ensures
        selector matches WindowSelector::Hwnd(h) ==> found == (if hwnd_is_window {
            Ok::<isize, TargetError>(*h)
        } else {
            Err::<isize, TargetError>(TargetError::InvalidWindow)
        }),
        selector matches WindowSelector::Pid(pid) ==> found == spec_pick(
            spec_ranked_windows(seq![*pid], windows@),
            index,
        ) && spec_ranks(
            spec_ranking(spec_candidates(seq![*pid], windows@)),
            spec_candidates(seq![*pid], windows@),
        ),
        selector matches WindowSelector::Process(name) ==> spec_ranks(
            spec_ranking(spec_process_candidates(processes@, name@, windows@)),
            spec_process_candidates(processes@, name@, windows@),
        ),
        selector matches WindowSelector::Process(name) ==> found == (if forall|pid: u32|
            !spec_is_pid_of(processes@, name@, pid) {
            Err::<isize, TargetError>(TargetError::NoProcess)
        } else {
            spec_pick(spec_process_windows(processes@, name@, windows@), index)
        }),
        found matches Err(e) ==> e == TargetError::InvalidWindow || e == TargetError::NoProcess
            || e == TargetError::NoCandidates || e is WindowIndexOutOfRange,
{
    proof {
        match selector {
            WindowSelector::Process(name) => {
                lemma_ranking(spec_process_candidates(processes@, name@, windows@));
            },
            _ => {},
        }
    }
    match selector {
        WindowSelector::Hwnd(hwnd) => validate_window(*hwnd, hwnd_is_window),
        WindowSelector::Pid(pid) => {
            let mut pids: Vec<u32> = Vec::new();
            pids.push(*pid);
            assert(pids@ =~= seq![*pid]);
            pick_ranked_window(&pids, windows, index)
        },
        WindowSelector::Process(process) => {
            let pids = get_pids(processes, process.as_str());
            if pids.len() == 0 {
                assert forall|pid: u32| !spec_is_pid_of(processes@, process@, pid) by {
                    assert(!pids@.contains(pid));
                }
                Err(TargetError::NoProcess)
            } else {
                proof {
                    assert(pids@.contains(pids@[0]));
                    assert(spec_is_pid_of(processes@, process@, pids@[0]));
                    lemma_filter_same(
                        windows@,
                        |w: WindowEntry| spec_owned(pids@, w),
                        |w: WindowEntry| w.pid != 0 && spec_is_pid_of(processes@, process@, w.pid),
                    );
                }
                pick_ranked_window(&pids, windows, index)
            }
        },
    }
}

/// Selector inputs that a window capture was given but does not use.
#[derive(Debug, Clone, Copy, PartialEq, Eq, Structural)]
pub enum IgnoredSelectors {
    /// A handle was given: process id and process name are ignored.
    PidAndProcess,
    /// A process id was given: the process name is ignored.
    Process,
}

/// Which of the selector inputs are given in vain, if any: those that a
/// selector of higher precedence overrides.
pub fn ignored_selectors(process_given: bool, pid_given: bool, hwnd_given: bool) -> (ignored:
    Option<IgnoredSelectors>)
    ensures
        ignored == (if hwnd_given && (pid_given || process_given) {
            Some(IgnoredSelectors::PidAndProcess)
        } else if !hwnd_given && pid_given && process_given {
            Some(IgnoredSelectors::Process)
        } else {
            None
        }),
{
    if hwnd_given && (pid_given || process_given) {
        Some(IgnoredSelectors::PidAndProcess)
    } else if pid_given && process_given && !hwnd_given {
        Some(IgnoredSelectors::Process)
    } else {
        None
    }
}

} // verus!
