//! The list of visible windows offered as snap targets: which windows are
//! listed, and the order in which they are offered.
use vstd::prelude::*;
use crate::text::{contains_str, has_substring};

verus! {

/// A window as reported to the frontend, in logical coordinates.
#[derive(Debug, Clone)]
pub struct WindowInfo {
    pub x: i32,
    pub y: i32,
    pub width: u32,
    pub height: u32,
    pub title: String,
    pub app_name: String,
}

/// What was read from the window system about one window; `None` marks a
/// property that could not be read.
#[derive(Debug)]
pub struct WindowProbe {
    pub title: Option<String>,
    pub app_name: Option<String>,
    pub x: Option<i32>,
    pub y: Option<i32>,
    pub width: Option<u32>,
    pub height: Option<u32>,
}

/// A listed window, still in physical pixels.
#[derive(Debug)]
pub struct PhysicalWindow {
    pub x: i32,
    pub y: i32,
    pub width: u32,
    pub height: u32,
    pub title: String,
    pub app_name: String,
}

/// The plain content of a listed window.
pub struct WindowView {
    pub x: i32,
    pub y: i32,
    pub width: u32,
    pub height: u32,
    pub title: Seq<char>,
    pub app_name: Seq<char>,
}

/// The plain content of a probe.
pub struct ProbeView {
    pub title: Option<Seq<char>>,
    pub app_name: Option<Seq<char>>,
    pub x: Option<i32>,
    pub y: Option<i32>,
    pub width: Option<u32>,
    pub height: Option<u32>,
}

impl View for PhysicalWindow {
    type V = WindowView;

    open spec fn view(&self) -> WindowView {
        WindowView {
            x: self.x,
            y: self.y,
            width: self.width,
            height: self.height,
            title: self.title@,
            app_name: self.app_name@,
        }
    }
}

/// The view of an optional string.
pub open spec fn opt_view(s: Option<String>) -> Option<Seq<char>> {
    match s {
        Some(t) => Some(t@),
        None => None,
    }
}

impl View for WindowProbe {
    type V = ProbeView;

    open spec fn view(&self) -> ProbeView {
        ProbeView {
            title: opt_view(self.title),
            app_name: opt_view(self.app_name),
            x: self.x,
            y: self.y,
            width: self.width,
            height: self.height,
        }
    }
}

/// The title of the tool's own overlay window, which is never listed.
pub open spec fn own_overlay_title() -> Seq<char> {
    "T2Screenshot"@
}

/// The smallest width and height, in physical pixels, of a listed window.
pub const MIN_WINDOW_SIDE: u32 = 50;

/// The listed window for a probe, if the probe is listed: it needs a
/// readable, non-empty title that does not contain the overlay's title,
/// and both sides at least `MIN_WINDOW_SIDE` (an unreadable side counts as
/// 0). An unreadable position counts as 0, an unreadable application name
/// as empty.
pub open spec fn listed(p: ProbeView) -> Option<WindowView> {
    match p.title {
        None => None,
        Some(title) => {
            let width = match p.width { Some(w) => w, None => 0u32 };
            let height = match p.height { Some(h) => h, None => 0u32 };
            if title.len() == 0 || width < MIN_WINDOW_SIDE || height < MIN_WINDOW_SIDE
                || has_substring(title, own_overlay_title()) {
                None
            } else {
                Some(WindowView {
                    x: match p.x { Some(v) => v, None => 0i32 },
                    y: match p.y { Some(v) => v, None => 0i32 },
                    width,
                    height,
                    title,
                    app_name: match p.app_name { Some(a) => a, None => Seq::empty() },
                })
            }
        },
    }
}

/// A listed window keeps what the probe read: its position as reported
/// (negative coordinates included, 0 where unreadable), its size, its
/// title, and its application name (empty where unreadable).
pub proof fn law_listed_keeps_probe(p: ProbeView)
    ensures
        listed(p) is Some ==> {
            let w = listed(p)->Some_0;
            &&& (p.x is Some ==> w.x == p.x->Some_0)
            &&& (p.x is None ==> w.x == 0)
            &&& (p.y is Some ==> w.y == p.y->Some_0)
            &&& (p.y is None ==> w.y == 0)
            &&& p.width == Some(w.width)
            &&& p.height == Some(w.height)
            &&& p.title == Some(w.title)
            &&& (p.app_name is Some ==> w.app_name == p.app_name->Some_0)
            &&& (p.app_name is None ==> w.app_name == Seq::<char>::empty())
        },
{
}

/// The views of a sequence of listed windows.
pub open spec fn window_views(s: Seq<PhysicalWindow>) -> Seq<WindowView> {
    s.map_values(|w: PhysicalWindow| w@)
}

/// The views of a sequence of probes.
pub open spec fn probe_views(s: Seq<WindowProbe>) -> Seq<ProbeView> {
    s.map_values(|p: WindowProbe| p@)
}

/// The window listed for one probe, if any.
fn list_one(p: &WindowProbe) -> (res: Option<PhysicalWindow>)
    ensures
        match listed(p@) {
            Some(v) => res matches Some(w) && w@ == v,
            None => res is None,
        },
{
    proof {
        reveal_strlit("T2Screenshot");
    }
    match &p.title {
        None => None,
        Some(title) => {
            let width: u32 = match p.width { Some(w) => w, None => 0 };
            let height: u32 = match p.height { Some(h) => h, None => 0 };
            if title.as_str().is_empty() {
                return None;
            }
            if width < MIN_WINDOW_SIDE || height < MIN_WINDOW_SIDE {
                return None;
            }
            if contains_str(title.as_str(), "T2Screenshot") {
                return None;
            }
            let app_name = match &p.app_name {
                Some(a) => a.clone(),
                None => String::new(),
            };
            Some(PhysicalWindow {
                x: match p.x { Some(v) => v, None => 0 },
                y: match p.y { Some(v) => v, None => 0 },
                width,
                height,
                title: title.clone(),
                app_name,
            })
        },
    }
}

/// The windows to offer, in the order the window system reported them,
/// with unreadable properties defaulted as `listed` describes.
pub fn select_windows(probes: &Vec<WindowProbe>) -> (res: Vec<PhysicalWindow>)
    ensures
        window_views(res@) == probe_views(probes@).filter_map(|p: ProbeView| listed(p)),
{
    let mut res: Vec<PhysicalWindow> = Vec::new();
    for i in 0..probes.len()
        invariant
            window_views(res@) == probe_views(probes@.take(i as int)).filter_map(
                |p: ProbeView| listed(p),
            ),
    {
        let ghost before = res@;
        assert(probe_views(probes@.take(i + 1)).drop_last() =~= probe_views(probes@.take(i as int)));
        match list_one(&probes[i]) {
            Some(w) => {
                res.push(w);
                assert(window_views(res@) =~= window_views(before) + seq![res@.last()@]);
            },
            None => {},
        }
    }
    assert(probes@.take(probes@.len() as int) =~= probes@);
    res
}


/// The area of a window, in square logical pixels.
pub open spec fn area(w: WindowInfo) -> int {
    w.width * w.height
}

/// Areas never decrease along `s`.
pub open spec fn sorted_by_area(s: Seq<WindowInfo>) -> bool {
    forall|i: int, j: int| 0 <= i <= j < s.len() ==> area(s[i]) <= area(s[j])
}

/// The windows of `s` whose area is `k`, in their order in `s`.
pub open spec fn with_area(s: Seq<WindowInfo>, k: int) -> Seq<WindowInfo> {
    s.filter(|w: WindowInfo| area(w) == k)
}

/// `out` holds the windows of `input` ordered by increasing area, windows of
/// equal area keeping their relative order.
pub open spec fn stably_sorted_by_area(input: Seq<WindowInfo>, out: Seq<WindowInfo>) -> bool {
    &&& out.len() == input.len()
    &&& sorted_by_area(out)
    &&& forall|k: int| #[trigger] with_area(out, k) == with_area(input, k)
}

/// The area of every window fits in an `i64`.
pub open spec fn areas_fit(s: Seq<WindowInfo>) -> bool {
    forall|i: int| 0 <= i < s.len() ==> area(#[trigger] s[i]) <= i64::MAX
}

fn area_of(w: &WindowInfo) -> (res: i64)
    requires
        area(*w) <= i64::MAX,
    ensures
        res == area(*w),
{
    assert(0 <= (w.width as int) * (w.height as int)) by (nonlinear_arith);
    w.width as i64 * w.height as i64
}

/// A filter keeps nothing of a sequence none of whose elements it accepts.
proof fn lemma_filter_none(s: Seq<WindowInfo>, k: int)
    requires
        forall|i: int| 0 <= i < s.len() ==> area(#[trigger] s[i]) != k,
    ensures
        with_area(s, k) == Seq::<WindowInfo>::empty(),
    decreases s.len(),
{
    reveal(Seq::filter);
    if s.len() > 0 {
        lemma_filter_none(s.drop_last(), k);
    }
}

/// Inserting `e` into the sorted `s` after every window of area at most
/// its own changes the windows of each area as appending `e` would.
proof fn lemma_insert_keeps_classes(s: Seq<WindowInfo>, j: int, e: WindowInfo, k: int)
    requires
        0 <= j <= s.len(),
        forall|i: int| 0 <= i < j ==> area(#[trigger] s[i]) <= area(e),
        forall|i: int| j <= i < s.len() ==> area(#[trigger] s[i]) > area(e),
    ensures
        with_area(s.insert(j, e), k) == with_area(s.push(e), k),
{
    reveal(Seq::filter);
    let pred = |w: WindowInfo| area(w) == k;
    let a = s.take(j);
    let b = s.skip(j);
    assert(s.insert(j, e) =~= a + (seq![e] + b));
    assert(s =~= a + b);
    assert(s.push(e) =~= (a + b) + seq![e]);
    Seq::filter_distributes_over_add(a, seq![e] + b, pred);
    Seq::filter_distributes_over_add(seq![e], b, pred);
    Seq::filter_distributes_over_add(a, b, pred);
    Seq::filter_distributes_over_add(a + b, seq![e], pred);
    assert(seq![e].drop_last() =~= Seq::<WindowInfo>::empty());
    if area(e) == k {
        lemma_filter_none(b, k);
        assert(b.filter(pred) =~= Seq::<WindowInfo>::empty());
    } else {
        assert(seq![e].drop_last().filter(pred) =~= Seq::<WindowInfo>::empty());
        assert(seq![e].last() == e);
        assert(seq![e].filter(pred) =~= Seq::<WindowInfo>::empty());
    }
}

/// Orders windows by increasing area; windows of equal area keep their
/// relative order, so smaller windows are matched first.
pub fn sort_by_area(windows: Vec<WindowInfo>) -> (res: Vec<WindowInfo>)
    requires
        areas_fit(windows@),
    ensures
        stably_sorted_by_area(windows@, res@),
{
    let ghost input = windows@;
    let mut rest = windows;
    let mut res: Vec<WindowInfo> = Vec::new();
    let mut done: usize = 0;
    assert(input.len() == rest.len());
    while rest.len() > 0
        invariant
            input.len() <= usize::MAX,
            done + rest@.len() == input.len(),
            rest@ == input.skip(done as int),
            areas_fit(input),
            res@.len() == done,
            sorted_by_area(res@),
            forall|i: int| 0 <= i < res@.len() ==> area(#[trigger] res@[i]) <= i64::MAX,
            forall|k: int| #[trigger] with_area(res@, k) == with_area(input.take(done as int), k),
        decreases rest@.len(),
    {
        let e = rest.remove(0);
        assert(e == input[done as int]);
        let key = area_of(&e);
        let mut j: usize = 0;
        while j < res.len()
            invariant
                j <= res@.len(),
                key == area(e),
                forall|i: int| 0 <= i < res@.len() ==> area(#[trigger] res@[i]) <= i64::MAX,
                forall|i: int| 0 <= i < j ==> area(#[trigger] res@[i]) <= area(e),
            ensures
                j <= res@.len(),
                j == res@.len() || area(res@[j as int]) > area(e),
                forall|i: int| 0 <= i < j ==> area(#[trigger] res@[i]) <= area(e),
            decreases res@.len() - j,
        {
            if area_of(&res[j]) > key {
                break;
            }
            j = j + 1;
        }
        proof {
            assert forall|i: int| j <= i < res@.len() implies area(#[trigger] res@[i]) > area(e) by {
                assert(area(res@[j as int]) > area(e));
                assert(area(res@[j as int]) <= area(res@[i]));
            }
            assert forall|k: int| #[trigger] with_area(res@.insert(j as int, e), k)
                == with_area(input.take(done + 1), k) by {
                lemma_insert_keeps_classes(res@, j as int, e, k);
                reveal(Seq::filter);
                assert(input.take(done + 1).drop_last() =~= input.take(done as int));
                assert(res@.push(e).drop_last() =~= res@);
                assert(res@.push(e).last() == e);
                assert(input.take(done + 1).last() == e);
                assert(with_area(res@, k) == with_area(input.take(done as int), k));
            }
        }
        res.insert(j, e);
        done = done + 1;
        proof {
            assert(rest@ =~= input.skip(done as int));
        }
    }
    assert(input.take(input.len() as int) =~= input);
    res
}


/// The windows of one area in a sequence whose last window has that area end
/// with that window.
proof fn lemma_class_of_last(s: Seq<WindowInfo>)
    requires
        s.len() > 0,
    ensures
        with_area(s, area(s.last())) == with_area(s.drop_last(), area(s.last())).push(s.last()),
        forall|k: int| k != area(s.last()) ==> #[trigger] with_area(s, k) == with_area(s.drop_last(), k),
{
    reveal(Seq::filter);
}

/// A window listed in some area's class occurs in the sequence.
proof fn lemma_class_member(s: Seq<WindowInfo>, k: int)
    requires
        with_area(s, k).len() > 0,
    ensures
        exists|i: int| 0 <= i < s.len() && area(#[trigger] s[i]) == k,
{
    broadcast use Seq::lemma_filter_contains_rev, Seq::lemma_filter_pred;
    let pred = |w: WindowInfo| area(w) == k;
    let f = s.filter(pred);
    assert(pred(f[0]));
    assert(f.contains(f[0]));
    assert(s.contains(f[0]));
}

/// Which windows are offered, and in which order, is fully determined by
/// the windows listed: two orders that both sort the same windows stably by
/// area are the same order.
pub proof fn law_area_order_is_determined(input: Seq<WindowInfo>, a: Seq<WindowInfo>, b: Seq<WindowInfo>)
    requires
        stably_sorted_by_area(input, a),
        stably_sorted_by_area(input, b),
    ensures
        a == b,
{
    lemma_same_classes_same_order(a, b);
}

proof fn lemma_same_classes_same_order(a: Seq<WindowInfo>, b: Seq<WindowInfo>)
    requires
        a.len() == b.len(),
        sorted_by_area(a),
        sorted_by_area(b),
        forall|k: int| #[trigger] with_area(a, k) == with_area(b, k),
    ensures
        a == b,
    decreases a.len(),
{
    if a.len() == 0 {
        assert(a =~= b);
    } else {
        let ka = area(a.last());
        let kb = area(b.last());
        lemma_class_of_last(a);
        lemma_class_of_last(b);
        // The largest area of `a` occurs in `b`, so it is at most `b`'s
        // largest, and the other way round.
        assert(with_area(b, ka).len() > 0);
        lemma_class_member(b, ka);
        let i = choose|i: int| 0 <= i < b.len() && area(#[trigger] b[i]) == ka;
        assert(area(b[i]) <= area(b[b.len() - 1]));
        assert(with_area(a, kb).len() > 0);
        lemma_class_member(a, kb);
        let j = choose|j: int| 0 <= j < a.len() && area(#[trigger] a[j]) == kb;
        assert(area(a[j]) <= area(a[a.len() - 1]));
        assert(ka == kb);
        assert(a.last() == with_area(a, ka).last());
        assert(b.last() == with_area(b, kb).last());
        assert forall|k: int| #[trigger] with_area(a.drop_last(), k) == with_area(b.drop_last(), k) by {
            if k == ka {
                assert(with_area(a.drop_last(), k) =~= with_area(a, k).drop_last());
                assert(with_area(b.drop_last(), k) =~= with_area(b, k).drop_last());
            } else {
                assert(with_area(a, k) == with_area(b, k));
            }
        }
        lemma_same_classes_same_order(a.drop_last(), b.drop_last());
        assert(a =~= a.drop_last().push(a.last()));
        assert(b =~= b.drop_last().push(b.last()));
    }
}

} // verus!
