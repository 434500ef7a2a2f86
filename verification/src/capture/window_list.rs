//! Which top-level windows are offered for sharing and in what order, and
//! the records kept of windows and displays.

use vstd::prelude::*;

use super::compatibility::{detect_app_kind, suspends_render_when_minimized};
use super::{AppKind, MonitorInfo, WindowInfo};
use crate::capture::compatibility::app_kind_of;
use crate::text::{
    has_prefix, lemma_text_lt_irreflexive, lemma_text_lt_total, lemma_text_lt_transitive, lowercase,
    isize_string, signed_decimal, starts_with_text, strip_char, strip_char_text, text_less, text_lt,
    to_lowercase,
};

verus! {

/// `WS_CHILD`: the window is a child window.
pub const WS_CHILD: u32 = 0x4000_0000;

/// What the system reports about a top-level window.
pub struct WindowProbe {
    pub hwnd: isize,
    pub visible: bool,
    /// The window style bits.
    pub style: u32,
    /// Whether another window owns it (tool windows, owned pop-ups).
    pub owned: bool,
    pub title: String,
    pub left: i32,
    pub top: i32,
    pub right: i32,
    pub bottom: i32,
    pub process_id: u32,
    /// The executable name of its process, when it could be read.
    pub process_name: Option<String>,
    pub minimized: bool,
}

/// Whether a title belongs to a shell window that is never offered: it
/// starts with `Program Manager`, `Windows Input Experience`, `Settings`,
/// `Task View` or `Windows Shell Experience Host`.
pub open spec fn is_shell_title(title: Seq<char>) -> bool {
    ||| has_prefix(title, "Program Manager"@)
    ||| has_prefix(title, "Windows Input Experience"@)
    ||| has_prefix(title, "Settings"@)
    ||| has_prefix(title, "Task View"@)
    ||| has_prefix(title, "Windows Shell Experience Host"@)
}

/// A side of a window rectangle as a size: the difference, or 0 when it
/// is negative.
pub open spec fn extent(lo: i32, hi: i32) -> u32 {
    if hi - lo > 0 {
        (hi - lo) as u32
    } else {
        0
    }
}

/// Whether a window is offered for sharing: visible, not a child, not
/// owned, titled, not a shell window, and at least 50 by 50 pixels.
pub open spec fn is_offered(p: WindowProbe) -> bool {
    &&& p.visible
    &&& p.style & WS_CHILD == 0
    &&& !p.owned
    &&& p.title@.len() > 0
    &&& !is_shell_title(p.title@)
    &&& extent(p.left, p.right) >= 50
    &&& extent(p.top, p.bottom) >= 50
}

/// The process name recorded for a window: `Unknown` when it could not be
/// read.
pub open spec fn process_name_of(p: WindowProbe) -> Seq<char> {
    match p.process_name {
        Some(n) => n@,
        None => "Unknown"@,
    }
}

/// The record of a window the system reported, when it is offered for
/// sharing: its handle, title, process, size and state, with its kind
/// classified from the process name and title. The rectangle's sides are
/// 32-bit differences, which must not overflow.
pub fn window_entry(p: WindowProbe) -> (r: Option<WindowInfo>)
    requires
        i32::MIN <= p.right - p.left <= i32::MAX,
        i32::MIN <= p.bottom - p.top <= i32::MAX,
    ensures
        is_offered(p) <==> r is Some,
        r matches Some(w) ==> {
            &&& w.hwnd == p.hwnd
            &&& w.title@ == p.title@
            &&& w.process_name@ == process_name_of(p)
            &&& w.process_id == p.process_id
            &&& w.width == extent(p.left, p.right)
            &&& w.height == extent(p.top, p.bottom)
            &&& w.is_minimized == p.minimized
            &&& w.app_kind == app_kind_of(lowercase(w.process_name@), lowercase(w.title@), false)
            &&& w.suspends_render_when_minimized == (w.app_kind == AppKind::Chromium || w.app_kind
                == AppKind::DirectX || w.app_kind == AppKind::UWP || w.app_kind == AppKind::Vulkan)
        },
{
    if !p.visible || p.style & WS_CHILD != 0 || p.owned || p.title.as_str().unicode_len() == 0 {
        return None;
    }
    let t = p.title.as_str();
    if starts_with_text(t, "Program Manager") || starts_with_text(t, "Windows Input Experience")
        || starts_with_text(t, "Settings") || starts_with_text(t, "Task View") || starts_with_text(
        t,
        "Windows Shell Experience Host",
    ) {
        return None;
    }
    let w: i32 = p.right - p.left;
    let h: i32 = p.bottom - p.top;
    let width: u32 = if w > 0 {
        w as u32
    } else {
        0
    };
    let height: u32 = if h > 0 {
        h as u32
    } else {
        0
    };
    if width < 50 || height < 50 {
        return None;
    }
    let process_name = match p.process_name {
        Some(n) => n,
        None => String::from_str("Unknown"),
    };
    let mut info = WindowInfo {
        hwnd: p.hwnd,
        title: p.title,
        process_name,
        process_id: p.process_id,
        width,
        height,
        is_minimized: p.minimized,
        app_kind: AppKind::Unknown,
        suspends_render_when_minimized: false,
    };
    let kind = detect_app_kind(&info);
    info.suspends_render_when_minimized = suspends_render_when_minimized(&kind);
    info.app_kind = kind;
    Some(info)
}

/// The key windows are listed by: the title, lower-cased.
pub open spec fn title_key(w: WindowInfo) -> Seq<char> {
    lowercase(w.title@)
}

/// Whether the windows are in order of their keys.
pub open spec fn sorted_by_title(ws: Seq<WindowInfo>) -> bool {
    forall|i: int, j: int|
        0 <= i < j < ws.len() ==> !text_lt(title_key(#[trigger] ws[j]), title_key(#[trigger] ws[i]))
}

/// The windows whose key is `k`, in order.
pub open spec fn with_key(ws: Seq<WindowInfo>, k: Seq<char>) -> Seq<WindowInfo> {
    ws.filter(|w: WindowInfo| title_key(w) == k)
}

proof fn lemma_insert_keeps_groups(
    r: Seq<WindowInfo>,
    p: int,
    x: WindowInfo,
    k: Seq<char>,
)
    requires
        0 <= p <= r.len(),
        forall|q: int| p <= q < r.len() ==> text_lt(title_key(x), title_key(#[trigger] r[q])),
    ensures
        with_key(r.insert(p, x), k) == if title_key(x) == k {
            with_key(r, k).push(x)
        } else {
            with_key(r, k)
        },
{
    let pred = |w: WindowInfo| title_key(w) == k;
    let a = r.take(p);
    let b = r.skip(p);
    assert(r.insert(p, x) =~= a + seq![x] + b);
    assert(r =~= a + b);
    Seq::filter_distributes_over_add(a + seq![x], b, pred);
    Seq::filter_distributes_over_add(a, seq![x], pred);
    Seq::filter_distributes_over_add(a, b, pred);
    assert(seq![x].filter(pred) =~= (if pred(x) { seq![x] } else { Seq::empty() })) by {
        let e = Seq::<WindowInfo>::empty();
        e.lemma_filter_push(x, pred);
        assert(e.push(x) =~= seq![x]);
        e.lemma_filter_len(pred);
        assert(e.filter(pred) =~= e);
    }
    if title_key(x) == k {
        assert forall|q: int| 0 <= q < b.len() implies !pred(b[q]) by {
            assert(b[q] == r[p + q]);
            lemma_text_lt_irreflexive(title_key(x));
        }
        b.lemma_all_neg_filter_empty(pred);
        assert(b.filter(pred) =~= Seq::<WindowInfo>::empty());
    }
}

/// The windows ordered by lower-cased title, as a stable sort by that key
/// orders them: the keys ascend, and the windows sharing a key keep their
/// order.
pub fn order_by_title(windows: Vec<WindowInfo>) -> (r: Vec<WindowInfo>)
    ensures
        r@.len() == windows@.len(),
        sorted_by_title(r@),
        forall|k: Seq<char>| with_key(r@, k) == with_key(windows@, k),
{
    let ghost all = windows@;
    let mut rest = windows;
    let mut r: Vec<WindowInfo> = Vec::new();
    let mut keys: Vec<String> = Vec::new();
    let mut n: usize = 0;
    assert(all.len() == rest.len());
    assert(all.take(0) =~= Seq::<WindowInfo>::empty());
    while rest.len() > 0
        invariant
            n + rest@.len() == all.len(),
            all.len() <= usize::MAX,
            rest@ == all.subrange(n as int, all.len() as int),
            r@.len() == n,
            keys@.len() == r@.len(),
            forall|q: int| 0 <= q < r@.len() ==> (#[trigger] keys@[q])@ == title_key(r@[q]),
            sorted_by_title(r@),
            forall|k: Seq<char>| with_key(r@, k) == with_key(all.take(n as int), k),
        decreases rest.len(),
    {
        let w = rest.remove(0);
        assert(all.take(n + 1) =~= all.take(n as int).push(w));
        let key = to_lowercase(w.title.as_str());
        let mut p: usize = 0;
        while p < r.len() && !text_less(key.as_str(), keys[p].as_str())
            invariant
                p <= r@.len(),
                keys@.len() == r@.len(),
                key@ == title_key(w),
                forall|q: int| 0 <= q < r@.len() ==> (#[trigger] keys@[q])@ == title_key(r@[q]),
                forall|q: int| 0 <= q < p ==> !text_lt(title_key(w), title_key(#[trigger] r@[q])),
            decreases r@.len() - p,
        {
            p = p + 1;
        }
        let ghost old_r = r@;
        proof {
            assert forall|q: int| p <= q < old_r.len() implies text_lt(
                title_key(w),
                title_key(#[trigger] old_r[q]),
            ) by {
                assert(text_lt(title_key(w), title_key(old_r[p as int])));
                if q > p {
                    assert(!text_lt(title_key(old_r[q]), title_key(old_r[p as int])));
                    lemma_text_lt_total(title_key(old_r[q]), title_key(old_r[p as int]));
                    if title_key(old_r[q]) != title_key(old_r[p as int]) {
                        lemma_text_lt_transitive(
                            title_key(w),
                            title_key(old_r[p as int]),
                            title_key(old_r[q]),
                        );
                    }
                }
            }
            assert forall|k: Seq<char>| with_key(old_r.insert(p as int, w), k) == with_key(
                all.take(n + 1),
                k,
            ) by {
                lemma_insert_keeps_groups(old_r, p as int, w, k);
                all.take(n as int).lemma_filter_push(w, |x: WindowInfo| title_key(x) == k);
            }
        }
        r.insert(p, w);
        keys.insert(p, key);
        proof {
            assert forall|i: int, j: int| 0 <= i < j < r@.len() implies !text_lt(
                title_key(#[trigger] r@[j]),
                title_key(#[trigger] r@[i]),
            ) by {
                if j == p {
                    assert(r@[i] == old_r[i]);
                } else if i == p {
                    assert(r@[j] == old_r[j - 1]);
                    assert(text_lt(title_key(w), title_key(old_r[j - 1])));
                    if text_lt(title_key(old_r[j - 1]), title_key(w)) {
                        lemma_text_lt_transitive(title_key(w), title_key(old_r[j - 1]), title_key(w));
                        lemma_text_lt_irreflexive(title_key(w));
                    }
                } else if j < p {
                    assert(r@[i] == old_r[i] && r@[j] == old_r[j]);
                } else if i < p {
                    assert(r@[i] == old_r[i] && r@[j] == old_r[j - 1]);
                } else {
                    assert(r@[i] == old_r[i - 1] && r@[j] == old_r[j - 1]);
                }
            }
            assert forall|q: int| 0 <= q < r@.len() implies (#[trigger] keys@[q])@ == title_key(
                r@[q],
            ) by {
                if q < p {
                    assert(r@[q] == old_r[q]);
                } else if q > p {
                    assert(r@[q] == old_r[q - 1]);
                }
            }
        }
        n = n + 1;
        assert(rest@ =~= all.subrange(n as int, all.len() as int));
    }
    assert(all.take(n as int) =~= all);
    r
}

/// The absolute difference of two rectangle sides, as a size.
pub open spec fn span_of(lo: i32, hi: i32) -> u32 {
    if hi - lo >= 0 {
        (hi - lo) as u32
    } else {
        (lo - hi) as u32
    }
}

/// `MONITORINFOF_PRIMARY`: the monitor is the primary one.
pub const MONITORINFOF_PRIMARY: u32 = 1;

/// The record of a monitor the system reported: its device name without
/// padding NUL characters, its size, and whether it is the primary one.
pub fn monitor_entry(
    handle: isize,
    device_name: &str,
    left: i32,
    top: i32,
    right: i32,
    bottom: i32,
    flags: u32,
) -> (m: MonitorInfo)
    requires
        i32::MIN < right - left <= i32::MAX,
        i32::MIN < bottom - top <= i32::MAX,
    ensures
        m.handle == handle,
        m.name@ == strip_char(device_name@, '\0'),
        m.width == span_of(left, right),
        m.height == span_of(top, bottom),
        m.is_primary == (flags & MONITORINFOF_PRIMARY != 0),
{
    let w: i32 = right - left;
    let h: i32 = bottom - top;
    MonitorInfo {
        handle,
        name: strip_char_text(device_name, '\0'),
        width: if w >= 0 {
            w as u32
        } else {
            (-w) as u32
        },
        height: if h >= 0 {
            h as u32
        } else {
            (-h) as u32
        },
        is_primary: flags & MONITORINFOF_PRIMARY != 0,
    }
}

/// The window record a capture of a display starts with: named after the
/// display, with the monitor's size when the system reported its rectangle
/// and 1920 by 1080 otherwise.
pub fn display_window_info(hmonitor: isize, rect: Option<(i32, i32, i32, i32)>) -> (w: WindowInfo)
    requires
        rect matches Some(r) ==> i32::MIN < r.2 - r.0 <= i32::MAX && i32::MIN < r.3 - r.1
            <= i32::MAX,
    ensures
        w.hwnd == 0,
        w.title@ == "Display "@ + signed_decimal(hmonitor as int),
        w.process_name@ == "Display"@,
        w.process_id == 0,
        w.width == (match rect {
            Some(r) => span_of(r.0, r.2),
            None => 1920,
        }),
        w.height == (match rect {
            Some(r) => span_of(r.1, r.3),
            None => 1080,
        }),
        !w.is_minimized,
        w.app_kind == AppKind::Unknown,
        !w.suspends_render_when_minimized,
{
    let mut title = String::from_str("Display ");
    let d = isize_string(hmonitor);
    title.append(d.as_str());
    let (width, height) = match rect {
        Some((l, t, r, b)) => {
            let w: i32 = r - l;
            let h: i32 = b - t;
            (
                if w >= 0 {
                    w as u32
                } else {
                    (-w) as u32
                },
                if h >= 0 {
                    h as u32
                } else {
                    (-h) as u32
                },
            )
        },
        None => (1920, 1080),
    };
    WindowInfo {
        hwnd: 0,
        title,
        process_name: String::from_str("Display"),
        process_id: 0,
        width,
        height,
        is_minimized: false,
        app_kind: AppKind::Unknown,
        suspends_render_when_minimized: false,
    }
}

} // verus!
