//! What the daemon reads from X11 tool output (window geometry, `WM_CLASS`,
//! `_NET_WM_PID`), which windows a match selects, and where screenshots and log
//! tails go.
use crate::checks::{WorkspaceError, WorkspaceIssue};
use crate::paths::{is_absolute, is_absolute_path, join_path, join_path_str};
use crate::text::{
    contains_ascii_case_insensitive, contains_ci, contains_seq, contains_str, decimal, lines_of,
    parse_i32_spec, parse_i32_str, parse_unsigned, parse_unsigned_str, rsplit_once,
    rsplit_once_text, split_on, split_once, split_once_text, split_text, strs, text_lines, trim,
    trim_str, u64_to_string,
};
use crate::workspace::{WindowGeometry, WorkspaceWindow};
use vstd::prelude::*;
use vstd::string::*;

verus! {

// ---------------------------------------------------------------------------
// Window geometry

/// The fields read so far from `xdotool getwindowgeometry --shell` output: X, Y,
/// WIDTH, HEIGHT and SCREEN.
pub type GeometryRead = (Option<int>, Option<int>, Option<nat>, Option<nat>, Option<int>);

/// One line of geometry output: `KEY=VALUE` sets the field named by `KEY` to the
/// parse of `VALUE` (nothing when it does not parse); other lines change nothing.
pub open spec fn geometry_step(st: GeometryRead, line: Seq<char>) -> GeometryRead {
    match split_once(line, '=') {
        None => st,
        Some((key, value)) => if key == "X"@ {
            (parse_i32_spec(value), st.1, st.2, st.3, st.4)
        } else if key == "Y"@ {
            (st.0, parse_i32_spec(value), st.2, st.3, st.4)
        } else if key == "WIDTH"@ {
            (st.0, st.1, parse_unsigned(value, u32::MAX as nat), st.3, st.4)
        } else if key == "HEIGHT"@ {
            (st.0, st.1, st.2, parse_unsigned(value, u32::MAX as nat), st.4)
        } else if key == "SCREEN"@ {
            (st.0, st.1, st.2, st.3, parse_i32_spec(value))
        } else {
            st
        },
    }
}

/// The fields after reading the given lines in order.
pub open spec fn geometry_read(lines: Seq<Seq<char>>) -> GeometryRead
    decreases lines.len(),
{
    if lines.len() == 0 {
        (None, None, None, None, None)
    } else {
        geometry_step(geometry_read(lines.drop_last()), lines.last())
    }
}

pub open spec fn int_opt(o: Option<i32>) -> Option<int> {
    match o {
        Some(v) => Some(v as int),
        None => None,
    }
}

pub open spec fn nat_opt(o: Option<u32>) -> Option<nat> {
    match o {
        Some(v) => Some(v as nat),
        None => None,
    }
}

/// The first geometry field that is missing, by name.
pub open spec fn geometry_missing(st: GeometryRead) -> Option<Seq<char>> {
    if st.0 is None {
        Some("X"@)
    } else if st.1 is None {
        Some("Y"@)
    } else if st.2 is None {
        Some("WIDTH"@)
    } else if st.3 is None {
        Some("HEIGHT"@)
    } else {
        None
    }
}

fn parse_u32_text(s: &str) -> (r: Option<u32>)
    ensures
        nat_opt(r) == parse_unsigned(s@, u32::MAX as nat),
{
    match parse_unsigned_str(s, 0xffff_ffff) {
        Some(v) => Some(v as u32),
        None => None,
    }
}

/// Reads a window's geometry from `xdotool getwindowgeometry --shell` output; X,
/// Y, WIDTH and HEIGHT are required, SCREEN is optional.
pub fn parse_window_geometry(text: &str) -> (r: Result<WindowGeometry, WorkspaceError>)
    ensures
        ({
            let st = geometry_read(text_lines(text@));
            match r {
                Ok(g) => geometry_missing(st) is None && st.0 == Some(g.x as int) && st.1 == Some(
                    g.y as int,
                ) && st.2 == Some(g.width as nat) && st.3 == Some(g.height as nat) && st.4
                    == int_opt(g.screen),
                Err(e) => geometry_missing(st) is Some && e@ == WorkspaceIssue::GeometryMissing {
                    field: geometry_missing(st)->0,
                },
            }
        }),
{
    let lines = lines_of(text);
    let ghost ls = strs(lines@);
    let mut x: Option<i32> = None;
    let mut y: Option<i32> = None;
    let mut width: Option<u32> = None;
    let mut height: Option<u32> = None;
    let mut screen: Option<i32> = None;
    let mut i: usize = 0;
    assert(ls.subrange(0, 0) =~= Seq::<Seq<char>>::empty());
    while i < lines.len()
        invariant
            ls == strs(lines@),
            ls == text_lines(text@),
            i <= lines@.len(),
            geometry_read(ls.subrange(0, i as int)) == (
                int_opt(x),
                int_opt(y),
                nat_opt(width),
                nat_opt(height),
                int_opt(screen),
            ),
        decreases lines.len() - i,
    {
        proof {
            assert(ls.subrange(0, i + 1).drop_last() =~= ls.subrange(0, i as int));
            assert(ls.subrange(0, i + 1).last() == lines@[i as int]@);
        }
        match split_once_text(lines[i].as_str(), '=') {
            None => {},
            Some((key, value)) => {
                let k = key.as_str();
                if crate::permissions::str_eq(k, "X") {
                    x = parse_i32_str(value.as_str());
                } else if crate::permissions::str_eq(k, "Y") {
                    y = parse_i32_str(value.as_str());
                } else if crate::permissions::str_eq(k, "WIDTH") {
                    width = parse_u32_text(value.as_str());
                } else if crate::permissions::str_eq(k, "HEIGHT") {
                    height = parse_u32_text(value.as_str());
                } else if crate::permissions::str_eq(k, "SCREEN") {
                    screen = parse_i32_str(value.as_str());
                }
            },
        }
        i += 1;
    }
    proof {
        assert(ls.subrange(0, lines@.len() as int) =~= ls);
    }
    let x = match x {
        Some(v) => v,
        None => {
            return Err(WorkspaceError::GeometryMissing { field: String::from_str("X") });
        },
    };
    let y = match y {
        Some(v) => v,
        None => {
            return Err(WorkspaceError::GeometryMissing { field: String::from_str("Y") });
        },
    };
    let width = match width {
        Some(v) => v,
        None => {
            return Err(WorkspaceError::GeometryMissing { field: String::from_str("WIDTH") });
        },
    };
    let height = match height {
        Some(v) => v,
        None => {
            return Err(WorkspaceError::GeometryMissing { field: String::from_str("HEIGHT") });
        },
    };
    Ok(WindowGeometry { x, y, width, height, screen })
}

// ---------------------------------------------------------------------------
// xprop output

/// `s` without its leading `"` characters.
pub open spec fn drop_leading_quotes(s: Seq<char>) -> Seq<char>
    decreases s.len(),
{
    if s.len() > 0 && s[0] == '"' {
        drop_leading_quotes(s.drop_first())
    } else {
        s
    }
}

/// `s` without its trailing `"` characters.
pub open spec fn drop_trailing_quotes(s: Seq<char>) -> Seq<char>
    decreases s.len(),
{
    if s.len() > 0 && s.last() == '"' {
        drop_trailing_quotes(s.drop_last())
    } else {
        s
    }
}

/// `s.trim_matches('"')`.
pub open spec fn trim_quotes(s: Seq<char>) -> Seq<char> {
    drop_trailing_quotes(drop_leading_quotes(s))
}

fn trim_quotes_str(s: &str) -> (r: String)
    ensures
        r@ == trim_quotes(s@),
{
    let n = s.unicode_len();
    let mut i: usize = 0;
    assert(s@.subrange(0, n as int) =~= s@);
    while i < n && s.get_char(i) == '"'
        invariant
            n == s@.len(),
            i <= n,
            drop_leading_quotes(s@) == drop_leading_quotes(s@.subrange(i as int, n as int)),
        decreases n - i,
    {
        proof {
            assert(s@.subrange(i as int, n as int).drop_first() =~= s@.subrange(i + 1, n as int));
        }
        i += 1;
    }
    let mut j: usize = n;
    proof {
        assert(s@.subrange(0, n as int) =~= s@);
    }
    while j > i && s.get_char(j - 1) == '"'
        invariant
            n == s@.len(),
            i <= j <= n,
            drop_leading_quotes(s@) == s@.subrange(i as int, n as int) || j < n,
            drop_trailing_quotes(s@.subrange(i as int, n as int)) == drop_trailing_quotes(
                s@.subrange(i as int, j as int),
            ),
        decreases j,
    {
        proof {
            assert(s@.subrange(i as int, j as int).drop_last() =~= s@.subrange(i as int, j - 1));
        }
        j -= 1;
    }
    proof {
        let t = s@.subrange(i as int, n as int);
        if i < n {
            assert(t[0] == s@[i as int]);
        }
        assert(drop_leading_quotes(t) == t);
        assert(drop_leading_quotes(s@) == t);
        let u = s@.subrange(i as int, j as int);
        if j > i {
            assert(u.last() == s@[j - 1]);
        }
        assert(drop_trailing_quotes(u) == u);
    }
    String::from_str(s.substring_char(i, j))
}

/// A value from xprop output: trimmed, without surrounding quotes, and absent when
/// empty or `not found.`.
pub open spec fn xprop_value(v: Seq<char>) -> Option<Seq<char>> {
    let t = trim(trim_quotes(trim(v)));
    if t.len() == 0 || t == "not found."@ {
        None
    } else {
        Some(t)
    }
}

/// Reads one value of xprop output.
pub fn parse_xprop_string(value: &str) -> (r: Option<String>)
    ensures
        match r {
            Some(s) => xprop_value(value@) == Some(s@),
            None => xprop_value(value@) is None,
        },
{
    let a = trim_str(value);
    let b = trim_quotes_str(a.as_str());
    let t = trim_str(b.as_str());
    if t.as_str().unicode_len() == 0 || crate::permissions::str_eq(t.as_str(), "not found.") {
        None
    } else {
        Some(t)
    }
}

/// The instance and class named in `xprop WM_CLASS` output: the first two
/// comma-separated values after the first `=`.
pub open spec fn wm_class_values(text: Seq<char>) -> (Option<Seq<char>>, Option<Seq<char>>) {
    match split_once(text, '=') {
        None => (None, None),
        Some((_, values)) => {
            let parts = split_on(values, ',');
            (
                xprop_value(parts[0]),
                if parts.len() > 1 {
                    xprop_value(parts[1])
                } else {
                    None
                },
            )
        },
    }
}

pub open spec fn text_opt(o: Option<String>) -> Option<Seq<char>> {
    match o {
        Some(s) => Some(s@),
        None => None,
    }
}

/// Reads the window instance and class from `xprop -id ID WM_CLASS` output.
pub fn window_class_from_xprop(text: &str) -> (r: (Option<String>, Option<String>))
    ensures
        (text_opt(r.0), text_opt(r.1)) == wm_class_values(text@),
{
    let values = match split_once_text(text, '=') {
        Some((_, v)) => v,
        None => {
            return (None, None);
        },
    };
    let parts = split_text(values.as_str(), ',');
    proof {
        assert(strs(parts@).len() == parts@.len());
        assert(strs(parts@)[0] == parts@[0]@);
    }
    let instance = parse_xprop_string(parts[0].as_str());
    let class = if parts.len() > 1 {
        proof {
            assert(strs(parts@)[1] == parts@[1]@);
        }
        parse_xprop_string(parts[1].as_str())
    } else {
        None
    };
    (instance, class)
}

/// The pid in `xprop -id ID _NET_WM_PID` output: the trimmed text after the last
/// `=`, read as a `u32`.
pub open spec fn wm_pid_value(text: Seq<char>) -> Option<nat> {
    match rsplit_once(text, '=') {
        Some((_, v)) => parse_unsigned(trim(v), u32::MAX as nat),
        None => None,
    }
}

/// Reads a window's pid from `xprop -id ID _NET_WM_PID` output.
pub fn window_pid_from_xprop(text: &str) -> (r: Option<u32>)
    ensures
        nat_opt(r) == wm_pid_value(text@),
{
    match rsplit_once_text(text, '=') {
        Some((_, v)) => {
            let t = trim_str(v.as_str());
            parse_u32_text(t.as_str())
        },
        None => None,
    }
}

/// Reads a pid from `xdotool getwindowpid` output: the trimmed text as a `u32`.
pub fn parse_window_pid(text: &str) -> (r: Option<u32>)
    ensures
        nat_opt(r) == parse_unsigned(trim(text@), u32::MAX as nat),
{
    let t = trim_str(text);
    parse_u32_text(t.as_str())
}

// ---------------------------------------------------------------------------
// Window matches

/// Whether a window passes the match filters: its title contains the title
/// filter, its class or instance contains the class filter in any ASCII case, and
/// its pid is the pid filter or else, with an app filter, descends from the app's
/// process (`descends` tells whether it does).
pub open spec fn window_passes(
    w: WorkspaceWindow,
    title_contains: Option<String>,
    class_contains: Option<String>,
    pid: Option<u32>,
    app_root_pid: Option<u32>,
    descends: bool,
) -> bool {
    &&& (title_contains is None || contains_seq(w.title@, title_contains->0@))
    &&& (class_contains is None || (w.wm_class is Some && contains_ci(
        w.wm_class->0@,
        class_contains->0@,
    )) || (w.wm_instance is Some && contains_ci(w.wm_instance->0@, class_contains->0@)))
    &&& if pid is Some {
        w.pid == pid
    } else if app_root_pid is Some {
        w.pid is Some && descends
    } else {
        true
    }
}

/// The windows among `ws` that pass the match filters, in order; `ds[i]` tells
/// whether the process of window `i` descends from the targeted app's process.
pub open spec fn selected_windows(
    ws: Seq<WorkspaceWindow>,
    ds: Seq<bool>,
    title_contains: Option<String>,
    class_contains: Option<String>,
    pid: Option<u32>,
    app_root_pid: Option<u32>,
) -> Seq<WorkspaceWindow>
    decreases ws.len(),
{
    if ws.len() == 0 {
        Seq::empty()
    } else {
        let before = selected_windows(
            ws.drop_last(),
            ds.drop_last(),
            title_contains,
            class_contains,
            pid,
            app_root_pid,
        );
        if window_passes(ws.last(), title_contains, class_contains, pid, app_root_pid, ds.last()) {
            before.push(ws.last())
        } else {
            before
        }
    }
}

/// The windows that pass the match filters, in order. `descends[i]` tells whether
/// the process of window `i` descends from the targeted app's process.
pub fn filter_matching_windows(
    windows: Vec<WorkspaceWindow>,
    title_contains: &Option<String>,
    class_contains: &Option<String>,
    pid: Option<u32>,
    app_root_pid: Option<u32>,
    descends: &Vec<bool>,
) -> (r: Vec<WorkspaceWindow>)
    requires
        descends@.len() == windows@.len(),
    ensures
        r@ == selected_windows(
            windows@,
            descends@,
            *title_contains,
            *class_contains,
            pid,
            app_root_pid,
        ),
{
    let ghost all = windows@;
    let n = windows.len();
    let mut rest = windows;
    let mut out: Vec<WorkspaceWindow> = Vec::new();
    let mut k: usize = 0;
    assert(all.subrange(0, 0).len() == 0);
    while rest.len() > 0
        invariant
            n == all.len(),
            descends@.len() == all.len(),
            k + rest@.len() == all.len(),
            rest@ == all.subrange(k as int, all.len() as int),
            out@ == selected_windows(
                all.subrange(0, k as int),
                descends@.subrange(0, k as int),
                *title_contains,
                *class_contains,
                pid,
                app_root_pid,
            ),
        decreases rest.len(),
    {
        let w = rest.remove(0);
        proof {
            assert(w == all[k as int]);
            assert(rest@ =~= all.subrange(k + 1, all.len() as int));
            assert(all.subrange(0, k + 1).drop_last() =~= all.subrange(0, k as int));
            assert(all.subrange(0, k + 1).last() == all[k as int]);
            assert(descends@.subrange(0, k + 1).drop_last() =~= descends@.subrange(0, k as int));
            assert(descends@.subrange(0, k + 1).last() == descends@[k as int]);
        }
        let title_ok = match title_contains {
            Some(t) => contains_str(w.title.as_str(), t.as_str()),
            None => true,
        };
        let class_ok = match class_contains {
            Some(c) => (match &w.wm_class {
                Some(wc) => contains_ascii_case_insensitive(wc.as_str(), c.as_str()),
                None => false,
            }) || (match &w.wm_instance {
                Some(wi) => contains_ascii_case_insensitive(wi.as_str(), c.as_str()),
                None => false,
            }),
            None => true,
        };
        let pid_ok = if pid.is_some() {
            w.pid == pid
        } else if app_root_pid.is_some() {
            w.pid.is_some() && descends[k]
        } else {
            true
        };
        if title_ok && class_ok && pid_ok {
            out.push(w);
        }
        k += 1;
    }
    proof {
        assert(all.subrange(0, all.len() as int) =~= all);
        assert(descends@.subrange(0, all.len() as int) =~= descends@);
    }
    out
}

// ---------------------------------------------------------------------------
// Screenshot paths and log tails

/// Where a screenshot goes: an absolute output path as given, a relative one under
/// the runtime directory, or `screenshot-<now>.png` there.
pub open spec fn screenshot_path(runtime_dir: Seq<char>, output_path: Option<Seq<char>>, now: nat) -> Seq<
    char,
> {
    match output_path {
        Some(p) => if is_absolute(p) {
            p
        } else {
            join_path(runtime_dir, p)
        },
        None => join_path(runtime_dir, "screenshot-"@ + decimal(now) + ".png"@),
    }
}

/// The path of a screenshot of the whole display, taken at `now_unix`.
pub fn resolve_screenshot_path(runtime_dir: &str, output_path: Option<String>, now_unix: u64) -> (r:
    String)
    ensures
        r@ == screenshot_path(runtime_dir@, text_opt(output_path), now_unix as nat),
{
    match output_path {
        Some(p) => {
            if is_absolute_path(p.as_str()) {
                p
            } else {
                join_path_str(runtime_dir, p.as_str())
            }
        },
        None => {
            let mut name = String::from_str("screenshot-");
            name.append(u64_to_string(now_unix).as_str());
            name.append(".png");
            join_path_str(runtime_dir, name.as_str())
        },
    }
}

/// Where a window screenshot goes: as for the display, with the default name
/// `screenshot-window-<window id>-<now>.png`.
pub open spec fn window_screenshot_path(
    runtime_dir: Seq<char>,
    window_id: Seq<char>,
    output_path: Option<Seq<char>>,
    now: nat,
) -> Seq<char> {
    match output_path {
        Some(p) => if is_absolute(p) {
            p
        } else {
            join_path(runtime_dir, p)
        },
        None => join_path(
            runtime_dir,
            "screenshot-window-"@ + window_id + "-"@ + decimal(now) + ".png"@,
        ),
    }
}

/// The path of a screenshot of one window, taken at `now_unix`.
pub fn resolve_window_screenshot_path(
    runtime_dir: &str,
    window_id: &str,
    output_path: Option<String>,
    now_unix: u64,
) -> (r: String)
    ensures
        r@ == window_screenshot_path(runtime_dir@, window_id@, text_opt(output_path), now_unix as nat),
{
    match output_path {
        Some(p) => {
            if is_absolute_path(p.as_str()) {
                p
            } else {
                join_path_str(runtime_dir, p.as_str())
            }
        },
        None => {
            let mut name = String::from_str("screenshot-window-");
            name.append(window_id);
            name.append("-");
            name.append(u64_to_string(now_unix).as_str());
            name.append(".png");
            join_path_str(runtime_dir, name.as_str())
        },
    }
}

/// Which part of a log of `total` bytes a read returns: from `start` to the end,
/// at most `tail_bytes` bytes (all of it when no tail is asked for).
pub open spec fn log_tail_start(total: nat, tail_bytes: Option<u64>) -> nat {
    match tail_bytes {
        Some(t) => if t >= total {
            0
        } else {
            (total - t) as nat
        },
        None => 0,
    }
}

/// The tail of a log of `total` bytes: where it starts, how many bytes it holds,
/// and whether bytes before it were left out.
pub fn log_tail(total: usize, tail_bytes: Option<u64>) -> (r: (usize, u64, bool))
    ensures
        r.0 == log_tail_start(total as nat, tail_bytes),
        r.1 == total - r.0,
        r.2 == (r.0 > 0),
{
    let limit: usize = match tail_bytes {
        Some(t) => if t >= total as u64 {
            total
        } else {
            t as usize
        },
        None => total,
    };
    let start = total - limit;
    (start, (total - start) as u64, start > 0)
}

} // verus!
