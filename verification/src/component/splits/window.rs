use vstd::prelude::*;
use crate::component::splits::settings::{Settings, SettingsView};

verus! {

/// The smaller of two numbers.
pub open spec fn least(a: int, b: int) -> int {
    if a <= b {
        a
    } else {
        b
    }
}

/// The larger of two numbers.
pub open spec fn most(a: int, b: int) -> int {
    if a >= b {
        a
    } else {
        b
    }
}

/// How many rows the list has: as many as the settings say, or one for each
/// segment where they say 0.
pub open spec fn rows_wanted(settings: SettingsView, run_len: int) -> int {
    if settings.visual_split_count == 0 {
        run_len
    } else {
        settings.visual_split_count as int
    }
}

/// How many rows are kept for the last segment: one where it is always
/// shown.
pub open spec fn rows_kept(settings: SettingsView) -> int {
    if settings.always_show_last_split {
        1
    } else {
        0
    }
}

/// How many segments a window leaves out at the top when it follows the
/// current segment: so many that the current segment, `ahead` segments
/// after it and the `kept` rows at the bottom fit into `wanted` rows, but
/// never so many that rows stay empty at the bottom. Without a current
/// segment the window starts at the top.
pub open spec fn follow(wanted: int, kept: int, ahead: int, run_len: int, current: Option<usize>) -> int {
    let first = match current {
        Some(current) => most(0, current + ahead + kept + 1 - wanted),
        None => 0,
    };
    least(first, run_len - wanted)
}

/// How far a window is scrolled, held within the segments: not above the
/// first segment and not below the last.
pub open spec fn hold(wanted: int, skip: int, run_len: int, scroll_offset: int) -> int {
    least(most(scroll_offset, -skip), run_len - skip - wanted)
}

/// How many segments the window leaves out at the top when it follows the
/// current segment.
pub open spec fn followed(settings: SettingsView, run_len: int, current: Option<usize>) -> int {
    follow(
        rows_wanted(settings, run_len),
        rows_kept(settings),
        settings.split_preview_count as int,
        run_len,
        current,
    )
}

/// How far the window is scrolled, held within the segments.
pub open spec fn scrolled(
    settings: SettingsView,
    run_len: int,
    current: Option<usize>,
    scroll_offset: int,
) -> int {
    hold(
        rows_wanted(settings, run_len),
        followed(settings, run_len, current),
        run_len,
        scroll_offset,
    )
}

/// The first segment that the window shows.
pub open spec fn skipped(
    settings: SettingsView,
    run_len: int,
    current: Option<usize>,
    scroll_offset: int,
) -> int {
    most(
        0,
        followed(settings, run_len, current) + scrolled(
            settings,
            run_len,
            current,
            scroll_offset,
        ),
    )
}

/// How many segments the window shows in a row from its first one: the rows
/// of the list but for the one kept for the last segment.
pub open spec fn taken(settings: SettingsView, run_len: int) -> int {
    most(0, rows_wanted(settings, run_len) - rows_kept(settings))
}

/// Whether the stronger separator stands in front of the last segment: the
/// settings ask for it, the last segment is always shown, and the segment
/// before it is not the one shown above it.
pub open spec fn final_separator(
    settings: SettingsView,
    run_len: int,
    current: Option<usize>,
    scroll_offset: int,
) -> bool {
    settings.separator_last_split && settings.always_show_last_split && skipped(
        settings,
        run_len,
        current,
        scroll_offset,
    ) + taken(settings, run_len) + 1 < run_len
}

/// Where the window of the list stands over the segments.
#[derive(Clone, Copy, Debug, PartialEq, Eq, Structural)]
pub struct Window {
    /// How many rows the list has.
    pub visual_split_count: usize,
    /// How far the window is scrolled from where it follows the current
    /// segment.
    pub scroll_offset: isize,
    /// The first segment that is shown.
    pub skip_count: usize,
    /// How many segments are shown in a row from the first one.
    pub take_count: usize,
    /// Whether the stronger separator stands in front of the last segment.
    pub show_final_separator: bool,
}

/// Whether the window is the one that the settings, the number of segments,
/// the current segment and the scrolling give.
pub open spec fn is_window(
    window: Window,
    settings: SettingsView,
    run_len: int,
    current: Option<usize>,
    scroll_offset: int,
) -> bool {
    &&& window.visual_split_count == rows_wanted(settings, run_len)
    &&& window.scroll_offset == scrolled(settings, run_len, current, scroll_offset)
    &&& window.skip_count == skipped(settings, run_len, current, scroll_offset)
    &&& window.take_count == taken(settings, run_len)
    &&& window.show_final_separator == final_separator(
        settings,
        run_len,
        current,
        scroll_offset,
    )
}

/// Whether the window shows the segment `index`: it is one of those shown
/// in a row from the first one, or it is the last segment and that one is
/// always shown.
pub open spec fn shows(window: Window, always_show_last_split: bool, run_len: int, index: int) -> bool {
    &&& window.skip_count <= index < run_len
    &&& (index - window.skip_count < window.take_count || (always_show_last_split && index + 1
        == run_len))
}

/// The segments up to `until` that the window shows, in their order.
pub open spec fn shown_until(
    window: Window,
    always_show_last_split: bool,
    run_len: int,
    until: int,
) -> Seq<usize>
    decreases until,
{
    if until <= 0 {
        Seq::empty()
    } else {
        let before = shown_until(window, always_show_last_split, run_len, until - 1);
        if shows(window, always_show_last_split, run_len, until - 1) {
            before.push((until - 1) as usize)
        } else {
            before
        }
    }
}

/// The segments that the window shows, in their order.
pub open spec fn shown(window: Window, always_show_last_split: bool, run_len: int) -> Seq<usize> {
    shown_until(window, always_show_last_split, run_len, run_len)
}

/// Works out how many segments a window leaves out at the top when it
/// follows the current segment.
fn follow_of(wanted: i128, kept: i128, ahead: usize, run_len: usize, current: Option<usize>) -> (r:
    i128)
    requires
        0 <= wanted <= usize::MAX,
        0 <= kept <= 1,
    ensures
        r == follow(wanted as int, kept as int, ahead as int, run_len as int, current),
        -(usize::MAX as int) <= r <= run_len,
        r <= run_len - wanted,
        r >= 0 || r == run_len - wanted,
{
    let first: i128 = match current {
        Some(current) => {
            let first = current as i128 + ahead as i128 + kept + 1 - wanted;
            if first > 0 {
                first
            } else {
                0
            }
        },
        None => 0,
    };
    if first <= run_len as i128 - wanted {
        first
    } else {
        run_len as i128 - wanted
    }
}

/// Holds the scrolling of a window within the segments.
fn hold_of(wanted: i128, skip: i128, run_len: usize, scroll_offset: isize) -> (r: isize)
    requires
        0 <= wanted <= usize::MAX,
        -(usize::MAX as int) <= skip <= run_len - wanted,
        skip >= 0 || skip == run_len - wanted,
        run_len <= isize::MAX,
    ensures
        r == hold(wanted as int, skip as int, run_len as int, scroll_offset as int),
        skip + r <= run_len - wanted,
{
    let lower: i128 = if scroll_offset as i128 >= -skip {
        scroll_offset as i128
    } else {
        -skip
    };
    let held: i128 = if lower <= run_len as i128 - skip - wanted {
        lower
    } else {
        run_len as i128 - skip - wanted
    };
    held as isize
}

/// Works out where the window stands: for a list with the given settings
/// over `run_len` segments, of which `current` is the current one, scrolled
/// by `scroll_offset` rows.
pub fn window(settings: &Settings, run_len: usize, current: Option<usize>, scroll_offset: isize) -> (r:
    Window)
    requires
        run_len <= isize::MAX,
    ensures
        is_window(r, settings@, run_len as int, current, scroll_offset as int),
        r.skip_count <= run_len,
{
    let visual_split_count = if settings.visual_split_count == 0 {
        run_len
    } else {
        settings.visual_split_count
    };
    let wanted: i128 = visual_split_count as i128;
    let kept: i128 = if settings.always_show_last_split {
        1
    } else {
        0
    };
    let skip = follow_of(wanted, kept, settings.split_preview_count, run_len, current);
    let held = hold_of(wanted, skip, run_len, scroll_offset);
    let skip_count: usize = if skip + held as i128 > 0 {
        (skip + held as i128) as usize
    } else {
        0
    };
    let take_count: usize = if settings.always_show_last_split && visual_split_count > 0 {
        visual_split_count - 1
    } else {
        visual_split_count
    };
    let show_final_separator = settings.separator_last_split && settings.always_show_last_split
        && skip_count as i128 + take_count as i128 + 1 < run_len as i128;
    Window {
        visual_split_count,
        scroll_offset: held,
        skip_count,
        take_count,
        show_final_separator,
    }
}

/// The segments that the window shows, in their order.
pub fn rows(window: &Window, always_show_last_split: bool, run_len: usize) -> (r: Vec<usize>)
    ensures
        r@ == shown(*window, always_show_last_split, run_len as int),
{
    let mut r: Vec<usize> = Vec::new();
    let mut index: usize = 0;
    while index < run_len
        invariant
            index <= run_len,
            r@ == shown_until(*window, always_show_last_split, run_len as int, index as int),
        decreases run_len - index,
    {
        if index >= window.skip_count && (index - window.skip_count < window.take_count || (
        always_show_last_split && index + 1 == run_len)) {
            r.push(index);
        }
        index += 1;
    }
    r
}

/// The window shows the segments from its first one on, as many as it takes
/// in a row, and the last segment where that one is always shown; it shows
/// no segment twice, and shows them in their order.
pub proof fn law_shown(window: Window, always_show_last_split: bool, run_len: int, until: int)
    requires
        0 <= until <= run_len <= usize::MAX,
    ensures
        forall|i: int|
            0 <= i < shown_until(window, always_show_last_split, run_len, until).len() ==> {
                let index = #[trigger] shown_until(window, always_show_last_split, run_len, until)[i];
                index < until && shows(window, always_show_last_split, run_len, index as int)
            },
        forall|i: int, j: int|
            0 <= i < j < shown_until(window, always_show_last_split, run_len, until).len()
                ==> shown_until(window, always_show_last_split, run_len, until)[i] < shown_until(
                window,
                always_show_last_split,
                run_len,
                until,
            )[j],
        forall|index: int|
            0 <= index < until && shows(window, always_show_last_split, run_len, index)
                ==> shown_until(window, always_show_last_split, run_len, until).contains(
                index as usize,
            ),
        shown_until(window, always_show_last_split, run_len, until).len() <= until,
    decreases until,
{
    if until > 0 {
        law_shown(window, always_show_last_split, run_len, until - 1);
        let before = shown_until(window, always_show_last_split, run_len, until - 1);
        let all = shown_until(window, always_show_last_split, run_len, until);
        assert forall|index: int|
            0 <= index < until && shows(
                window,
                always_show_last_split,
                run_len,
                index,
            ) implies all.contains(index as usize) by {
            if index < until - 1 {
                let at = choose|at: int| 0 <= at < before.len() && before[at] == index as usize;
                assert(all[at] == index as usize);
            } else {
                assert(all[all.len() - 1] == index as usize);
            }
        }
    }
}

/// How many of the segments up to `until` the window shows: those from its
/// first one on, as many as it takes in a row, and one more once the last
/// segment is reached that is always shown and is not among them.
pub open spec fn shown_count(
    window: Window,
    always_show_last_split: bool,
    run_len: int,
    until: int,
) -> int {
    let in_a_row = least(most(0, until - window.skip_count), window.take_count as int);
    if always_show_last_split && until == run_len && run_len - 1 >= window.skip_count
        + window.take_count {
        in_a_row + 1
    } else {
        in_a_row
    }
}

/// The number of segments that the window shows up to `until`.
pub proof fn law_shown_count(window: Window, always_show_last_split: bool, run_len: int, until: int)
    requires
        0 <= until <= run_len,
    ensures
        shown_until(window, always_show_last_split, run_len, until).len() == shown_count(
            window,
            always_show_last_split,
            run_len,
            until,
        ),
    decreases until,
{
    if until > 0 {
        law_shown_count(window, always_show_last_split, run_len, until - 1);
    }
}

/// The window never shows more segments than the list has rows.
pub proof fn law_rows_fit(
    window: Window,
    settings: SettingsView,
    run_len: int,
    current: Option<usize>,
    scroll_offset: int,
)
    requires
        0 <= run_len,
        is_window(window, settings, run_len, current, scroll_offset),
    ensures
        shown(window, settings.always_show_last_split, run_len).len() <= window.visual_split_count,
        rows_wanted(settings, run_len) <= run_len ==> shown(
            window,
            settings.always_show_last_split,
            run_len,
        ).len() == window.visual_split_count,
{
    law_shown_count(window, settings.always_show_last_split, run_len, run_len);
}

/// The window never shows more rows than the list has, and with enough
/// segments it shows exactly that many.
pub proof fn law_window_fits(
    settings: SettingsView,
    run_len: int,
    current: Option<usize>,
    scroll_offset: int,
)
    requires
        0 <= run_len,
    ensures
        0 <= skipped(settings, run_len, current, scroll_offset) <= run_len,
        rows_wanted(settings, run_len) <= run_len ==> skipped(
            settings,
            run_len,
            current,
            scroll_offset,
        ) + rows_wanted(settings, run_len) <= run_len,
        least(scroll_offset, 0) <= scrolled(settings, run_len, current, scroll_offset) <= most(
            scroll_offset,
            run_len,
        ),
{
}

/// Where the window stands after it was held within the segments, it stays
/// when it is held within them again: the scrolling that comes out is kept.
pub proof fn law_scrolled_is_stable(
    settings: SettingsView,
    run_len: int,
    current: Option<usize>,
    scroll_offset: int,
)
    ensures
        scrolled(
            settings,
            run_len,
            current,
            scrolled(settings, run_len, current, scroll_offset),
        ) == scrolled(settings, run_len, current, scroll_offset),
{
}

} // verus!
