use vstd::prelude::*;
use crate::component::splits::Component;
use crate::component::splits::column::{ColumnSettings, ColumnState};
use crate::component::splits::settings::Settings;
use crate::component::splits::window::{Window, is_window, rows, shown, window};
use crate::settings::color::{Gradient, ListGradient};

verus! {

/// The name of an image: the SHA-256 digest of its data.
#[derive(Clone, Copy, Debug, PartialEq, Eq, Hash)]
pub struct ImageId {
    pub hash: [u8; 32],
}

/// The digest of the image without data.
pub open spec fn empty_hash() -> Seq<u8> {
    seq![
        0xe3u8, 0xb0u8, 0xc4u8, 0x42u8, 0x98u8, 0xfcu8, 0x1cu8, 0x14u8, 0x9au8, 0xfbu8, 0xf4u8,
        0xc8u8, 0x99u8, 0x6fu8, 0xb9u8, 0x24u8, 0x27u8, 0xaeu8, 0x41u8, 0xe4u8, 0x64u8, 0x9bu8,
        0x93u8, 0x4cu8, 0xa4u8, 0x95u8, 0x99u8, 0x1bu8, 0x78u8, 0x52u8, 0xb8u8, 0x55u8,
    ]
}

impl ImageId {
    /// The name of the image without data, which stands for "no image".
    pub fn empty() -> (r: ImageId)
        ensures
            r.hash@ == empty_hash(),
    {
        let r = ImageId {
            hash: [
                0xe3, 0xb0, 0xc4, 0x42, 0x98, 0xfc, 0x1c, 0x14, 0x9a, 0xfb, 0xf4, 0xc8, 0x99, 0x6f,
                0xb9, 0x24, 0x27, 0xae, 0x41, 0xe4, 0x64, 0x9b, 0x93, 0x4c, 0xa4, 0x95, 0x99, 0x1b,
                0x78, 0x52, 0xb8, 0x55,
            ],
        };
        assert(r.hash@ =~= empty_hash());
        r
    }

    /// Whether this is the name of the image without data.
    pub fn is_empty(&self) -> (r: bool)
        ensures
            r == (self.hash@ == empty_hash()),
    {
        let empty = ImageId::empty();
        let mut i: usize = 0;
        while i < 32
            invariant
                i <= 32,
                empty.hash@ == empty_hash(),
                forall|j: int| 0 <= j < i ==> self.hash@[j] == empty.hash@[j],
            decreases 32 - i,
        {
            if self.hash[i] != empty.hash[i] {
                return false;
            }
            i += 1;
        }
        assert(self.hash@ =~= empty_hash());
        true
    }
}

/// What the list of splits needs to know of a segment.
#[derive(Clone, Debug, PartialEq, Eq)]
pub struct Segment {
    /// The icon of the segment; the image without data where it has none.
    pub icon: ImageId,
    /// The name of the segment.
    pub name: String,
}

/// What the list shows for one segment.
#[derive(Clone, Debug, PartialEq, Eq)]
pub struct SplitState {
    /// The icon of the segment; the image without data where it has none.
    pub icon: ImageId,
    /// The name of the segment.
    pub name: String,
    /// What the columns show, from right to left.
    pub columns: Vec<ColumnState>,
    /// Whether the segment is the current one.
    pub is_current_split: bool,
    /// The number of the segment among all the segments of the run. No two
    /// rows have the same number; the blank rows have numbers of their own.
    pub index: usize,
}

/// What the list of splits shows.
#[derive(Clone, Debug, PartialEq, Eq)]
pub struct State {
    /// The background shown behind the splits.
    pub background: ListGradient,
    /// The names of the columns, from right to left, where they are shown.
    pub column_labels: Option<Vec<String>>,
    /// The rows.
    pub splits: Vec<SplitState>,
    /// Whether any segment of the run has an icon, shown or not.
    pub has_icons: bool,
    /// Whether thin separators are shown between the rows.
    pub show_thin_separators: bool,
    /// Whether the stronger separator is shown in front of the last row.
    pub show_final_separator: bool,
    /// Whether a segment takes two rows.
    pub display_two_rows: bool,
    /// The gradient behind the current segment.
    pub current_split_gradient: Gradient,
}

/// The number that the first blank row has.
pub const FIRST_BLANK_INDEX: usize = usize::MAX - 1;

/// The number of a blank row: the largest even number for the first one,
/// and two less for each one that follows, going round where the numbers
/// run out.
pub open spec fn blank_index(row: usize) -> usize {
    FIRST_BLANK_INDEX.wrapping_sub(2usize.wrapping_mul(row))
}

/// As long as the numbers do not run out, each blank row has a number of
/// its own: two less than the row before it, from the largest even number
/// down.
pub proof fn law_blank_index(row: usize)
    requires
        2 * row <= usize::MAX - 1,
    ensures
        blank_index(row) == usize::MAX - 1 - 2 * row,
{
    vstd::arithmetic::div_mod::lemma_small_mod((2 * row) as nat, (usize::MAX + 1) as nat);
}

/// The names of the columns.
pub open spec fn column_names(columns: Seq<ColumnSettings>) -> Seq<Seq<char>> {
    columns.map_values(|column: ColumnSettings| column.name@)
}

/// The texts, as mathematics.
pub open spec fn texts_view(texts: Seq<String>) -> Seq<Seq<char>> {
    texts.map_values(|text: String| text@)
}

/// Whether any of the segments has an icon.
pub open spec fn any_icon(segments: Seq<Segment>) -> bool {
    exists|i: int| 0 <= i < segments.len() && (#[trigger] segments[i]).icon.hash@ != empty_hash()
}

/// How many blank rows follow the rows of the segments: as many as are
/// missing to fill the list, where the settings ask for that.
pub open spec fn blank_rows(fill_with_blank_space: bool, wanted: int, filled: int) -> int {
    if fill_with_blank_space && filled < wanted {
        wanted - filled
    } else {
        0
    }
}

/// Whether the row shows the segment `index`, with what `column_state`
/// gives for each column.
pub open spec fn is_segment_row<F: Fn(usize, usize) -> ColumnState>(
    row: SplitState,
    segments: Seq<Segment>,
    index: usize,
    current: Option<usize>,
    columns: int,
    column_state: F,
) -> bool {
    &&& row.index == index
    &&& row.is_current_split == (current == Some(index))
    &&& row.icon == segments[index as int].icon
    &&& row.name@ == segments[index as int].name@
    &&& row.columns.len() == columns
    &&& forall|column: int|
        0 <= column < columns ==> call_ensures(
            column_state,
            (index, column as usize),
            #[trigger] row.columns[column],
        )
}

/// Whether the row is the blank row with the number `row_number` among the
/// blank rows.
pub open spec fn is_blank_row(row: SplitState, row_number: usize) -> bool {
    &&& row.index == blank_index(row_number)
    &&& !row.is_current_split
    &&& row.icon.hash@ == empty_hash()
    &&& row.name@ == Seq::<char>::empty()
    &&& row.columns.len() == 0
}

/// Whether the rows are those of the window: one for each segment that the
/// window shows, in their order, and the blank rows after them.
pub open spec fn are_rows<F: Fn(usize, usize) -> ColumnState>(
    splits: Seq<SplitState>,
    settings: Settings,
    segments: Seq<Segment>,
    current: Option<usize>,
    window: Window,
    column_state: F,
) -> bool {
    let visible = shown(window, settings.always_show_last_split, segments.len() as int);
    let blank = blank_rows(
        settings.fill_with_blank_space,
        window.visual_split_count as int,
        visible.len() as int,
    );
    &&& splits.len() == visible.len() + blank
    &&& forall|row: int|
        0 <= row < visible.len() ==> is_segment_row(
            #[trigger] splits[row],
            segments,
            visible[row],
            current,
            settings.columns.len() as int,
            column_state,
        )
    &&& forall|row: int|
        visible.len() <= row < splits.len() ==> is_blank_row(
            #[trigger] splits[row],
            (row - visible.len()) as usize,
        )
}

/// Whether the state is what a list with the given settings and window
/// shows for the segments.
pub open spec fn is_state<F: Fn(usize, usize) -> ColumnState>(
    state: State,
    settings: Settings,
    segments: Seq<Segment>,
    current: Option<usize>,
    window: Window,
    column_state: F,
) -> bool {
    &&& state.background == settings.background
    &&& match state.column_labels {
        Some(labels) => settings.show_column_labels && texts_view(labels@) == column_names(
            settings.columns@,
        ),
        None => !settings.show_column_labels,
    }
    &&& are_rows(state.splits@, settings, segments, current, window, column_state)
    &&& state.has_icons == any_icon(segments)
    &&& state.show_thin_separators == settings.show_thin_separators
    &&& state.show_final_separator == window.show_final_separator
    &&& state.display_two_rows == settings.display_two_rows
    &&& state.current_split_gradient == settings.current_split_gradient
}

/// The names of the columns.
fn labels(columns: &Vec<ColumnSettings>) -> (r: Vec<String>)
    ensures
        texts_view(r@) == column_names(columns@),
{
    let mut r: Vec<String> = Vec::new();
    let mut i: usize = 0;
    while i < columns.len()
        invariant
            i <= columns.len(),
            r.len() == i,
            forall|j: int| 0 <= j < i ==> (#[trigger] r[j])@ == columns[j].name@,
        decreases columns.len() - i,
    {
        r.push(columns[i].name.clone());
        i += 1;
    }
    assert(texts_view(r@) =~= column_names(columns@));
    r
}

/// Whether any of the segments has an icon.
fn has_icons(segments: &Vec<Segment>) -> (r: bool)
    ensures
        r == any_icon(segments@),
{
    let mut i: usize = 0;
    while i < segments.len()
        invariant
            i <= segments.len(),
            forall|j: int| 0 <= j < i ==> (#[trigger] segments[j]).icon.hash@ == empty_hash(),
        decreases segments.len() - i,
    {
        if !segments[i].icon.is_empty() {
            return true;
        }
        i += 1;
    }
    false
}

/// The row of the segment `index`.
fn segment_row<F: Fn(usize, usize) -> ColumnState>(
    segments: &Vec<Segment>,
    index: usize,
    current: Option<usize>,
    columns: usize,
    column_state: &F,
) -> (r: SplitState)
    requires
        index < segments.len(),
        forall|column: usize| column < columns ==> call_requires(*column_state, (index, column)),
    ensures
        is_segment_row(r, segments@, index, current, columns as int, *column_state),
{
    let mut states: Vec<ColumnState> = Vec::new();
    let mut column: usize = 0;
    while column < columns
        invariant
            column <= columns,
            states.len() == column,
            forall|c: usize| c < columns ==> call_requires(*column_state, (index, c)),
            forall|c: int|
                0 <= c < column ==> call_ensures(
                    *column_state,
                    (index, c as usize),
                    #[trigger] states[c],
                ),
        decreases columns - column,
    {
        let state = column_state(index, column);
        states.push(state);
        column += 1;
    }
    let is_current_split = match current {
        Some(current) => current == index,
        None => false,
    };
    SplitState {
        icon: segments[index].icon,
        name: segments[index].name.clone(),
        columns: states,
        is_current_split,
        index,
    }
}

impl Component {
    /// Works out what the list shows for the segments `segments`, of which
    /// `current_split_index` is the current one; `column_state` gives what a
    /// column shows for a segment, from the number of the segment and the
    /// number of the column. When the current segment is not the one that
    /// the component last saw, the scrolling starts over. The scrolling is
    /// held within the segments, and the component remembers it as held.
    pub fn update_state<F: Fn(usize, usize) -> ColumnState>(
        &mut self,
        state: &mut State,
        segments: &Vec<Segment>,
        current_split_index: Option<usize>,
        column_state: F,
    )
        requires
            segments.len() <= isize::MAX,
            forall|segment: usize, column: usize|
                segment < segments.len() && column < old(self).spec_settings().columns.len()
                    ==> call_requires(column_state, (segment, column)),
        ensures
            final(self).spec_settings() == old(self).spec_settings(),
            final(self).spec_current_split_index() == current_split_index,
            is_window(
                final(self).spec_window(segments.len() as int),
                old(self).spec_settings()@,
                segments.len() as int,
                current_split_index,
                old(self).spec_scroll_after(current_split_index) as int,
            ),
            final(self).spec_scroll_offset() == final(self).spec_window(
                segments.len() as int,
            ).scroll_offset,
            is_state(
                *final(state),
                old(self).spec_settings(),
                segments@,
                current_split_index,
                final(self).spec_window(segments.len() as int),
                column_state,
            ),
    {
        if !same_index(self.current_split_index, current_split_index) {
            self.current_split_index = current_split_index;
            self.scroll_offset = 0;
        }
        let run_len = segments.len();
        let window = window(&self.settings, run_len, current_split_index, self.scroll_offset);
        self.scroll_offset = window.scroll_offset;
        proof {
            crate::component::splits::window::law_scrolled_is_stable(
                self.settings@,
                run_len as int,
                current_split_index,
                old(self).spec_scroll_after(current_split_index) as int,
            );
        }

        state.background = self.settings.background;
        if self.settings.show_column_labels {
            state.column_labels = Some(labels(&self.settings.columns));
        } else {
            state.column_labels = None;
        }

        let visible = rows(&window, self.settings.always_show_last_split, run_len);
        proof {
            crate::component::splits::window::law_shown(
                window,
                self.settings.always_show_last_split,
                run_len as int,
                run_len as int,
            );
        }
        let columns = self.settings.columns.len();
        let mut splits: Vec<SplitState> = Vec::new();
        let mut row: usize = 0;
        while row < visible.len()
            invariant
                row <= visible.len(),
                splits.len() == row,
                columns == self.settings.columns.len(),
                forall|i: int| 0 <= i < visible.len() ==> (#[trigger] visible[i]) < segments.len(),
                forall|segment: usize, column: usize|
                    segment < segments.len() && column < columns ==> call_requires(
                        column_state,
                        (segment, column),
                    ),
                forall|i: int|
                    0 <= i < row ==> is_segment_row(
                        #[trigger] splits[i],
                        segments@,
                        visible[i],
                        current_split_index,
                        columns as int,
                        column_state,
                    ),
            decreases visible.len() - row,
        {
            let index = visible[row];
            splits.push(segment_row(segments, index, current_split_index, columns, &column_state));
            row += 1;
        }
        if self.settings.fill_with_blank_space && visible.len() < window.visual_split_count {
            let blank = window.visual_split_count - visible.len();
            let mut number: usize = 0;
            while number < blank
                invariant
                    number <= blank,
                    blank == window.visual_split_count - visible.len(),
                    splits.len() == visible.len() + number,
                    forall|i: int|
                        0 <= i < visible.len() ==> is_segment_row(
                            #[trigger] splits[i],
                            segments@,
                            visible[i],
                            current_split_index,
                            columns as int,
                            column_state,
                        ),
                    forall|i: int|
                        visible.len() <= i < splits.len() ==> is_blank_row(
                            #[trigger] splits[i],
                            (i - visible.len()) as usize,
                        ),
                decreases blank - number,
            {
                splits.push(
                    SplitState {
                        icon: ImageId::empty(),
                        name: String::new(),
                        columns: Vec::new(),
                        is_current_split: false,
                        index: FIRST_BLANK_INDEX.wrapping_sub(2usize.wrapping_mul(number)),
                    },
                );
                number += 1;
            }
        }
        state.splits = splits;
        state.has_icons = has_icons(segments);
        state.show_thin_separators = self.settings.show_thin_separators;
        state.show_final_separator = window.show_final_separator;
        state.display_two_rows = self.settings.display_two_rows;
        state.current_split_gradient = self.settings.current_split_gradient;
    }

    /// Works out what the list shows, as [`Component::update_state`] does,
    /// into a state of its own.
    pub fn state<F: Fn(usize, usize) -> ColumnState>(
        &mut self,
        segments: &Vec<Segment>,
        current_split_index: Option<usize>,
        column_state: F,
    ) -> (state: State)
        requires
            segments.len() <= isize::MAX,
            forall|segment: usize, column: usize|
                segment < segments.len() && column < old(self).spec_settings().columns.len()
                    ==> call_requires(column_state, (segment, column)),
        ensures
            final(self).spec_settings() == old(self).spec_settings(),
            final(self).spec_current_split_index() == current_split_index,
            is_window(
                final(self).spec_window(segments.len() as int),
                old(self).spec_settings()@,
                segments.len() as int,
                current_split_index,
                old(self).spec_scroll_after(current_split_index) as int,
            ),
            final(self).spec_scroll_offset() == final(self).spec_window(
                segments.len() as int,
            ).scroll_offset,
            is_state(
                state,
                old(self).spec_settings(),
                segments@,
                current_split_index,
                final(self).spec_window(segments.len() as int),
                column_state,
            ),
    {
        let mut state = State {
            background: ListGradient::Same(Gradient::Transparent),
            column_labels: None,
            splits: Vec::new(),
            has_icons: false,
            show_thin_separators: false,
            show_final_separator: false,
            display_two_rows: false,
            current_split_gradient: Gradient::Transparent,
        };
        self.update_state(&mut state, segments, current_split_index, column_state);
        state
    }
}

/// Whether the two are the same segment, or both none.
fn same_index(a: Option<usize>, b: Option<usize>) -> (r: bool)
    ensures
        r == (a == b),
{
    match (a, b) {
        (Some(a), Some(b)) => a == b,
        (None, None) => true,
        _ => false,
    }
}

} // verus!
