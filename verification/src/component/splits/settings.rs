use vstd::prelude::*;
use crate::component::splits::column::{
    ColumnKind, ColumnKindView, ColumnSettings, ColumnSettingsView, ColumnStartWith,
    ColumnUpdateTrigger, ColumnUpdateWith, TimeColumn, TimeColumnView,
};
use crate::settings::color::{Color, Gradient, ListGradient};
use crate::timing::Accuracy;

verus! {

/// The settings of the list of splits.
#[derive(Clone, Debug, PartialEq, Eq)]
pub struct Settings {
    /// The background shown behind the splits.
    pub background: ListGradient,
    /// How many rows the list shows at a time; 0 shows all the segments.
    /// With fewer rows than segments the list shows a window of them, which
    /// can scroll.
    pub visual_split_count: usize,
    /// How many segments after the current one the window shows at least
    /// when it follows the current segment.
    pub split_preview_count: usize,
    /// Whether thin separators are shown between the rows.
    pub show_thin_separators: bool,
    /// Whether a stronger separator is shown in front of the last segment
    /// where the segment before it is not shown right above it.
    pub separator_last_split: bool,
    /// Whether the last segment is shown even when the window does not
    /// reach it.
    pub always_show_last_split: bool,
    /// Whether rows that no segment fills are shown as blank rows.
    pub fill_with_blank_space: bool,
    /// Whether a segment takes two rows, the name in one and the times in
    /// the other.
    pub display_two_rows: bool,
    /// The gradient shown behind the current segment.
    pub current_split_gradient: Gradient,
    /// The accuracy of split times.
    pub split_time_accuracy: Accuracy,
    /// The accuracy of segment times.
    pub segment_time_accuracy: Accuracy,
    /// The accuracy of the times ahead or behind.
    pub delta_time_accuracy: Accuracy,
    /// Whether a time ahead or behind loses its fraction once it is over a
    /// minute.
    pub delta_drop_decimals: bool,
    /// Whether the names of the columns are shown above the splits.
    pub show_column_labels: bool,
    /// The columns, from right to left.
    pub columns: Vec<ColumnSettings>,
}

/// The settings, as mathematics.
pub struct SettingsView {
    pub background: ListGradient,
    pub visual_split_count: usize,
    pub split_preview_count: usize,
    pub show_thin_separators: bool,
    pub separator_last_split: bool,
    pub always_show_last_split: bool,
    pub fill_with_blank_space: bool,
    pub display_two_rows: bool,
    pub current_split_gradient: Gradient,
    pub split_time_accuracy: Accuracy,
    pub segment_time_accuracy: Accuracy,
    pub delta_time_accuracy: Accuracy,
    pub delta_drop_decimals: bool,
    pub show_column_labels: bool,
    pub columns: Seq<ColumnSettingsView>,
}

/// The columns, as mathematics.
pub open spec fn columns_view(columns: Seq<ColumnSettings>) -> Seq<ColumnSettingsView> {
    columns.map_values(|column: ColumnSettings| column@)
}

impl View for Settings {
    type V = SettingsView;

    open spec fn view(&self) -> SettingsView {
        SettingsView {
            background: self.background,
            visual_split_count: self.visual_split_count,
            split_preview_count: self.split_preview_count,
            show_thin_separators: self.show_thin_separators,
            separator_last_split: self.separator_last_split,
            always_show_last_split: self.always_show_last_split,
            fill_with_blank_space: self.fill_with_blank_space,
            display_two_rows: self.display_two_rows,
            current_split_gradient: self.current_split_gradient,
            split_time_accuracy: self.split_time_accuracy,
            segment_time_accuracy: self.segment_time_accuracy,
            delta_time_accuracy: self.delta_time_accuracy,
            delta_drop_decimals: self.delta_drop_decimals,
            show_column_labels: self.show_column_labels,
            columns: columns_view(self.columns@),
        }
    }
}

/// The name of the first column of the settings to start with.
pub const TIME_COLUMN_NAME: &'static str = "Time";

/// The name of the second column of the settings to start with.
pub const DELTA_COLUMN_NAME: &'static str = "+/−";

/// White, at 4 in 100 of its strength.
pub open spec fn faint_white() -> Color {
    Color { red: 0x3F80_0000, green: 0x3F80_0000, blue: 0x3F80_0000, alpha: 0x3D23_D70A }
}

/// The blue at the top of the current segment: 51, 115 and 244 of 255.
pub open spec fn current_split_top() -> Color {
    Color { red: 0x3E4C_CCCD, green: 0x3EE6_E6E7, blue: 0x3F74_F4F5, alpha: 0x3F80_0000 }
}

/// The blue at the bottom of the current segment: 21, 53 and 116 of 255.
pub open spec fn current_split_bottom() -> Color {
    Color { red: 0x3DA8_A8A9, green: 0x3E54_D4D5, blue: 0x3EE8_E8E9, alpha: 0x3F80_0000 }
}

/// The settings to start with: sixteen rows, one segment ahead, the last
/// segment always shown, and two columns, the split time and the time ahead
/// or behind.
pub open spec fn default_settings() -> SettingsView {
    SettingsView {
        background: ListGradient::Alternating(Color::spec_transparent(), faint_white()),
        visual_split_count: 16,
        split_preview_count: 1,
        show_thin_separators: true,
        separator_last_split: true,
        always_show_last_split: true,
        fill_with_blank_space: true,
        display_two_rows: false,
        current_split_gradient: Gradient::Vertical(current_split_top(), current_split_bottom()),
        split_time_accuracy: Accuracy::Seconds,
        segment_time_accuracy: Accuracy::Hundredths,
        delta_time_accuracy: Accuracy::Tenths,
        delta_drop_decimals: true,
        show_column_labels: false,
        columns: seq![
            ColumnSettingsView {
                name: TIME_COLUMN_NAME@,
                kind: ColumnKindView::Time(
                    TimeColumnView {
                        start_with: ColumnStartWith::ComparisonTime,
                        update_with: ColumnUpdateWith::SplitTime,
                        update_trigger: ColumnUpdateTrigger::OnEndingSegment,
                        comparison_override: None,
                        timing_method: None,
                    },
                ),
            },
            ColumnSettingsView {
                name: DELTA_COLUMN_NAME@,
                kind: ColumnKindView::Time(
                    TimeColumnView {
                        start_with: ColumnStartWith::Empty,
                        update_with: ColumnUpdateWith::Delta,
                        update_trigger: ColumnUpdateTrigger::Contextual,
                        comparison_override: None,
                        timing_method: None,
                    },
                ),
            },
        ],
    }
}

impl Default for Settings {
    /// The settings to start with.
    fn default() -> (r: Settings)
        ensures
            r@ == default_settings(),
    {
        let mut columns: Vec<ColumnSettings> = Vec::new();
        columns.push(
            ColumnSettings {
                name: TIME_COLUMN_NAME.to_owned(),
                kind: ColumnKind::Time(
                    TimeColumn {
                        start_with: ColumnStartWith::ComparisonTime,
                        update_with: ColumnUpdateWith::SplitTime,
                        update_trigger: ColumnUpdateTrigger::OnEndingSegment,
                        comparison_override: None,
                        timing_method: None,
                    },
                ),
            },
        );
        columns.push(
            ColumnSettings {
                name: DELTA_COLUMN_NAME.to_owned(),
                kind: ColumnKind::Time(
                    TimeColumn {
                        start_with: ColumnStartWith::Empty,
                        update_with: ColumnUpdateWith::Delta,
                        update_trigger: ColumnUpdateTrigger::Contextual,
                        comparison_override: None,
                        timing_method: None,
                    },
                ),
            },
        );
        let r = Settings {
            background: ListGradient::Alternating(
                Color::transparent(),
                Color::rgba(0x3F80_0000, 0x3F80_0000, 0x3F80_0000, 0x3D23_D70A),
            ),
            visual_split_count: 16,
            split_preview_count: 1,
            show_thin_separators: true,
            separator_last_split: true,
            always_show_last_split: true,
            fill_with_blank_space: true,
            display_two_rows: false,
            current_split_gradient: Gradient::Vertical(
                Color::rgba(0x3E4C_CCCD, 0x3EE6_E6E7, 0x3F74_F4F5, 0x3F80_0000),
                Color::rgba(0x3DA8_A8A9, 0x3E54_D4D5, 0x3EE8_E8E9, 0x3F80_0000),
            ),
            split_time_accuracy: Accuracy::Seconds,
            segment_time_accuracy: Accuracy::Hundredths,
            delta_time_accuracy: Accuracy::Tenths,
            delta_drop_decimals: true,
            show_column_labels: false,
            columns,
        };
        assert(r@.columns =~= default_settings().columns);
        r
    }
}

} // verus!
