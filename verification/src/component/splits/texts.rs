//! The names and the explanations of the settings of the list of splits.

use vstd::prelude::*;

verus! {

pub const BACKGROUND: &'static str = "Background";

pub const BACKGROUND_TIP: &'static str =
    "The background shown behind the component. You can choose for the colors to be alternating. In that case each row alternates between the two colors chosen.";

pub const TOTAL_ROWS: &'static str = "Total Rows";

pub const TOTAL_ROWS_TIP: &'static str =
    "The total number of rows of segments to show in the list. If set to 0, all the segments are shown. If set to a number lower than the total number of segments, only a certain window of all the segments is shown. This window can scroll up or down.";

pub const UPCOMING_SEGMENTS: &'static str = "Upcoming Segments";

pub const UPCOMING_SEGMENTS_TIP: &'static str =
    "If there's more segments than rows that are shown, the window showing the segments automatically scrolls up and down when the current segment changes. This number determines the minimum number of future segments to be shown in this scrolling window.";

pub const THIN_SEPARATORS: &'static str = "Show Thin Separators";

pub const THIN_SEPARATORS_TIP: &'static str =
    "Specifies whether thin separators should be shown between the individual segment rows.";

pub const SEPARATOR_LAST_SPLIT: &'static str = "Show Separator Before Last Split";

pub const SEPARATOR_LAST_SPLIT_TIP: &'static str =
    "If the last segment is to always be shown, this determines whether to show a more pronounced separator in front of the last segment, if it is not directly adjacent to the segment shown right before it in the scrolling window.";

pub const ALWAYS_SHOW_LAST_SPLIT: &'static str = "Always Show Last Split";

pub const ALWAYS_SHOW_LAST_SPLIT_TIP: &'static str =
    "If not every segment is shown in the scrolling window of segments, then this option determines whether the final segment should always be shown, as it contains the total duration of the chosen comparison. This can be valuable information, as it is often the runner's Personal Best.";

pub const FILL_WITH_BLANK_SPACE: &'static str = "Fill with Blank Space";

pub const FILL_WITH_BLANK_SPACE_TIP: &'static str =
    "If there's not enough segments to fill the list, this option allows filling the remaining rows with blank space in order to always show the number of total rows specified in the settings. Otherwise, the number of total rows shown is reduced to the actual number of segments.";

pub const DISPLAY_TWO_ROWS: &'static str = "Show Times Below Segment Name";

pub const DISPLAY_TWO_ROWS_TIP: &'static str =
    "Specifies whether to show the times below the segment name. Otherwise the times are shown next to the segment name.";

pub const CURRENT_SPLIT_GRADIENT: &'static str = "Current Segment Gradient";

pub const CURRENT_SPLIT_GRADIENT_TIP: &'static str =
    "The gradient to show behind the current segment as an indicator of it being the current segment.";

pub const SPLIT_TIME_ACCURACY: &'static str = "Split Time Accuracy";

pub const SPLIT_TIME_ACCURACY_TIP: &'static str =
    "Specifies the accuracy to use for visualizing columns that contain split times.";

pub const SEGMENT_TIME_ACCURACY: &'static str = "Segment Time Accuracy";

pub const SEGMENT_TIME_ACCURACY_TIP: &'static str =
    "Specifies the accuracy to use for visualizing columns that contain segment times.";

pub const DELTA_TIME_ACCURACY: &'static str = "Delta Time Accuracy";

pub const DELTA_TIME_ACCURACY_TIP: &'static str =
    "Specifies the accuracy to use for visualizing columns that contain the amount of time you are ahead or behind.";

pub const DELTA_DROP_DECIMALS: &'static str = "Drop Delta Decimals When Showing Minutes";

pub const DELTA_DROP_DECIMALS_TIP: &'static str =
    "Specifies if the decimals should not be shown anymore when a column that contains the amount of time you are ahead or behind is over a minute.";

pub const SHOW_COLUMN_LABELS: &'static str = "Show Column Labels";

pub const SHOW_COLUMN_LABELS_TIP: &'static str =
    "Specifies whether to show the names of the columns at the top of the list.";

pub const COLUMNS: &'static str = "Columns";

pub const COLUMNS_TIP: &'static str =
    "The number of columns to show in each row. Each column can be configured to show different information. The columns are defined from right to left.";

pub const COLUMN_NAME: &'static str = "Column Name";

pub const COLUMN_NAME_TIP: &'static str =
    "The name of the column. This is shown at the top of the list if the option to show column labels is enabled.";

pub const COLUMN_TYPE: &'static str = "Column Type";

pub const COLUMN_TYPE_TIP: &'static str =
    "The type of information this column displays. This can be a time or a custom variable that you have stored in your splits.";

pub const VARIABLE_NAME: &'static str = "Variable Name";

pub const VARIABLE_NAME_TIP: &'static str =
    "The name of the custom variable that this column displays.";

pub const START_WITH: &'static str = "Start With";

pub const START_WITH_TIP: &'static str =
    "The value that this column starts with for each segment. The Update Trigger determines when this time is replaced.";

pub const UPDATE_WITH: &'static str = "Update With";

pub const UPDATE_WITH_TIP: &'static str =
    "Once a certain condition is met, which is usually being on the segment or having already completed the segment, the time gets updated with the value specified here.";

pub const UPDATE_TRIGGER: &'static str = "Update Trigger";

pub const UPDATE_TRIGGER_TIP: &'static str =
    "The condition that needs to be met for the time to get updated with the value specified in the Update With field. Before this condition is met, the time is the value specified in the Start With field.";

pub const COMPARISON: &'static str = "Comparison";

pub const COMPARISON_TIP: &'static str =
    "The comparison that is being compared against for this column. If not specified, the current comparison is used.";

pub const TIMING_METHOD: &'static str = "Timing Method";

pub const TIMING_METHOD_TIP: &'static str =
    "Specifies the timing method to use for this column. If not specified, the current timing method is used.";

} // verus!
