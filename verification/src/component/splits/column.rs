use vstd::prelude::*;
use crate::settings::color::Color;
use crate::timing::TimingMethod;

verus! {

/// What a time column shows for a segment before its update trigger is met.
#[derive(Clone, Copy, Debug, PartialEq, Eq, Hash, Structural)]
pub enum ColumnStartWith {
    /// Nothing.
    Empty,
    /// The split time of the comparison.
    ComparisonTime,
    /// The segment time of the comparison.
    ComparisonSegmentTime,
    /// The time that could be saved on the segment.
    PossibleTimeSave,
}

/// What a time column shows for a segment once its update trigger is met.
#[derive(Clone, Copy, Debug, PartialEq, Eq, Hash, Structural)]
pub enum ColumnUpdateWith {
    /// What it showed before.
    DontUpdate,
    /// The split time.
    SplitTime,
    /// The time ahead or behind, or nothing where that is unknown.
    Delta,
    /// The time ahead or behind, or the split time where that is unknown.
    DeltaWithFallback,
    /// The segment time.
    SegmentTime,
    /// The time gained or lost on the segment, or nothing where that is
    /// unknown.
    SegmentDelta,
    /// The time gained or lost on the segment, or the segment time where
    /// that is unknown.
    SegmentDeltaWithFallback,
}

/// When a time column goes from what it starts with to what it updates
/// with.
#[derive(Clone, Copy, Debug, PartialEq, Eq, Hash, Structural)]
pub enum ColumnUpdateTrigger {
    /// As soon as the segment is the current one.
    OnStartingSegment,
    /// On the current segment once it takes longer than its best time, and
    /// on every segment that is over.
    Contextual,
    /// As soon as the segment is over.
    OnEndingSegment,
}

/// A column that shows a variable of the run.
#[derive(Clone, Debug, PartialEq, Eq)]
pub struct VariableColumn {
    /// The name of the variable.
    pub variable_name: String,
}

/// A column that shows times.
#[derive(Clone, Debug, PartialEq, Eq)]
pub struct TimeColumn {
    /// What the column shows for a segment at first.
    pub start_with: ColumnStartWith,
    /// What it shows once the trigger is met.
    pub update_with: ColumnUpdateWith,
    /// When it goes from the one to the other.
    pub update_trigger: ColumnUpdateTrigger,
    /// The comparison to take the times from; `None` for the current one.
    pub comparison_override: Option<String>,
    /// The timing method to take the times by; `None` for the current one.
    pub timing_method: Option<TimingMethod>,
}

/// A time column, as mathematics.
pub struct TimeColumnView {
    pub start_with: ColumnStartWith,
    pub update_with: ColumnUpdateWith,
    pub update_trigger: ColumnUpdateTrigger,
    pub comparison_override: Option<Seq<char>>,
    pub timing_method: Option<TimingMethod>,
}

/// What a column shows.
#[derive(Clone, Debug, PartialEq, Eq)]
pub enum ColumnKind {
    /// A variable of the run.
    Variable(VariableColumn),
    /// Times.
    Time(TimeColumn),
}

/// What a column shows, as mathematics.
pub enum ColumnKindView {
    Variable(Seq<char>),
    Time(TimeColumnView),
}

/// One column of the list of splits.
#[derive(Clone, Debug, PartialEq, Eq)]
pub struct ColumnSettings {
    /// The name of the column, shown as its label.
    pub name: String,
    /// What the column shows.
    pub kind: ColumnKind,
}

/// One column, as mathematics.
pub struct ColumnSettingsView {
    pub name: Seq<char>,
    pub kind: ColumnKindView,
}

impl View for VariableColumn {
    type V = Seq<char>;

    open spec fn view(&self) -> Seq<char> {
        self.variable_name@
    }
}

impl View for TimeColumn {
    type V = TimeColumnView;

    open spec fn view(&self) -> TimeColumnView {
        TimeColumnView {
            start_with: self.start_with,
            update_with: self.update_with,
            update_trigger: self.update_trigger,
            comparison_override: match self.comparison_override {
                Some(name) => Some(name@),
                None => None,
            },
            timing_method: self.timing_method,
        }
    }
}

impl View for ColumnKind {
    type V = ColumnKindView;

    open spec fn view(&self) -> ColumnKindView {
        match self {
            ColumnKind::Variable(column) => ColumnKindView::Variable(column@),
            ColumnKind::Time(column) => ColumnKindView::Time(column@),
        }
    }
}

impl View for ColumnSettings {
    type V = ColumnSettingsView;

    open spec fn view(&self) -> ColumnSettingsView {
        ColumnSettingsView { name: self.name@, kind: self.kind@ }
    }
}

/// The time column that shows nothing and is never updated.
pub open spec fn default_time_column() -> TimeColumnView {
    TimeColumnView {
        start_with: ColumnStartWith::Empty,
        update_with: ColumnUpdateWith::DontUpdate,
        update_trigger: ColumnUpdateTrigger::Contextual,
        comparison_override: None,
        timing_method: None,
    }
}

/// The column without a name that shows nothing.
pub open spec fn default_column() -> ColumnSettingsView {
    ColumnSettingsView { name: Seq::empty(), kind: ColumnKindView::Time(default_time_column()) }
}

impl Default for VariableColumn {
    /// The column of the variable without a name.
    fn default() -> (r: VariableColumn)
        ensures
            r@ == Seq::<char>::empty(),
    {
        VariableColumn { variable_name: String::new() }
    }
}

impl Default for TimeColumn {
    /// The time column that shows nothing and is never updated.
    fn default() -> (r: TimeColumn)
        ensures
            r@ == default_time_column(),
    {
        TimeColumn {
            start_with: ColumnStartWith::Empty,
            update_with: ColumnUpdateWith::DontUpdate,
            update_trigger: ColumnUpdateTrigger::Contextual,
            comparison_override: None,
            timing_method: None,
        }
    }
}

impl Default for ColumnKind {
    /// A time column that shows nothing.
    fn default() -> (r: ColumnKind)
        ensures
            r@ == ColumnKindView::Time(default_time_column()),
    {
        ColumnKind::Time(TimeColumn::default())
    }
}

impl Default for ColumnSettings {
    /// The column without a name that shows nothing.
    fn default() -> (r: ColumnSettings)
        ensures
            r@ == default_column(),
    {
        ColumnSettings { name: String::new(), kind: ColumnKind::default() }
    }
}

/// The meaning that the colour of a value carries.
#[derive(Clone, Copy, Debug, PartialEq, Eq, Hash, Structural)]
pub enum SemanticColor {
    /// None.
    Default,
    /// Ahead, and gaining time.
    AheadGainingTime,
    /// Ahead, but losing time.
    AheadLosingTime,
    /// Behind, and losing time.
    BehindLosingTime,
    /// Behind, but gaining time.
    BehindGainingTime,
    /// The best segment ever.
    BestSegment,
    /// No attempt is running.
    NotRunning,
    /// The timer is paused.
    Paused,
    /// The best run ever.
    PersonalBest,
}

/// What one column shows for one segment.
#[derive(Clone, Debug, PartialEq, Eq)]
pub struct ColumnState {
    /// The text.
    pub value: String,
    /// The meaning of its colour.
    pub semantic_color: SemanticColor,
    /// Its colour.
    pub visual_color: Color,
    /// Whether the text changes as time passes.
    pub updates_frequently: bool,
}

} // verus!
