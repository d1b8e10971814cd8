use vstd::prelude::*;
use crate::component::splits::Component;
use crate::component::splits::column::{
    ColumnKind, ColumnKindView, ColumnSettings, ColumnSettingsView, TimeColumn, TimeColumnView,
    VariableColumn, default_column, default_time_column,
};
use crate::component::splits::description::{
    SETTINGS_BEFORE_COLUMNS, column_fields, column_len, columns_fields, description,
    general_fields,
};
use crate::component::splits::settings::{Settings, SettingsView, columns_view};
use crate::settings::value::{Value, ValueView};

verus! {

/// The columns cut or filled up to `len` columns: what is cut is lost, what
/// is added are columns without a name that show nothing.
pub open spec fn resized(columns: Seq<ColumnSettingsView>, len: nat) -> Seq<ColumnSettingsView> {
    if len <= columns.len() {
        columns.take(len as int)
    } else {
        columns.add(Seq::new((len - columns.len()) as nat, |i: int| default_column()))
    }
}

/// The settings with one of the settings before the columns set, if the
/// value is of the kind that the setting takes. The number of rows and of
/// segments ahead, and the number of columns, are cut to the width of the
/// machine's words.
pub open spec fn set_general(settings: SettingsView, index: usize, value: ValueView) -> Option<
    SettingsView,
> {
    match (index, value) {
        (0, ValueView::ListGradient(v)) => Some(SettingsView { background: v, ..settings }),
        (1, ValueView::UInt(v)) => Some(
            SettingsView { visual_split_count: v as usize, ..settings },
        ),
        (2, ValueView::UInt(v)) => Some(
            SettingsView { split_preview_count: v as usize, ..settings },
        ),
        (3, ValueView::Bool(v)) => Some(SettingsView { show_thin_separators: v, ..settings }),
        (4, ValueView::Bool(v)) => Some(SettingsView { separator_last_split: v, ..settings }),
        (5, ValueView::Bool(v)) => Some(SettingsView { always_show_last_split: v, ..settings }),
        (6, ValueView::Bool(v)) => Some(SettingsView { fill_with_blank_space: v, ..settings }),
        (7, ValueView::Bool(v)) => Some(SettingsView { display_two_rows: v, ..settings }),
        (8, ValueView::Gradient(v)) => Some(
            SettingsView { current_split_gradient: v, ..settings },
        ),
        (9, ValueView::Accuracy(v)) => Some(SettingsView { split_time_accuracy: v, ..settings }),
        (10, ValueView::Accuracy(v)) => Some(
            SettingsView { segment_time_accuracy: v, ..settings },
        ),
        (11, ValueView::Accuracy(v)) => Some(SettingsView { delta_time_accuracy: v, ..settings }),
        (12, ValueView::Bool(v)) => Some(SettingsView { delta_drop_decimals: v, ..settings }),
        (13, ValueView::Bool(v)) => Some(SettingsView { show_column_labels: v, ..settings }),
        (14, ValueView::UInt(v)) => Some(
            SettingsView { columns: resized(settings.columns, (v as usize) as nat), ..settings },
        ),
        _ => None,
    }
}

/// A time column with one of its own settings set, if the value is of the
/// kind that the setting takes. The settings are numbered as in the
/// column: 2 is the first that only a time column has.
pub open spec fn set_in_time(time: TimeColumnView, index: usize, value: ValueView) -> Option<
    TimeColumnView,
> {
    match (index, value) {
        (2, ValueView::ColumnStartWith(v)) => Some(TimeColumnView { start_with: v, ..time }),
        (3, ValueView::ColumnUpdateWith(v)) => Some(TimeColumnView { update_with: v, ..time }),
        (4, ValueView::ColumnUpdateTrigger(v)) => Some(
            TimeColumnView { update_trigger: v, ..time },
        ),
        (5, ValueView::OptionalString(v)) => Some(
            TimeColumnView { comparison_override: v, ..time },
        ),
        (6, ValueView::OptionalTimingMethod(v)) => Some(
            TimeColumnView { timing_method: v, ..time },
        ),
        _ => None,
    }
}

/// A column with one of its settings set, if the column has a setting of
/// that number and the value is of the kind that it takes. Setting the kind
/// of a column gives a fresh column of that kind under the same name, also
/// where the column is of that kind already.
pub open spec fn set_in_column(column: ColumnSettingsView, index: usize, value: ValueView) -> Option<
    ColumnSettingsView,
> {
    match (index, value) {
        (0, ValueView::String(v)) => Some(ColumnSettingsView { name: v, ..column }),
        (1, ValueView::ColumnKind(crate::settings::value::ColumnKind::Time)) => Some(
            ColumnSettingsView { kind: ColumnKindView::Time(default_time_column()), ..column },
        ),
        (1, ValueView::ColumnKind(crate::settings::value::ColumnKind::Variable)) => Some(
            ColumnSettingsView { kind: ColumnKindView::Variable(Seq::empty()), ..column },
        ),
        _ => match column.kind {
            ColumnKindView::Variable(_) => match (index, value) {
                (2, ValueView::String(v)) => Some(
                    ColumnSettingsView { kind: ColumnKindView::Variable(v), ..column },
                ),
                _ => None,
            },
            ColumnKindView::Time(time) => match set_in_time(time, index, value) {
                Some(time) => Some(ColumnSettingsView { kind: ColumnKindView::Time(time), ..column }),
                None => None,
            },
        },
    }
}

/// The column that holds the setting with the number `index`, counted from
/// the first setting of the column `from`, together with the number of the
/// setting within that column; `None` where the columns from `from` on have
/// fewer settings.
pub open spec fn locate(columns: Seq<ColumnSettingsView>, index: int, from: int) -> Option<
    (int, int),
>
    decreases columns.len() - from,
{
    if from < 0 || from >= columns.len() || index < 0 {
        None
    } else if index < column_len(columns[from]) {
        Some((from, index))
    } else {
        locate(columns, index - column_len(columns[from]), from + 1)
    }
}

/// The settings with the setting of the number `index` set to `value`, where
/// there is a setting of that number and the value is of the kind that it
/// takes; `None` otherwise.
pub open spec fn set_value(settings: SettingsView, index: usize, value: ValueView) -> Option<
    SettingsView,
> {
    if index < SETTINGS_BEFORE_COLUMNS {
        set_general(settings, index, value)
    } else {
        match locate(settings.columns, index - SETTINGS_BEFORE_COLUMNS, 0) {
            Some((column, within)) => match set_in_column(
                settings.columns[column],
                within as usize,
                value,
            ) {
                Some(changed) => Some(
                    SettingsView { columns: settings.columns.update(column, changed), ..settings },
                ),
                None => None,
            },
            None => None,
        }
    }
}

/// Whether the value is of the kind that the setting `index` of the column
/// takes.
fn fits_column(column: &ColumnSettings, index: usize, value: &Value) -> (r: bool)
    ensures
        r == set_in_column(column@, index, value@).is_some(),
{
    match index {
        0 => matches!(value, Value::String(_)),
        1 => matches!(value, Value::ColumnKind(_)),
        _ => match &column.kind {
            ColumnKind::Variable(_) => index == 2 && matches!(value, Value::String(_)),
            ColumnKind::Time(_) => match index {
                2 => matches!(value, Value::ColumnStartWith(_)),
                3 => matches!(value, Value::ColumnUpdateWith(_)),
                4 => matches!(value, Value::ColumnUpdateTrigger(_)),
                5 => matches!(value, Value::OptionalString(_)),
                6 => matches!(value, Value::OptionalTimingMethod(_)),
                _ => false,
            },
        },
    }
}

/// How many settings the column has.
fn settings_in(column: &ColumnSettings) -> (r: usize)
    ensures
        r == column_len(column@),
{
    match &column.kind {
        ColumnKind::Variable(_) => 3,
        ColumnKind::Time(_) => 7,
    }
}

/// Sets the setting `index` of the column.
fn set_column(column: &mut ColumnSettings, index: usize, value: Value)
    requires
        set_in_column(old(column)@, index, value@).is_some(),
    ensures
        Some(final(column)@) == set_in_column(old(column)@, index, value@),
{
    if index == 0 {
        column.name = value.into_string().unwrap();
    } else if index == 1 {
        column.kind = match value.into_column_kind().unwrap() {
            crate::settings::value::ColumnKind::Time => ColumnKind::Time(TimeColumn::default()),
            crate::settings::value::ColumnKind::Variable => ColumnKind::Variable(
                VariableColumn::default(),
            ),
        };
    } else {
        match &mut column.kind {
            ColumnKind::Variable(variable) => {
                variable.variable_name = value.into_string().unwrap();
            },
            ColumnKind::Time(time) => {
                if index == 2 {
                    time.start_with = value.into_column_start_with().unwrap();
                } else if index == 3 {
                    time.update_with = value.into_column_update_with().unwrap();
                } else if index == 4 {
                    time.update_trigger = value.into_column_update_trigger().unwrap();
                } else if index == 5 {
                    time.comparison_override = value.into_optional_string().unwrap();
                } else {
                    time.timing_method = value.into_optional_timing_method().unwrap();
                }
            },
        }
    }
}

/// Cuts or fills the columns up to `len` columns.
fn resize(columns: &mut Vec<ColumnSettings>, len: usize)
    ensures
        columns_view(final(columns)@) == resized(columns_view(old(columns)@), len as nat),
{
    let ghost before = columns_view(columns@);
    if len <= columns.len() {
        columns.truncate(len);
        assert(columns_view(columns@) =~= before.take(len as int));
    } else {
        let ghost start = columns.len();
        while columns.len() < len
            invariant
                start == before.len(),
                start <= columns.len() <= len,
                columns_view(columns@) == before.add(
                    Seq::new((columns.len() - start) as nat, |i: int| default_column()),
                ),
            decreases len - columns.len(),
        {
            let ghost so_far = columns_view(columns@);
            let ghost count = columns.len();
            columns.push(ColumnSettings::default());
            assert(columns_view(columns@) =~= so_far.push(default_column()));
            assert(so_far.push(default_column()) =~= before.add(
                Seq::new((count + 1 - start) as nat, |i: int| default_column()),
            ));
        }
    }
}

impl Component {
    /// Whether the component has a setting with the number `index` that
    /// takes the value `value`.
    pub fn accepts_value(&self, index: usize, value: &Value) -> (r: bool)
        ensures
            r == set_value(self.spec_settings()@, index, value@).is_some(),
    {
        if index < SETTINGS_BEFORE_COLUMNS {
            match index {
                0 => matches!(value, Value::ListGradient(_)),
                1 | 2 | 14 => matches!(value, Value::UInt(_)),
                3 | 4 | 5 | 6 | 7 | 12 | 13 => matches!(value, Value::Bool(_)),
                8 => matches!(value, Value::Gradient(_)),
                _ => matches!(value, Value::Accuracy(_)),
            }
        } else {
            let ghost columns = self.settings@.columns;
            let mut rest = index - SETTINGS_BEFORE_COLUMNS;
            let mut i: usize = 0;
            while i < self.settings.columns.len()
                invariant
                    i <= self.settings.columns.len(),
                    columns == columns_view(self.settings.columns@),
                    locate(columns, index - SETTINGS_BEFORE_COLUMNS, 0) == locate(
                        columns,
                        rest as int,
                        i as int,
                    ),
                decreases self.settings.columns.len() - i,
            {
                let column = &self.settings.columns[i];
                assert(columns[i as int] == column@);
                let len = settings_in(column);
                if rest < len {
                    return fits_column(column, rest, value);
                }
                rest = rest - len;
                i += 1;
            }
            false
        }
    }

    /// Sets the setting with the number `index`, as
    /// [`Component::settings_description`] numbers the settings, to `value`.
    /// There must be a setting of that number, and the value must be of the
    /// kind that it takes. Where the window stands does not change.
    pub fn set_value(&mut self, index: usize, value: Value)
        requires
            set_value(old(self).spec_settings()@, index, value@).is_some(),
        ensures
            Some(final(self).spec_settings()@) == set_value(
                old(self).spec_settings()@,
                index,
                value@,
            ),
            final(self).spec_current_split_index() == old(self).spec_current_split_index(),
            final(self).spec_scroll_offset() == old(self).spec_scroll_offset(),
    {
        if index < SETTINGS_BEFORE_COLUMNS {
            apply_general(&mut self.settings, index, value);
        } else {
            let ghost before = self.settings@;
            apply_to_columns(&mut self.settings.columns, index - SETTINGS_BEFORE_COLUMNS, value);
            assert(self.settings@ == (SettingsView {
                columns: columns_view(self.settings.columns@),
                ..before
            }));
        }
    }
}

/// Sets one of the settings before the columns.
fn apply_general(settings: &mut Settings, index: usize, value: Value)
    requires
        index < SETTINGS_BEFORE_COLUMNS,
        set_general(old(settings)@, index, value@).is_some(),
    ensures
        Some(final(settings)@) == set_general(old(settings)@, index, value@),
{
    match index {
        0 => settings.background = value.into_list_gradient().unwrap(),
        1 => {
            let count = value.into_uint().unwrap();
            settings.visual_split_count = #[verifier::truncate]
            (count as usize);
        },
        2 => {
            let count = value.into_uint().unwrap();
            settings.split_preview_count = #[verifier::truncate]
            (count as usize);
        },
        3 => settings.show_thin_separators = value.into_bool().unwrap(),
        4 => settings.separator_last_split = value.into_bool().unwrap(),
        5 => settings.always_show_last_split = value.into_bool().unwrap(),
        6 => settings.fill_with_blank_space = value.into_bool().unwrap(),
        7 => settings.display_two_rows = value.into_bool().unwrap(),
        8 => settings.current_split_gradient = value.into_gradient().unwrap(),
        9 => settings.split_time_accuracy = value.into_accuracy().unwrap(),
        10 => settings.segment_time_accuracy = value.into_accuracy().unwrap(),
        11 => settings.delta_time_accuracy = value.into_accuracy().unwrap(),
        12 => settings.delta_drop_decimals = value.into_bool().unwrap(),
        13 => settings.show_column_labels = value.into_bool().unwrap(),
        _ => {
            let count = value.into_uint().unwrap();
            let len = #[verifier::truncate]
            (count as usize);
            resize(&mut settings.columns, len);
        },
    }
}

/// Sets the setting that has the number `index` among the settings of the
/// columns.
fn apply_to_columns(columns: &mut Vec<ColumnSettings>, index: usize, value: Value)
    requires
        locate(columns_view(old(columns)@), index as int, 0) matches Some((column, within))
            && set_in_column(
            columns_view(old(columns)@)[column],
            within as usize,
            value@,
        ).is_some(),
    ensures
        locate(columns_view(old(columns)@), index as int, 0) matches Some((column, within))
            && Some(columns_view(final(columns)@)) == (match set_in_column(
            columns_view(old(columns)@)[column],
            within as usize,
            value@,
        ) {
            Some(changed) => Some(columns_view(old(columns)@).update(column, changed)),
            None => None,
        }),
{
    let ghost before = columns_view(columns@);
    let mut rest = index;
    let mut i: usize = 0;
    while i < columns.len()
        invariant
            i <= columns.len(),
            *columns == *old(columns),
            before == columns_view(columns@),
            locate(before, index as int, 0) == locate(before, rest as int, i as int),
            locate(before, index as int, 0) matches Some((column, within)) && set_in_column(
                before[column],
                within as usize,
                value@,
            ).is_some(),
        decreases columns.len() - i,
    {
        assert(before[i as int] == columns[i as int]@);
        let len = settings_in(&columns[i]);
        if rest < len {
            set_column(&mut columns[i], rest, value);
            assert(columns_view(columns@) =~= before.update(i as int, columns[i as int]@));
            return;
        }
        rest = rest - len;
        i += 1;
    }
}

} // verus!
