use vstd::prelude::*;
use crate::component::splits::column::{ColumnKindView, ColumnSettingsView};
use crate::component::splits::description::{
    SETTINGS_BEFORE_COLUMNS, column_fields, column_len, columns_fields, description,
    general_fields,
};
use crate::component::splits::set_value::{locate, set_general, set_in_column, set_value};
use crate::component::splits::settings::SettingsView;
use crate::settings::value::ValueView;

verus! {

/// Whether two values are of the same kind.
pub open spec fn same_kind(a: ValueView, b: ValueView) -> bool {
    match (a, b) {
        (ValueView::Bool(_), ValueView::Bool(_)) => true,
        (ValueView::UInt(_), ValueView::UInt(_)) => true,
        (ValueView::String(_), ValueView::String(_)) => true,
        (ValueView::OptionalString(_), ValueView::OptionalString(_)) => true,
        (ValueView::Accuracy(_), ValueView::Accuracy(_)) => true,
        (ValueView::OptionalTimingMethod(_), ValueView::OptionalTimingMethod(_)) => true,
        (ValueView::Gradient(_), ValueView::Gradient(_)) => true,
        (ValueView::ListGradient(_), ValueView::ListGradient(_)) => true,
        (ValueView::ColumnKind(_), ValueView::ColumnKind(_)) => true,
        (ValueView::ColumnStartWith(_), ValueView::ColumnStartWith(_)) => true,
        (ValueView::ColumnUpdateWith(_), ValueView::ColumnUpdateWith(_)) => true,
        (ValueView::ColumnUpdateTrigger(_), ValueView::ColumnUpdateTrigger(_)) => true,
        _ => false,
    }
}

/// How many settings the first `count` columns have together.
pub open spec fn settings_until(columns: Seq<ColumnSettingsView>, count: nat) -> nat {
    columns_fields(columns, count).len()
}

/// The settings of the columns up to one column are those up to the column
/// before it, and its own.
proof fn lemma_settings_until_step(columns: Seq<ColumnSettingsView>, count: nat)
    requires
        count > 0,
    ensures
        settings_until(columns, count) == settings_until(columns, (count - 1) as nat) + column_len(
            columns[count - 1],
        ),
{
}

/// More columns have at least as many settings.
proof fn lemma_settings_until_grows(columns: Seq<ColumnSettingsView>, a: nat, b: nat)
    requires
        a <= b,
    ensures
        settings_until(columns, a) <= settings_until(columns, b),
    decreases b,
{
    if a < b {
        lemma_settings_until_grows(columns, a, (b - 1) as nat);
        lemma_settings_until_step(columns, b);
    }
}

/// The settings of the first columns do not depend on the columns that
/// follow them.
proof fn lemma_columns_fields_prefix(
    a: Seq<ColumnSettingsView>,
    b: Seq<ColumnSettingsView>,
    count: nat,
)
    requires
        forall|i: int| 0 <= i < count ==> a[i] == b[i],
    ensures
        columns_fields(a, count) == columns_fields(b, count),
    decreases count,
{
    if count > 0 {
        lemma_columns_fields_prefix(a, b, (count - 1) as nat);
    }
}

/// Where the settings of one column stand among those of all the columns.
proof fn lemma_field_of_column(
    columns: Seq<ColumnSettingsView>,
    count: nat,
    column: int,
    within: int,
)
    requires
        0 <= column < count,
        0 <= within < column_len(columns[column]),
    ensures
        settings_until(columns, column as nat) + within < settings_until(columns, count),
        columns_fields(columns, count)[settings_until(columns, column as nat) + within]
            == column_fields(columns[column])[within],
    decreases count,
{
    lemma_settings_until_step(columns, count);
    if column < count - 1 {
        lemma_field_of_column(columns, (count - 1) as nat, column, within);
    }
}

/// What `locate` finds: a column that exists and a setting that it has, at
/// the place counted.
proof fn lemma_locate_found(columns: Seq<ColumnSettingsView>, index: int, from: int)
    requires
        locate(columns, index, from) is Some,
    ensures
        ({
            let (column, within) = locate(columns, index, from)->0;
            &&& 0 <= from <= column < columns.len()
            &&& 0 <= within < column_len(columns[column])
            &&& settings_until(columns, from as nat) + index == settings_until(
                columns,
                column as nat,
            ) + within
        }),
    decreases columns.len() - from,
{
    if index >= column_len(columns[from]) {
        lemma_locate_found(columns, index - column_len(columns[from]), from + 1);
        lemma_settings_until_step(columns, (from + 1) as nat);
    }
}

/// `locate` finds a setting exactly where the columns have one of that
/// number.
proof fn lemma_locate_some(columns: Seq<ColumnSettingsView>, index: int, from: int)
    requires
        0 <= from <= columns.len(),
        0 <= index,
    ensures
        locate(columns, index, from) is Some <==> settings_until(columns, from as nat) + index
            < settings_until(columns, columns.len()),
    decreases columns.len() - from,
{
    if from < columns.len() {
        lemma_settings_until_step(columns, (from + 1) as nat);
        lemma_settings_until_grows(columns, (from + 1) as nat, columns.len());
        if index >= column_len(columns[from]) {
            lemma_locate_some(columns, index - column_len(columns[from]), from + 1);
        }
    }
}

/// The settings are as many as those before the columns and those of the
/// columns together.
pub proof fn law_description_len(settings: SettingsView)
    ensures
        description(settings).len() == SETTINGS_BEFORE_COLUMNS + settings_until(
            settings.columns,
            settings.columns.len(),
        ),
{
}

/// A value can be set exactly where the description has a setting of that
/// number whose value is of the same kind.
pub proof fn law_accepts_what_is_described(settings: SettingsView, index: usize, value: ValueView)
    ensures
        set_value(settings, index, value) is Some <==> index < description(settings).len()
            && same_kind(description(settings)[index as int].value, value),
{
    let fields = description(settings);
    if index < SETTINGS_BEFORE_COLUMNS {
        assert(fields[index as int] == general_fields(settings)[index as int]);
    } else {
        let rest = index - SETTINGS_BEFORE_COLUMNS;
        lemma_locate_some(settings.columns, rest, 0);
        if locate(settings.columns, rest, 0) is Some {
            lemma_locate_found(settings.columns, rest, 0);
            let (column, within) = locate(settings.columns, rest, 0)->0;
            lemma_field_of_column(settings.columns, settings.columns.len(), column, within);
            assert(fields[index as int] == column_fields(settings.columns[column])[within]);
        }
    }
}

/// A value that was set is the value that the description then shows for
/// that setting. For the three settings that are numbers, this holds of the
/// numbers that fit in a word of the machine.
pub proof fn law_set_value_reads_back(settings: SettingsView, index: usize, value: ValueView)
    requires
        set_value(settings, index, value) is Some,
        value matches ValueView::UInt(number) ==> number <= usize::MAX,
    ensures
        index < description(set_value(settings, index, value)->0).len(),
        description(set_value(settings, index, value)->0)[index as int].value == value,
{
    let after = set_value(settings, index, value)->0;
    let fields = description(after);
    if index < SETTINGS_BEFORE_COLUMNS {
        assert(fields[index as int] == general_fields(after)[index as int]);
        if index == 14 {
            let number = value->UInt_0;
            assert(after.columns.len() == number as usize);
        }
    } else {
        let rest = index - SETTINGS_BEFORE_COLUMNS;
        lemma_locate_found(settings.columns, rest, 0);
        let (column, within) = locate(settings.columns, rest, 0)->0;
        let changed = set_in_column(settings.columns[column], within as usize, value)->0;
        assert(after.columns == settings.columns.update(column, changed));
        lemma_columns_fields_prefix(settings.columns, after.columns, column as nat);
        assert(within < column_len(changed));
        lemma_field_of_column(after.columns, after.columns.len(), column, within);
        assert(fields[index as int] == column_fields(changed)[within]);
    }
}

/// Setting one of the settings before the columns, but for their number,
/// leaves the columns as they were.
proof fn lemma_general_keeps_columns(settings: SettingsView, index: usize, value: ValueView)
    requires
        index != 14,
        set_general(settings, index, value) is Some,
    ensures
        set_general(settings, index, value)->0.columns == settings.columns,
{
}

/// Setting a setting of a column other than its kind leaves the column with
/// as many settings as it had.
proof fn lemma_column_keeps_len(column: ColumnSettingsView, index: usize, value: ValueView)
    requires
        !(value is ColumnKind),
        set_in_column(column, index, value) is Some,
    ensures
        column_len(set_in_column(column, index, value)->0) == column_len(column),
{
}

/// Setting a value that is not the kind of a column and not the number of
/// columns leaves the number of settings as it was.
pub proof fn law_set_value_keeps_len(settings: SettingsView, index: usize, value: ValueView)
    requires
        set_value(settings, index, value) is Some,
        index != 14,
        !(value is ColumnKind),
    ensures
        description(set_value(settings, index, value)->0).len() == description(settings).len(),
{
    let after = set_value(settings, index, value)->0;
    law_description_len(settings);
    law_description_len(after);
    if index < SETTINGS_BEFORE_COLUMNS {
        lemma_general_keeps_columns(settings, index, value);
    } else {
        let rest = index - SETTINGS_BEFORE_COLUMNS;
        lemma_locate_found(settings.columns, rest, 0);
        let (column, within) = locate(settings.columns, rest, 0)->0;
        lemma_column_keeps_len(settings.columns[column], within as usize, value);
        let changed = set_in_column(settings.columns[column], within as usize, value)->0;
        assert(after.columns == settings.columns.update(column, changed));
        assert forall|i: int| 0 <= i < settings.columns.len() implies column_len(
            settings.columns[i],
        ) == column_len(after.columns[i]) by {}
        lemma_same_lengths(settings.columns, after.columns, settings.columns.len());
    }
}

/// Columns with the same numbers of settings have as many settings
/// together.
proof fn lemma_same_lengths(a: Seq<ColumnSettingsView>, b: Seq<ColumnSettingsView>, count: nat)
    requires
        forall|i: int| 0 <= i < count ==> column_len(a[i]) == column_len(b[i]),
    ensures
        settings_until(a, count) == settings_until(b, count),
    decreases count,
{
    if count > 0 {
        lemma_same_lengths(a, b, (count - 1) as nat);
        lemma_settings_until_step(a, count);
        lemma_settings_until_step(b, count);
    }
}

} // verus!
