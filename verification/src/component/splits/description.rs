use vstd::prelude::*;
use crate::component::splits::Component;
use crate::component::splits::column::{
    ColumnKind, ColumnKindView, ColumnSettings, ColumnSettingsView,
};
use crate::component::splits::settings::{Settings, SettingsView, columns_view};
use crate::component::splits::texts::{
    ALWAYS_SHOW_LAST_SPLIT, ALWAYS_SHOW_LAST_SPLIT_TIP, BACKGROUND, BACKGROUND_TIP, COLUMNS,
    COLUMNS_TIP, COLUMN_NAME, COLUMN_NAME_TIP, COLUMN_TYPE, COLUMN_TYPE_TIP, COMPARISON,
    COMPARISON_TIP, CURRENT_SPLIT_GRADIENT, CURRENT_SPLIT_GRADIENT_TIP, DELTA_DROP_DECIMALS,
    DELTA_DROP_DECIMALS_TIP, DELTA_TIME_ACCURACY, DELTA_TIME_ACCURACY_TIP, DISPLAY_TWO_ROWS,
    DISPLAY_TWO_ROWS_TIP, FILL_WITH_BLANK_SPACE, FILL_WITH_BLANK_SPACE_TIP, SEGMENT_TIME_ACCURACY,
    SEGMENT_TIME_ACCURACY_TIP, SEPARATOR_LAST_SPLIT, SEPARATOR_LAST_SPLIT_TIP, SHOW_COLUMN_LABELS,
    SHOW_COLUMN_LABELS_TIP, SPLIT_TIME_ACCURACY, SPLIT_TIME_ACCURACY_TIP, START_WITH,
    START_WITH_TIP, THIN_SEPARATORS, THIN_SEPARATORS_TIP, TIMING_METHOD, TIMING_METHOD_TIP,
    TOTAL_ROWS, TOTAL_ROWS_TIP, UPCOMING_SEGMENTS, UPCOMING_SEGMENTS_TIP, UPDATE_TRIGGER,
    UPDATE_TRIGGER_TIP, UPDATE_WITH, UPDATE_WITH_TIP, VARIABLE_NAME, VARIABLE_NAME_TIP,
};
use crate::settings::field::{Field, FieldView, SettingsDescription, fields_view};
use crate::settings::value::{Value, ValueView};

verus! {

/// How many settings come before those of the columns.
pub const SETTINGS_BEFORE_COLUMNS: usize = 15;

/// A setting, as mathematics, from its name, its explanation and its value.
pub open spec fn field(text: &str, tooltip: &str, value: ValueView) -> FieldView {
    FieldView { text: text@, tooltip: tooltip@, value }
}

/// The settings that every list of splits has, in their order.
pub open spec fn general_fields(settings: SettingsView) -> Seq<FieldView> {
    seq![
        field(BACKGROUND, BACKGROUND_TIP, ValueView::ListGradient(settings.background)),
        field(TOTAL_ROWS, TOTAL_ROWS_TIP, ValueView::UInt(settings.visual_split_count as u64)),
        field(
            UPCOMING_SEGMENTS,
            UPCOMING_SEGMENTS_TIP,
            ValueView::UInt(settings.split_preview_count as u64),
        ),
        field(THIN_SEPARATORS, THIN_SEPARATORS_TIP, ValueView::Bool(settings.show_thin_separators)),
        field(
            SEPARATOR_LAST_SPLIT,
            SEPARATOR_LAST_SPLIT_TIP,
            ValueView::Bool(settings.separator_last_split),
        ),
        field(
            ALWAYS_SHOW_LAST_SPLIT,
            ALWAYS_SHOW_LAST_SPLIT_TIP,
            ValueView::Bool(settings.always_show_last_split),
        ),
        field(
            FILL_WITH_BLANK_SPACE,
            FILL_WITH_BLANK_SPACE_TIP,
            ValueView::Bool(settings.fill_with_blank_space),
        ),
        field(DISPLAY_TWO_ROWS, DISPLAY_TWO_ROWS_TIP, ValueView::Bool(settings.display_two_rows)),
        field(
            CURRENT_SPLIT_GRADIENT,
            CURRENT_SPLIT_GRADIENT_TIP,
            ValueView::Gradient(settings.current_split_gradient),
        ),
        field(
            SPLIT_TIME_ACCURACY,
            SPLIT_TIME_ACCURACY_TIP,
            ValueView::Accuracy(settings.split_time_accuracy),
        ),
        field(
            SEGMENT_TIME_ACCURACY,
            SEGMENT_TIME_ACCURACY_TIP,
            ValueView::Accuracy(settings.segment_time_accuracy),
        ),
        field(
            DELTA_TIME_ACCURACY,
            DELTA_TIME_ACCURACY_TIP,
            ValueView::Accuracy(settings.delta_time_accuracy),
        ),
        field(
            DELTA_DROP_DECIMALS,
            DELTA_DROP_DECIMALS_TIP,
            ValueView::Bool(settings.delta_drop_decimals),
        ),
        field(
            SHOW_COLUMN_LABELS,
            SHOW_COLUMN_LABELS_TIP,
            ValueView::Bool(settings.show_column_labels),
        ),
        field(COLUMNS, COLUMNS_TIP, ValueView::UInt(settings.columns.len() as u64)),
    ]
}

/// The settings of one column, in their order: its name and its kind, and
/// then what a column of that kind has.
pub open spec fn column_fields(column: ColumnSettingsView) -> Seq<FieldView> {
    match column.kind {
        ColumnKindView::Variable(variable_name) => seq![
            field(COLUMN_NAME, COLUMN_NAME_TIP, ValueView::String(column.name)),
            field(
                COLUMN_TYPE,
                COLUMN_TYPE_TIP,
                ValueView::ColumnKind(crate::settings::value::ColumnKind::Variable),
            ),
            field(VARIABLE_NAME, VARIABLE_NAME_TIP, ValueView::String(variable_name)),
        ],
        ColumnKindView::Time(time) => seq![
            field(COLUMN_NAME, COLUMN_NAME_TIP, ValueView::String(column.name)),
            field(
                COLUMN_TYPE,
                COLUMN_TYPE_TIP,
                ValueView::ColumnKind(crate::settings::value::ColumnKind::Time),
            ),
            field(START_WITH, START_WITH_TIP, ValueView::ColumnStartWith(time.start_with)),
            field(UPDATE_WITH, UPDATE_WITH_TIP, ValueView::ColumnUpdateWith(time.update_with)),
            field(
                UPDATE_TRIGGER,
                UPDATE_TRIGGER_TIP,
                ValueView::ColumnUpdateTrigger(time.update_trigger),
            ),
            field(COMPARISON, COMPARISON_TIP, ValueView::OptionalString(time.comparison_override)),
            field(
                TIMING_METHOD,
                TIMING_METHOD_TIP,
                ValueView::OptionalTimingMethod(time.timing_method),
            ),
        ],
    }
}

/// How many settings a column has: three for a variable, seven for times.
pub open spec fn column_len(column: ColumnSettingsView) -> nat {
    match column.kind {
        ColumnKindView::Variable(_) => 3,
        ColumnKindView::Time(_) => 7,
    }
}

/// The settings of the first `count` columns, one column after the other.
pub open spec fn columns_fields(columns: Seq<ColumnSettingsView>, count: nat) -> Seq<FieldView>
    decreases count,
{
    if count == 0 {
        Seq::empty()
    } else {
        columns_fields(columns, (count - 1) as nat).add(column_fields(columns[count - 1]))
    }
}

/// All the settings of a list of splits, as they are numbered: those that
/// every list has, then those of each column.
pub open spec fn description(settings: SettingsView) -> Seq<FieldView> {
    general_fields(settings).add(columns_fields(settings.columns, settings.columns.len()))
}

/// The view of a list of settings that got one more setting.
proof fn lemma_push_view(fields: Seq<Field>, added: Field)
    ensures
        fields_view(fields.push(added)) == fields_view(fields).push(added@),
{
    assert(fields_view(fields.push(added)) =~= fields_view(fields).push(added@));
}

fn push_field(fields: &mut Vec<Field>, text: &str, tooltip: &str, value: Value)
    ensures
        fields_view(final(fields)@) == fields_view(old(fields)@).push(field(text, tooltip, value@)),
{
    let added = Field::new(text, tooltip, value);
    proof {
        lemma_push_view(fields@, added);
    }
    fields.push(added);
}

fn push_column(fields: &mut Vec<Field>, column: &ColumnSettings)
    ensures
        fields_view(final(fields)@) == fields_view(old(fields)@).add(column_fields(column@)),
{
    let ghost before = fields_view(fields@);
    push_field(fields, COLUMN_NAME, COLUMN_NAME_TIP, Value::String(column.name.clone()));
    match &column.kind {
        ColumnKind::Variable(variable) => {
            push_field(
                fields,
                COLUMN_TYPE,
                COLUMN_TYPE_TIP,
                Value::ColumnKind(crate::settings::value::ColumnKind::Variable),
            );
            push_field(
                fields,
                VARIABLE_NAME,
                VARIABLE_NAME_TIP,
                Value::String(variable.variable_name.clone()),
            );
        },
        ColumnKind::Time(time) => {
            push_field(
                fields,
                COLUMN_TYPE,
                COLUMN_TYPE_TIP,
                Value::ColumnKind(crate::settings::value::ColumnKind::Time),
            );
            push_field(fields, START_WITH, START_WITH_TIP, Value::ColumnStartWith(time.start_with));
            push_field(
                fields,
                UPDATE_WITH,
                UPDATE_WITH_TIP,
                Value::ColumnUpdateWith(time.update_with),
            );
            push_field(
                fields,
                UPDATE_TRIGGER,
                UPDATE_TRIGGER_TIP,
                Value::ColumnUpdateTrigger(time.update_trigger),
            );
            push_field(
                fields,
                COMPARISON,
                COMPARISON_TIP,
                Value::OptionalString(time.comparison_override.clone()),
            );
            push_field(
                fields,
                TIMING_METHOD,
                TIMING_METHOD_TIP,
                Value::OptionalTimingMethod(time.timing_method),
            );
        },
    }
    assert(fields_view(fields@) =~= before.add(column_fields(column@)));
}

/// The settings that every list of splits has, with their values.
fn general(settings: &Settings) -> (fields: Vec<Field>)
    ensures
        fields_view(fields@) == general_fields(settings@),
{
    let mut fields: Vec<Field> = Vec::new();
    assert(fields_view(fields@) =~= Seq::<FieldView>::empty());
    push_field(
        &mut fields,
        BACKGROUND,
        BACKGROUND_TIP,
        Value::ListGradient(settings.background),
    );
    push_field(
        &mut fields,
        TOTAL_ROWS,
        TOTAL_ROWS_TIP,
        Value::UInt(settings.visual_split_count as u64),
    );
    push_field(
        &mut fields,
        UPCOMING_SEGMENTS,
        UPCOMING_SEGMENTS_TIP,
        Value::UInt(settings.split_preview_count as u64),
    );
    push_field(
        &mut fields,
        THIN_SEPARATORS,
        THIN_SEPARATORS_TIP,
        Value::Bool(settings.show_thin_separators),
    );
    push_field(
        &mut fields,
        SEPARATOR_LAST_SPLIT,
        SEPARATOR_LAST_SPLIT_TIP,
        Value::Bool(settings.separator_last_split),
    );
    push_field(
        &mut fields,
        ALWAYS_SHOW_LAST_SPLIT,
        ALWAYS_SHOW_LAST_SPLIT_TIP,
        Value::Bool(settings.always_show_last_split),
    );
    push_field(
        &mut fields,
        FILL_WITH_BLANK_SPACE,
        FILL_WITH_BLANK_SPACE_TIP,
        Value::Bool(settings.fill_with_blank_space),
    );
    push_field(
        &mut fields,
        DISPLAY_TWO_ROWS,
        DISPLAY_TWO_ROWS_TIP,
        Value::Bool(settings.display_two_rows),
    );
    push_field(
        &mut fields,
        CURRENT_SPLIT_GRADIENT,
        CURRENT_SPLIT_GRADIENT_TIP,
        Value::Gradient(settings.current_split_gradient),
    );
    push_field(
        &mut fields,
        SPLIT_TIME_ACCURACY,
        SPLIT_TIME_ACCURACY_TIP,
        Value::Accuracy(settings.split_time_accuracy),
    );
    push_field(
        &mut fields,
        SEGMENT_TIME_ACCURACY,
        SEGMENT_TIME_ACCURACY_TIP,
        Value::Accuracy(settings.segment_time_accuracy),
    );
    push_field(
        &mut fields,
        DELTA_TIME_ACCURACY,
        DELTA_TIME_ACCURACY_TIP,
        Value::Accuracy(settings.delta_time_accuracy),
    );
    push_field(
        &mut fields,
        DELTA_DROP_DECIMALS,
        DELTA_DROP_DECIMALS_TIP,
        Value::Bool(settings.delta_drop_decimals),
    );
    push_field(
        &mut fields,
        SHOW_COLUMN_LABELS,
        SHOW_COLUMN_LABELS_TIP,
        Value::Bool(settings.show_column_labels),
    );
    push_field(&mut fields, COLUMNS, COLUMNS_TIP, Value::UInt(settings.columns.len() as u64));
    assert(fields_view(fields@) =~= general_fields(settings@));    fields
}

impl Component {
    /// The settings of the component with their values, as they are
    /// numbered for [`Component::set_value`].
    pub fn settings_description(&self) -> (r: SettingsDescription)
        ensures
            r@ == description(self.spec_settings()@),
    {
        let settings = &self.settings;
        let mut fields = general(settings);
        let ghost columns = columns_view(settings.columns@);
        let mut i: usize = 0;
        while i < settings.columns.len()
            invariant
                i <= settings.columns.len(),
                columns == columns_view(settings.columns@),
                settings@.columns == columns,
                fields_view(fields@) == general_fields(settings@).add(
                    columns_fields(columns, i as nat),
                ),
            decreases settings.columns.len() - i,
        {
            push_column(&mut fields, &settings.columns[i]);
            assert(columns[i as int] == settings.columns[i as int]@);
            assert(general_fields(settings@).add(columns_fields(columns, i as nat)).add(
                column_fields(columns[i as int]),
            ) =~= general_fields(settings@).add(columns_fields(columns, (i + 1) as nat)));
            i += 1;
        }
        SettingsDescription::with_fields(fields)
    }
}

} // verus!
