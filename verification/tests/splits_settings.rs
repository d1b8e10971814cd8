use livesplit_core::component::splits::column::{
    ColumnKind, ColumnSettings, ColumnStartWith, ColumnUpdateTrigger, ColumnUpdateWith,
    TimeColumn, VariableColumn,
};
use livesplit_core::component::splits::{Component, Settings};
use livesplit_core::settings::{
    Color, ColumnKind as KindOfColumn, Field, Gradient, ListGradient, SettingsDescription, Value,
};
use livesplit_core::timing::{Accuracy, TimingMethod};

fn values(description: &SettingsDescription) -> Vec<Value> {
    description.fields.iter().map(|field| field.value.clone()).collect()
}

fn texts(description: &SettingsDescription) -> Vec<String> {
    description.fields.iter().map(|field| field.text.clone()).collect()
}

fn variable_column(name: &str, variable: &str) -> ColumnSettings {
    ColumnSettings {
        name: String::from(name),
        kind: ColumnKind::Variable(VariableColumn { variable_name: String::from(variable) }),
    }
}

#[test]
fn the_component_is_called_splits() {
    assert_eq!(Component::new().name(), "Splits");
}

#[test]
fn default_settings() {
    let settings = Settings::default();
    assert_eq!(settings.visual_split_count, 16);
    assert_eq!(settings.split_preview_count, 1);
    assert!(settings.show_thin_separators);
    assert!(settings.separator_last_split);
    assert!(settings.always_show_last_split);
    assert!(settings.fill_with_blank_space);
    assert!(!settings.display_two_rows);
    assert_eq!(settings.split_time_accuracy, Accuracy::Seconds);
    assert_eq!(settings.segment_time_accuracy, Accuracy::Hundredths);
    assert_eq!(settings.delta_time_accuracy, Accuracy::Tenths);
    assert!(settings.delta_drop_decimals);
    assert!(!settings.show_column_labels);
    assert_eq!(settings.columns.len(), 2);
    assert_eq!(
        settings.columns[0],
        ColumnSettings {
            name: String::from("Time"),
            kind: ColumnKind::Time(TimeColumn {
                start_with: ColumnStartWith::ComparisonTime,
                update_with: ColumnUpdateWith::SplitTime,
                update_trigger: ColumnUpdateTrigger::OnEndingSegment,
                comparison_override: None,
                timing_method: None,
            }),
        }
    );
    assert_eq!(
        settings.columns[1],
        ColumnSettings {
            name: String::from("+/−"),
            kind: ColumnKind::Time(TimeColumn {
                start_with: ColumnStartWith::Empty,
                update_with: ColumnUpdateWith::Delta,
                update_trigger: ColumnUpdateTrigger::Contextual,
                comparison_override: None,
                timing_method: None,
            }),
        }
    );
}

#[test]
fn default_colours() {
    let settings = Settings::default();
    let channel = |bits: u32| f32::from_bits(bits);
    match settings.background {
        ListGradient::Alternating(first, second) => {
            assert_eq!(first, Color::transparent());
            assert_eq!(
                [channel(first.red), channel(first.green), channel(first.blue), channel(first.alpha)],
                [0.0, 0.0, 0.0, 0.0]
            );
            assert_eq!(
                [
                    channel(second.red),
                    channel(second.green),
                    channel(second.blue),
                    channel(second.alpha)
                ],
                [1.0, 1.0, 1.0, 0.04]
            );
        }
        other => panic!("the background is {:?}", other),
    }
    match settings.current_split_gradient {
        Gradient::Vertical(top, bottom) => {
            assert_eq!(
                [channel(top.red), channel(top.green), channel(top.blue), channel(top.alpha)],
                [51.0 / 255.0, 115.0 / 255.0, 244.0 / 255.0, 1.0]
            );
            assert_eq!(
                [
                    channel(bottom.red),
                    channel(bottom.green),
                    channel(bottom.blue),
                    channel(bottom.alpha)
                ],
                [21.0 / 255.0, 53.0 / 255.0, 116.0 / 255.0, 1.0]
            );
        }
        other => panic!("the gradient is {:?}", other),
    }
}

#[test]
fn default_columns() {
    assert_eq!(
        ColumnSettings::default(),
        ColumnSettings {
            name: String::new(),
            kind: ColumnKind::Time(TimeColumn {
                start_with: ColumnStartWith::Empty,
                update_with: ColumnUpdateWith::DontUpdate,
                update_trigger: ColumnUpdateTrigger::Contextual,
                comparison_override: None,
                timing_method: None,
            }),
        }
    );
    assert_eq!(VariableColumn::default(), VariableColumn { variable_name: String::new() });
    assert_eq!(ColumnKind::default(), ColumnKind::Time(TimeColumn::default()));
}

#[test]
fn a_new_component_has_the_default_settings() {
    assert_eq!(*Component::new().settings(), Settings::default());
    assert_eq!(*Component::default().settings(), Settings::default());
}

#[test]
fn with_settings_keeps_the_settings() {
    let mut settings = Settings::default();
    settings.visual_split_count = 3;
    settings.columns.push(variable_column("Score", "points"));
    let component = Component::with_settings(settings.clone());
    assert_eq!(*component.settings(), settings);
}

#[test]
fn settings_mut_changes_the_settings() {
    let mut component = Component::new();
    component.settings_mut().visual_split_count = 5;
    component.settings_mut().show_column_labels = true;
    assert_eq!(component.settings().visual_split_count, 5);
    assert!(component.settings().show_column_labels);
    assert_eq!(component.settings().split_preview_count, 1);
}

#[test]
fn the_description_of_the_default_settings() {
    let description = Component::new().settings_description();
    assert_eq!(description.fields.len(), 15 + 7 + 7);
    assert_eq!(
        texts(&description),
        vec![
            "Background",
            "Total Rows",
            "Upcoming Segments",
            "Show Thin Separators",
            "Show Separator Before Last Split",
            "Always Show Last Split",
            "Fill with Blank Space",
            "Show Times Below Segment Name",
            "Current Segment Gradient",
            "Split Time Accuracy",
            "Segment Time Accuracy",
            "Delta Time Accuracy",
            "Drop Delta Decimals When Showing Minutes",
            "Show Column Labels",
            "Columns",
            "Column Name",
            "Column Type",
            "Start With",
            "Update With",
            "Update Trigger",
            "Comparison",
            "Timing Method",
            "Column Name",
            "Column Type",
            "Start With",
            "Update With",
            "Update Trigger",
            "Comparison",
            "Timing Method",
        ]
    );
    let settings = Settings::default();
    assert_eq!(
        values(&description),
        vec![
            Value::ListGradient(settings.background),
            Value::UInt(16),
            Value::UInt(1),
            Value::Bool(true),
            Value::Bool(true),
            Value::Bool(true),
            Value::Bool(true),
            Value::Bool(false),
            Value::Gradient(settings.current_split_gradient),
            Value::Accuracy(Accuracy::Seconds),
            Value::Accuracy(Accuracy::Hundredths),
            Value::Accuracy(Accuracy::Tenths),
            Value::Bool(true),
            Value::Bool(false),
            Value::UInt(2),
            Value::String(String::from("Time")),
            Value::ColumnKind(KindOfColumn::Time),
            Value::ColumnStartWith(ColumnStartWith::ComparisonTime),
            Value::ColumnUpdateWith(ColumnUpdateWith::SplitTime),
            Value::ColumnUpdateTrigger(ColumnUpdateTrigger::OnEndingSegment),
            Value::OptionalString(None),
            Value::OptionalTimingMethod(None),
            Value::String(String::from("+/−")),
            Value::ColumnKind(KindOfColumn::Time),
            Value::ColumnStartWith(ColumnStartWith::Empty),
            Value::ColumnUpdateWith(ColumnUpdateWith::Delta),
            Value::ColumnUpdateTrigger(ColumnUpdateTrigger::Contextual),
            Value::OptionalString(None),
            Value::OptionalTimingMethod(None),
        ]
    );
}

#[test]
fn the_description_explains_each_setting() {
    let description = Component::new().settings_description();
    assert_eq!(
        description.fields[1].tooltip,
        "The total number of rows of segments to show in the list. If set to 0, all the segments are shown. If set to a number lower than the total number of segments, only a certain window of all the segments is shown. This window can scroll up or down."
    );
    assert_eq!(
        description.fields[13].tooltip,
        "Specifies whether to show the names of the columns at the top of the list."
    );
    assert_eq!(
        description.fields[15].tooltip,
        "The name of the column. This is shown at the top of the list if the option to show column labels is enabled."
    );
    assert_eq!(
        description.fields[21],
        Field::new(
            "Timing Method",
            "Specifies the timing method to use for this column. If not specified, the current timing method is used.",
            Value::OptionalTimingMethod(None),
        )
    );
    for field in &description.fields {
        assert!(!field.text.is_empty());
        assert!(!field.tooltip.is_empty());
    }
}

#[test]
fn the_description_of_a_variable_column() {
    let mut settings = Settings::default();
    settings.columns.insert(1, variable_column("Score", "points"));
    let description = Component::with_settings(settings).settings_description();
    assert_eq!(description.fields.len(), 15 + 7 + 3 + 7);
    assert_eq!(description.fields[14].value, Value::UInt(3));
    assert_eq!(
        values(&description)[22..25],
        [
            Value::String(String::from("Score")),
            Value::ColumnKind(KindOfColumn::Variable),
            Value::String(String::from("points")),
        ]
    );
    assert_eq!(
        texts(&description)[22..26],
        ["Column Name", "Column Type", "Variable Name", "Column Name"]
    );
}

#[test]
fn the_description_without_columns() {
    let mut settings = Settings::default();
    settings.columns.clear();
    let description = Component::with_settings(settings).settings_description();
    assert_eq!(description.fields.len(), 15);
    assert_eq!(description.fields[14].value, Value::UInt(0));
    assert_eq!(description, SettingsDescription::with_fields(description.fields.clone()));
}

#[test]
fn set_value_sets_the_settings_before_the_columns() {
    let mut component = Component::new();
    let background = ListGradient::Same(Gradient::Plain(Color::rgba(1, 2, 3, 4)));
    let gradient = Gradient::Horizontal(Color::rgba(5, 6, 7, 8), Color::transparent());
    component.set_value(0, Value::ListGradient(background));
    component.set_value(1, Value::UInt(7));
    component.set_value(2, Value::UInt(3));
    component.set_value(3, Value::Bool(false));
    component.set_value(4, Value::Bool(false));
    component.set_value(5, Value::Bool(false));
    component.set_value(6, Value::Bool(false));
    component.set_value(7, Value::Bool(true));
    component.set_value(8, Value::Gradient(gradient));
    component.set_value(9, Value::Accuracy(Accuracy::Milliseconds));
    component.set_value(10, Value::Accuracy(Accuracy::Seconds));
    component.set_value(11, Value::Accuracy(Accuracy::Hundredths));
    component.set_value(12, Value::Bool(false));
    component.set_value(13, Value::Bool(true));
    let settings = component.settings();
    assert_eq!(settings.background, background);
    assert_eq!(settings.visual_split_count, 7);
    assert_eq!(settings.split_preview_count, 3);
    assert!(!settings.show_thin_separators);
    assert!(!settings.separator_last_split);
    assert!(!settings.always_show_last_split);
    assert!(!settings.fill_with_blank_space);
    assert!(settings.display_two_rows);
    assert_eq!(settings.current_split_gradient, gradient);
    assert_eq!(settings.split_time_accuracy, Accuracy::Milliseconds);
    assert_eq!(settings.segment_time_accuracy, Accuracy::Seconds);
    assert_eq!(settings.delta_time_accuracy, Accuracy::Hundredths);
    assert!(!settings.delta_drop_decimals);
    assert!(settings.show_column_labels);
    assert_eq!(settings.columns, Settings::default().columns);
}

#[test]
fn set_value_changes_the_number_of_columns() {
    let mut component = Component::new();
    component.set_value(14, Value::UInt(4));
    assert_eq!(component.settings().columns.len(), 4);
    assert_eq!(component.settings().columns[..2], Settings::default().columns[..]);
    assert_eq!(component.settings().columns[2], ColumnSettings::default());
    assert_eq!(component.settings().columns[3], ColumnSettings::default());
    component.set_value(14, Value::UInt(1));
    assert_eq!(component.settings().columns, Settings::default().columns[..1]);
    component.set_value(14, Value::UInt(1));
    assert_eq!(component.settings().columns.len(), 1);
    component.set_value(14, Value::UInt(0));
    assert!(component.settings().columns.is_empty());
}

#[test]
fn set_value_sets_the_settings_of_a_time_column() {
    let mut component = Component::new();
    component.set_value(22, Value::String(String::from("Segment")));
    component.set_value(24, Value::ColumnStartWith(ColumnStartWith::ComparisonSegmentTime));
    component.set_value(25, Value::ColumnUpdateWith(ColumnUpdateWith::SegmentTime));
    component.set_value(26, Value::ColumnUpdateTrigger(ColumnUpdateTrigger::OnStartingSegment));
    component.set_value(27, Value::OptionalString(Some(String::from("Best Segments"))));
    component.set_value(28, Value::OptionalTimingMethod(Some(TimingMethod::GameTime)));
    assert_eq!(component.settings().columns[0], Settings::default().columns[0]);
    assert_eq!(
        component.settings().columns[1],
        ColumnSettings {
            name: String::from("Segment"),
            kind: ColumnKind::Time(TimeColumn {
                start_with: ColumnStartWith::ComparisonSegmentTime,
                update_with: ColumnUpdateWith::SegmentTime,
                update_trigger: ColumnUpdateTrigger::OnStartingSegment,
                comparison_override: Some(String::from("Best Segments")),
                timing_method: Some(TimingMethod::GameTime),
            }),
        }
    );
    component.set_value(27, Value::OptionalString(None));
    component.set_value(28, Value::OptionalTimingMethod(None));
    match &component.settings().columns[1].kind {
        ColumnKind::Time(time) => {
            assert_eq!(time.comparison_override, None);
            assert_eq!(time.timing_method, None);
        }
        other => panic!("the column is {:?}", other),
    }
}

#[test]
fn set_value_changes_the_kind_of_a_column() {
    let mut component = Component::new();
    component.set_value(16, Value::ColumnKind(KindOfColumn::Variable));
    assert_eq!(component.settings().columns[0], variable_column("Time", ""));
    assert_eq!(component.settings_description().fields.len(), 15 + 3 + 7);
    component.set_value(17, Value::String(String::from("points")));
    assert_eq!(component.settings().columns[0], variable_column("Time", "points"));
    // The second column has moved up by four settings.
    component.set_value(18, Value::String(String::from("Delta")));
    assert_eq!(component.settings().columns[1].name, "Delta");
    component.set_value(16, Value::ColumnKind(KindOfColumn::Time));
    assert_eq!(
        component.settings().columns[0],
        ColumnSettings { name: String::from("Time"), kind: ColumnKind::default() }
    );
}

#[test]
fn setting_the_kind_that_a_column_has_makes_it_fresh() {
    let mut component = Component::new();
    component.set_value(16, Value::ColumnKind(KindOfColumn::Time));
    assert_eq!(
        component.settings().columns[0],
        ColumnSettings { name: String::from("Time"), kind: ColumnKind::default() }
    );
    let mut settings = Settings::default();
    settings.columns = vec![variable_column("Score", "points")];
    let mut component = Component::with_settings(settings);
    component.set_value(16, Value::ColumnKind(KindOfColumn::Variable));
    assert_eq!(component.settings().columns[0], variable_column("Score", ""));
}

#[test]
fn a_value_that_was_set_is_described() {
    let mut component = Component::new();
    let samples = vec![
        (1, Value::UInt(9)),
        (5, Value::Bool(false)),
        (11, Value::Accuracy(Accuracy::Milliseconds)),
        (14, Value::UInt(3)),
        (15, Value::String(String::from("Split"))),
        (20, Value::OptionalString(Some(String::from("Average Segments")))),
        (23, Value::ColumnKind(KindOfColumn::Variable)),
        (24, Value::String(String::from("lives"))),
        (26, Value::ColumnKind(KindOfColumn::Time)),
        (29, Value::ColumnUpdateTrigger(ColumnUpdateTrigger::OnEndingSegment)),
    ];
    for (index, value) in samples {
        assert!(component.accepts_value(index, &value));
        component.set_value(index, value.clone());
        assert_eq!(component.settings_description().fields[index].value, value);
    }
}

#[test]
fn a_value_is_accepted_where_the_description_has_its_kind() {
    let mut settings = Settings::default();
    settings.columns.insert(1, variable_column("Score", "points"));
    let component = Component::with_settings(settings);
    let description = component.settings_description();
    let samples = vec![
        Value::Bool(true),
        Value::UInt(1),
        Value::String(String::new()),
        Value::OptionalString(None),
        Value::Accuracy(Accuracy::Tenths),
        Value::OptionalTimingMethod(None),
        Value::Gradient(Gradient::Transparent),
        Value::ListGradient(ListGradient::Same(Gradient::Transparent)),
        Value::ColumnKind(KindOfColumn::Time),
        Value::ColumnStartWith(ColumnStartWith::Empty),
        Value::ColumnUpdateWith(ColumnUpdateWith::DontUpdate),
        Value::ColumnUpdateTrigger(ColumnUpdateTrigger::Contextual),
    ];
    for index in 0..description.fields.len() + 3 {
        for value in &samples {
            let same_kind = description.fields.get(index).is_some_and(|field| {
                std::mem::discriminant(&field.value) == std::mem::discriminant(value)
            });
            assert_eq!(component.accepts_value(index, value), same_kind);
        }
    }
}

#[test]
fn no_value_is_accepted_past_the_last_setting() {
    let component = Component::new();
    assert!(component.accepts_value(28, &Value::OptionalTimingMethod(None)));
    assert!(!component.accepts_value(29, &Value::OptionalTimingMethod(None)));
    assert!(!component.accepts_value(29, &Value::String(String::new())));
    assert!(!component.accepts_value(usize::MAX, &Value::Bool(true)));
}

#[test]
fn values_give_what_they_hold() {
    assert_eq!(Value::Bool(true).into_bool(), Some(true));
    assert_eq!(Value::UInt(5).into_bool(), None);
    assert_eq!(Value::UInt(5).into_uint(), Some(5));
    assert_eq!(Value::Bool(true).into_uint(), None);
    assert_eq!(Value::String(String::from("a")).into_string(), Some(String::from("a")));
    assert_eq!(Value::OptionalString(None).into_string(), None);
    assert_eq!(Value::OptionalString(None).into_optional_string(), Some(None));
    assert_eq!(
        Value::OptionalString(Some(String::from("a"))).into_optional_string(),
        Some(Some(String::from("a")))
    );
    assert_eq!(Value::String(String::from("a")).into_optional_string(), None);
    assert_eq!(Value::Accuracy(Accuracy::Tenths).into_accuracy(), Some(Accuracy::Tenths));
    assert_eq!(Value::UInt(1).into_accuracy(), None);
    assert_eq!(
        Value::OptionalTimingMethod(Some(TimingMethod::RealTime)).into_optional_timing_method(),
        Some(Some(TimingMethod::RealTime))
    );
    assert_eq!(Value::Bool(false).into_optional_timing_method(), None);
    assert_eq!(
        Value::Gradient(Gradient::Transparent).into_gradient(),
        Some(Gradient::Transparent)
    );
    assert_eq!(Value::ListGradient(ListGradient::Same(Gradient::Transparent)).into_gradient(), None);
    assert_eq!(
        Value::ListGradient(ListGradient::Same(Gradient::Transparent)).into_list_gradient(),
        Some(ListGradient::Same(Gradient::Transparent))
    );
    assert_eq!(Value::Gradient(Gradient::Transparent).into_list_gradient(), None);
    assert_eq!(
        Value::ColumnKind(KindOfColumn::Variable).into_column_kind(),
        Some(KindOfColumn::Variable)
    );
    assert_eq!(Value::UInt(0).into_column_kind(), None);
    assert_eq!(
        Value::ColumnStartWith(ColumnStartWith::PossibleTimeSave).into_column_start_with(),
        Some(ColumnStartWith::PossibleTimeSave)
    );
    assert_eq!(Value::UInt(0).into_column_start_with(), None);
    assert_eq!(
        Value::ColumnUpdateWith(ColumnUpdateWith::SegmentDelta).into_column_update_with(),
        Some(ColumnUpdateWith::SegmentDelta)
    );
    assert_eq!(Value::UInt(0).into_column_update_with(), None);
    assert_eq!(
        Value::ColumnUpdateTrigger(ColumnUpdateTrigger::Contextual).into_column_update_trigger(),
        Some(ColumnUpdateTrigger::Contextual)
    );
    assert_eq!(Value::UInt(0).into_column_update_trigger(), None);
}
