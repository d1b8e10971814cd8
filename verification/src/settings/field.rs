use vstd::prelude::*;
use crate::settings::value::{Value, ValueView};

verus! {

/// One setting as it is shown to the user: what it is called, what it is
/// for, and its value.
#[derive(Clone, Debug, PartialEq, Eq)]
pub struct Field {
    /// The name of the setting.
    pub text: String,
    /// What the setting does.
    pub tooltip: String,
    /// The value that the setting has.
    pub value: Value,
}

/// One setting, as mathematics.
pub struct FieldView {
    pub text: Seq<char>,
    pub tooltip: Seq<char>,
    pub value: ValueView,
}

impl View for Field {
    type V = FieldView;

    open spec fn view(&self) -> FieldView {
        FieldView { text: self.text@, tooltip: self.tooltip@, value: self.value@ }
    }
}

impl Field {
    /// The setting with the given name, explanation and value.
    pub fn new(text: &str, tooltip: &str, value: Value) -> (r: Field)
        ensures
            r@ == (FieldView { text: text@, tooltip: tooltip@, value: value@ }),
    {
        Field { text: text.to_owned(), tooltip: tooltip.to_owned(), value }
    }
}

/// The settings of a component, in the order in which they are numbered.
#[derive(Clone, Debug, PartialEq, Eq)]
pub struct SettingsDescription {
    /// The settings.
    pub fields: Vec<Field>,
}

/// A list of settings, as mathematics.
pub open spec fn fields_view(fields: Seq<Field>) -> Seq<FieldView> {
    fields.map_values(|field: Field| field@)
}

impl View for SettingsDescription {
    type V = Seq<FieldView>;

    open spec fn view(&self) -> Seq<FieldView> {
        fields_view(self.fields@)
    }
}

impl SettingsDescription {
    /// The description that holds the given settings.
    pub fn with_fields(fields: Vec<Field>) -> (r: SettingsDescription)
        ensures
            r.fields == fields,
    {
        SettingsDescription { fields }
    }
}

} // verus!
