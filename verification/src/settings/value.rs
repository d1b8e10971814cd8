use vstd::prelude::*;
use crate::component::splits::column::{ColumnStartWith, ColumnUpdateTrigger, ColumnUpdateWith};
use crate::settings::color::{Gradient, ListGradient};
use crate::timing::{Accuracy, TimingMethod};

verus! {

/// Which kind of column a column is, without what it holds.
#[derive(Clone, Copy, Debug, PartialEq, Eq, Hash, Structural)]
pub enum ColumnKind {
    /// A column that shows times.
    Time,
    /// A column that shows a variable of the run.
    Variable,
}

/// The value of a setting. Each setting takes the values of one variant.
#[derive(Clone, Debug, PartialEq, Eq)]
pub enum Value {
    Bool(bool),
    UInt(u64),
    String(String),
    OptionalString(Option<String>),
    Accuracy(Accuracy),
    OptionalTimingMethod(Option<TimingMethod>),
    Gradient(Gradient),
    ListGradient(ListGradient),
    ColumnKind(ColumnKind),
    ColumnStartWith(ColumnStartWith),
    ColumnUpdateWith(ColumnUpdateWith),
    ColumnUpdateTrigger(ColumnUpdateTrigger),
}

/// The value of a setting, as mathematics.
pub enum ValueView {
    Bool(bool),
    UInt(u64),
    String(Seq<char>),
    OptionalString(Option<Seq<char>>),
    Accuracy(Accuracy),
    OptionalTimingMethod(Option<TimingMethod>),
    Gradient(Gradient),
    ListGradient(ListGradient),
    ColumnKind(ColumnKind),
    ColumnStartWith(ColumnStartWith),
    ColumnUpdateWith(ColumnUpdateWith),
    ColumnUpdateTrigger(ColumnUpdateTrigger),
}

impl View for Value {
    type V = ValueView;

    open spec fn view(&self) -> ValueView {
        match self {
            Value::Bool(v) => ValueView::Bool(*v),
            Value::UInt(v) => ValueView::UInt(*v),
            Value::String(v) => ValueView::String(v@),
            Value::OptionalString(Some(v)) => ValueView::OptionalString(Some(v@)),
            Value::OptionalString(None) => ValueView::OptionalString(None),
            Value::Accuracy(v) => ValueView::Accuracy(*v),
            Value::OptionalTimingMethod(v) => ValueView::OptionalTimingMethod(*v),
            Value::Gradient(v) => ValueView::Gradient(*v),
            Value::ListGradient(v) => ValueView::ListGradient(*v),
            Value::ColumnKind(v) => ValueView::ColumnKind(*v),
            Value::ColumnStartWith(v) => ValueView::ColumnStartWith(*v),
            Value::ColumnUpdateWith(v) => ValueView::ColumnUpdateWith(*v),
            Value::ColumnUpdateTrigger(v) => ValueView::ColumnUpdateTrigger(*v),
        }
    }
}

impl Value {
    /// The truth value, if the value is one.
    pub fn into_bool(self) -> (r: Option<bool>)
        ensures
            r == (match self@ {
                ValueView::Bool(v) => Some(v),
                _ => None,
            }),
    {
        match self {
            Value::Bool(v) => Some(v),
            _ => None,
        }
    }

    /// The number, if the value is one.
    pub fn into_uint(self) -> (r: Option<u64>)
        ensures
            r == (match self@ {
                ValueView::UInt(v) => Some(v),
                _ => None,
            }),
    {
        match self {
            Value::UInt(v) => Some(v),
            _ => None,
        }
    }

    /// The text, if the value is one.
    pub fn into_string(self) -> (r: Option<String>)
        ensures
            match self@ {
                ValueView::String(v) => r matches Some(text) && text@ == v,
                _ => r is None,
            },
    {
        match self {
            Value::String(v) => Some(v),
            _ => None,
        }
    }

    /// The text or its absence, if the value is an optional text.
    pub fn into_optional_string(self) -> (r: Option<Option<String>>)
        ensures
            match self@ {
                ValueView::OptionalString(Some(v)) => r matches Some(Some(text)) && text@ == v,
                ValueView::OptionalString(None) => r == Some(None::<String>),
                _ => r is None,
            },
    {
        match self {
            Value::OptionalString(v) => Some(v),
            _ => None,
        }
    }

    /// The accuracy, if the value is one.
    pub fn into_accuracy(self) -> (r: Option<Accuracy>)
        ensures
            r == (match self@ {
                ValueView::Accuracy(v) => Some(v),
                _ => None,
            }),
    {
        match self {
            Value::Accuracy(v) => Some(v),
            _ => None,
        }
    }

    /// The timing method or its absence, if the value is an optional timing
    /// method.
    pub fn into_optional_timing_method(self) -> (r: Option<Option<TimingMethod>>)
        ensures
            r == (match self@ {
                ValueView::OptionalTimingMethod(v) => Some(v),
                _ => None,
            }),
    {
        match self {
            Value::OptionalTimingMethod(v) => Some(v),
            _ => None,
        }
    }

    /// The gradient, if the value is one.
    pub fn into_gradient(self) -> (r: Option<Gradient>)
        ensures
            r == (match self@ {
                ValueView::Gradient(v) => Some(v),
                _ => None,
            }),
    {
        match self {
            Value::Gradient(v) => Some(v),
            _ => None,
        }
    }

    /// The gradient of a list, if the value is one.
    pub fn into_list_gradient(self) -> (r: Option<ListGradient>)
        ensures
            r == (match self@ {
                ValueView::ListGradient(v) => Some(v),
                _ => None,
            }),
    {
        match self {
            Value::ListGradient(v) => Some(v),
            _ => None,
        }
    }

    /// The kind of column, if the value is one.
    pub fn into_column_kind(self) -> (r: Option<ColumnKind>)
        ensures
            r == (match self@ {
                ValueView::ColumnKind(v) => Some(v),
                _ => None,
            }),
    {
        match self {
            Value::ColumnKind(v) => Some(v),
            _ => None,
        }
    }

    /// What a column starts with, if the value says so.
    pub fn into_column_start_with(self) -> (r: Option<ColumnStartWith>)
        ensures
            r == (match self@ {
                ValueView::ColumnStartWith(v) => Some(v),
                _ => None,
            }),
    {
        match self {
            Value::ColumnStartWith(v) => Some(v),
            _ => None,
        }
    }

    /// What a column updates with, if the value says so.
    pub fn into_column_update_with(self) -> (r: Option<ColumnUpdateWith>)
        ensures
            r == (match self@ {
                ValueView::ColumnUpdateWith(v) => Some(v),
                _ => None,
            }),
    {
        match self {
            Value::ColumnUpdateWith(v) => Some(v),
            _ => None,
        }
    }

    /// When a column updates, if the value says so.
    pub fn into_column_update_trigger(self) -> (r: Option<ColumnUpdateTrigger>)
        ensures
            r == (match self@ {
                ValueView::ColumnUpdateTrigger(v) => Some(v),
                _ => None,
            }),
    {
        match self {
            Value::ColumnUpdateTrigger(v) => Some(v),
            _ => None,
        }
    }
}

} // verus!
