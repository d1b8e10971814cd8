//! The list of splits: one row for each segment, with its name and its
//! columns of times. The list can show a window of the segments, which
//! follows the current segment and can be scrolled.

use vstd::prelude::*;

pub mod column;
pub mod description;
pub mod laws;
pub mod set_value;
pub mod settings;
pub mod state;
pub mod texts;
pub mod window;

pub use column::{
    ColumnKind, ColumnSettings, ColumnStartWith, ColumnState, ColumnUpdateTrigger,
    ColumnUpdateWith, SemanticColor, TimeColumn, VariableColumn,
};
pub use settings::Settings;
pub use state::{ImageId, Segment, SplitState, State};
pub use window::Window;

verus! {

/// The list of splits: its settings, and where its window stands.
#[derive(Clone)]
pub struct Component {
    settings: Settings,
    current_split_index: Option<usize>,
    scroll_offset: isize,
}

impl Component {
    /// The settings of the component.
    pub closed spec fn spec_settings(&self) -> Settings {
        self.settings
    }

    /// The current segment as the component last saw it.
    pub closed spec fn spec_current_split_index(&self) -> Option<usize> {
        self.current_split_index
    }

    /// How many rows the window is scrolled down from where it follows the
    /// current segment; negative where it is scrolled up.
    pub closed spec fn spec_scroll_offset(&self) -> isize {
        self.scroll_offset
    }

    /// The scrolling from which the window is worked out when the current
    /// segment is `current`: the scrolling so far, or none where the current
    /// segment is not the one that the component last saw.
    pub closed spec fn spec_scroll_after(&self, current: Option<usize>) -> isize {
        if self.current_split_index == current {
            self.scroll_offset
        } else {
            0
        }
    }

    /// Where the window stands over `run_len` segments, with the current
    /// segment and the scrolling that the component remembers.
    pub closed spec fn spec_window(&self, run_len: int) -> window::Window {
        window::Window {
            visual_split_count: window::rows_wanted(self.settings@, run_len) as usize,
            scroll_offset: self.scroll_offset,
            skip_count: window::skipped(
                self.settings@,
                run_len,
                self.current_split_index,
                self.scroll_offset as int,
            ) as usize,
            take_count: window::taken(self.settings@, run_len) as usize,
            show_final_separator: window::final_separator(
                self.settings@,
                run_len,
                self.current_split_index,
                self.scroll_offset as int,
            ),
        }
    }

    /// A list of splits with the settings to start with, not scrolled.
    pub fn new() -> (r: Component)
        ensures
            r.spec_settings()@ == settings::default_settings(),
            r.spec_current_split_index() is None,
            r.spec_scroll_offset() == 0,
    {
        Component { settings: Settings::default(), current_split_index: None, scroll_offset: 0 }
    }

    /// A list of splits with the given settings, not scrolled.
    pub fn with_settings(settings: Settings) -> (r: Component)
        ensures
            r.spec_settings() == settings,
            r.spec_current_split_index() is None,
            r.spec_scroll_offset() == 0,
    {
        Component { settings, current_split_index: None, scroll_offset: 0 }
    }

    /// The settings of the component.
    pub fn settings(&self) -> (r: &Settings)
        ensures
            *r == self.spec_settings(),
    {
        &self.settings
    }

    /// The settings of the component, to be changed in place. Nothing else
    /// of the component changes.
    pub fn settings_mut(&mut self) -> (r: &mut Settings)
        ensures
            *r == old(self).spec_settings(),
            final(self).spec_settings() == *final(r),
            final(self).spec_current_split_index() == old(self).spec_current_split_index(),
            final(self).spec_scroll_offset() == old(self).spec_scroll_offset(),
    {
        &mut self.settings
    }

    /// Scrolls the window up by one row. The window is held within the
    /// segments when the state is next updated.
    pub fn scroll_up(&mut self)
        ensures
            final(self).spec_scroll_offset() == if old(self).spec_scroll_offset() == isize::MIN {
                isize::MIN as int
            } else {
                old(self).spec_scroll_offset() - 1
            },
            final(self).spec_settings() == old(self).spec_settings(),
            final(self).spec_current_split_index() == old(self).spec_current_split_index(),
    {
        if self.scroll_offset > isize::MIN {
            self.scroll_offset = self.scroll_offset - 1;
        }
    }

    /// Scrolls the window down by one row. The window is held within the
    /// segments when the state is next updated.
    pub fn scroll_down(&mut self)
        ensures
            final(self).spec_scroll_offset() == if old(self).spec_scroll_offset() == isize::MAX {
                isize::MAX as int
            } else {
                old(self).spec_scroll_offset() + 1
            },
            final(self).spec_settings() == old(self).spec_settings(),
            final(self).spec_current_split_index() == old(self).spec_current_split_index(),
    {
        if self.scroll_offset < isize::MAX {
            self.scroll_offset = self.scroll_offset + 1;
        }
    }

    /// The name of the component.
    pub fn name(&self) -> (r: &'static str)
        ensures
            r@ == "Splits"@,
    {
        "Splits"
    }
}

impl Default for Component {
    /// A list of splits with the settings to start with, not scrolled.
    fn default() -> (r: Component)
        ensures
            r.spec_settings()@ == settings::default_settings(),
            r.spec_current_split_index() is None,
            r.spec_scroll_offset() == 0,
    {
        Component::new()
    }
}

} // verus!
