//! What the front end shows: the screen in view and the state around it.

use vstd::prelude::*;

verus! {

/// The screen in view.
#[derive(Clone, Copy, Debug, PartialEq, Eq, Structural)]
pub enum Screen {
    /// The list of jobs.
    Main,
    /// The settings.
    Settings,
    /// The fields of the selected job.
    EditJob,
    /// The first-start wizard.
    InitialSetup,
}

/// State of the front end that is not a job or a setting.
#[derive(Debug, PartialEq, Eq)]
pub struct UiState {
    /// The screen in view.
    pub screen: Screen,
    /// The selected row of the list of jobs.
    pub selected: usize,
    /// The log, oldest remark first.
    pub log: Vec<String>,
    /// The status line.
    pub status: String,
    /// The field that is edited next, 0 to 4.
    pub editing_field_idx: usize,
    /// An error to show in place of the status line.
    pub error: Option<String>,
}

/// `UiState` over mathematical values.
pub struct UiStateView {
    pub screen: Screen,
    pub selected: nat,
    pub log: Seq<Seq<char>>,
    pub status: Seq<char>,
    pub editing_field_idx: nat,
    pub error: Option<Seq<char>>,
}

/// An optional text as mathematical text.
pub open spec fn optional_text(text: Option<String>) -> Option<Seq<char>> {
    match text {
        Some(t) => Some(t@),
        None => None,
    }
}

impl View for UiState {
    type V = UiStateView;

    open spec fn view(&self) -> UiStateView {
        UiStateView {
            screen: self.screen,
            selected: self.selected as nat,
            log: self.log.deep_view(),
            status: self.status@,
            editing_field_idx: self.editing_field_idx as nat,
            error: optional_text(self.error),
        }
    }
}

impl Clone for UiState {
    fn clone(&self) -> (copy: Self)
        ensures
            copy@ == self@,
    {
        let copy = UiState {
            screen: self.screen,
            selected: self.selected,
            log: self.log.clone(),
            status: self.status.clone(),
            editing_field_idx: self.editing_field_idx,
            error: match &self.error {
                Some(text) => Some(text.clone()),
                None => None,
            },
        };
        proof {
            assert(copy.log.deep_view() =~= self.log.deep_view());
        }
        copy
    }
}

} // verus!
