//! What the task list can be asked to do.
use vstd::prelude::*;

verus! {

/// What the user is doing on the task list.
#[derive(Clone, PartialEq, Eq, Debug, Copy, Structural)]
pub enum Action {
    Report,
    Filter,
    Add,
    AddLinear,
    Annotate,
    Subprocess,
    Log,
    Modify,
    HelpPopup,
    ContextMenu,
    ReportMenu,
    Jump,
    DeletePrompt,
    UndoPrompt,
    DonePrompt,
    Error,
}

} // verus!
