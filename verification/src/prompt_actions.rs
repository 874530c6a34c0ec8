//! What the prompt runtime actions do to the interface once the prompt
//! service has carried them out: the toast shown, whether the metadata form
//! and the content editor close, and whether the list re-selects the
//! resulting prompt. Every action reloads the data afterwards; a failed
//! service call changes nothing.

use vstd::prelude::*;

verus! {

/// The prompt actions of the runtime.
#[derive(Debug, Clone, Copy, PartialEq, Eq, Structural)]
pub enum PromptAction {
    Activate,
    Deactivate,
    UpdateMetadata,
    Save,
    Delete,
}

/// The success toast of an action.
#[derive(Debug, Clone, Copy, PartialEq, Eq, Structural)]
pub enum PromptToast {
    Activated,
    Deactivated,
    Renamed,
    EditFinished,
    Deleted,
}

/// The interface changes after a successful action.
#[derive(Debug, Clone, Copy, PartialEq, Eq, Structural)]
pub struct PromptActionEffects {
    pub toast: PromptToast,
    pub close_form: bool,
    pub close_editor: bool,
    pub select_result: bool,
}

pub open spec fn spec_effects(action: PromptAction) -> PromptActionEffects {
    match action {
        PromptAction::Activate => PromptActionEffects {
            toast: PromptToast::Activated,
            close_form: false,
            close_editor: false,
            select_result: false,
        },
        PromptAction::Deactivate => PromptActionEffects {
            toast: PromptToast::Deactivated,
            close_form: false,
            close_editor: false,
            select_result: false,
        },
        PromptAction::UpdateMetadata => PromptActionEffects {
            toast: PromptToast::Renamed,
            close_form: true,
            close_editor: false,
            select_result: true,
        },
        PromptAction::Save => PromptActionEffects {
            toast: PromptToast::EditFinished,
            close_form: true,
            close_editor: true,
            select_result: true,
        },
        PromptAction::Delete => PromptActionEffects {
            toast: PromptToast::Deleted,
            close_form: false,
            close_editor: false,
            select_result: false,
        },
    }
}

pub fn prompt_action_effects(action: PromptAction) -> (e: PromptActionEffects)
    ensures
        e == spec_effects(action),
{
    match action {
        PromptAction::Activate => PromptActionEffects {
            toast: PromptToast::Activated,
            close_form: false,
            close_editor: false,
            select_result: false,
        },
        PromptAction::Deactivate => PromptActionEffects {
            toast: PromptToast::Deactivated,
            close_form: false,
            close_editor: false,
            select_result: false,
        },
        PromptAction::UpdateMetadata => PromptActionEffects {
            toast: PromptToast::Renamed,
            close_form: true,
            close_editor: false,
            select_result: true,
        },
        PromptAction::Save => PromptActionEffects {
            toast: PromptToast::EditFinished,
            close_form: true,
            close_editor: true,
            select_result: true,
        },
        PromptAction::Delete => PromptActionEffects {
            toast: PromptToast::Deleted,
            close_form: false,
            close_editor: false,
            select_result: false,
        },
    }
}

/// The service call a save makes: an edit form updates the prompt it was
/// opened on (renaming it to the new id, with the content), an add form
/// creates a prompt under the new id.
#[derive(Debug, Clone)]
pub enum PromptSaveRequest {
    Update {
        old_id: String,
        new_id: String,
        name: String,
        description: Option<String>,
        content: String,
    },
    Create { id: String, name: String, description: Option<String>, content: String },
}

pub fn prompt_save_request(
    old_id: Option<String>,
    new_id: String,
    name: String,
    description: Option<String>,
    content: String,
) -> (r: PromptSaveRequest)
    ensures
        match old_id {
            Some(o) => r == (PromptSaveRequest::Update {
                old_id: o,
                new_id,
                name,
                description,
                content,
            }),
            None => r == (PromptSaveRequest::Create { id: new_id, name, description, content }),
        },
{
    match old_id {
        Some(old_id) => PromptSaveRequest::Update { old_id, new_id, name, description, content },
        None => PromptSaveRequest::Create { id: new_id, name, description, content },
    }
}

/// The toast of each action names that action, so distinct actions give
/// distinct toasts; only saving the content closes the editor, and an
/// action that closes the editor closes the form too; exactly the actions
/// that close the form re-select the resulting prompt.
pub proof fn lemma_effects_name_their_action(a: PromptAction, b: PromptAction)
    ensures
        a == PromptAction::Activate <==> spec_effects(a).toast == PromptToast::Activated,
        a == PromptAction::Deactivate <==> spec_effects(a).toast == PromptToast::Deactivated,
        a == PromptAction::UpdateMetadata <==> spec_effects(a).toast == PromptToast::Renamed,
        a == PromptAction::Save <==> spec_effects(a).toast == PromptToast::EditFinished,
        a == PromptAction::Delete <==> spec_effects(a).toast == PromptToast::Deleted,
        a != b ==> spec_effects(a).toast != spec_effects(b).toast,
        spec_effects(a).close_editor <==> a == PromptAction::Save,
        spec_effects(a).close_editor ==> spec_effects(a).close_form,
        spec_effects(a).select_result == spec_effects(a).close_form,
        spec_effects(a).close_form <==> (a == PromptAction::Save || a
            == PromptAction::UpdateMetadata),
{
}

} // verus!
