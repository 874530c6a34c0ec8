use cc_switch::prompt_form::{
    EditorKind, FormFocus, FormMode, Prompt, PromptMetaField, PromptMetaFormState,
    DEFAULT_PROMPT_CONTENT,
};
use cc_switch::prompt_actions::{
    prompt_action_effects, prompt_save_request, PromptAction, PromptSaveRequest, PromptToast,
};
use cc_switch::prompt_list::{first_active_prompt, prompt_visible};

fn prompt(description: Option<&str>) -> Prompt {
    Prompt {
        id: "notes".to_string(),
        name: "Daily Notes".to_string(),
        content: "Be thorough.".to_string(),
        description: description.map(|d| d.to_string()),
        enabled: false,
    }
}

#[test]
fn new_form_starts_clean_with_default_content() {
    let form = PromptMetaFormState::new("p1".to_string(), " Name ".to_string());
    assert!(matches!(form.mode, FormMode::Add));
    assert_eq!(form.focus, FormFocus::Fields);
    assert_eq!(form.content.kind, EditorKind::Plain);
    assert_eq!(form.content_value(), DEFAULT_PROMPT_CONTENT);
    assert_eq!(form.name_value(), "Name");
    assert_eq!(form.description_value(), None);
    assert!(!form.has_unsaved_changes());
}

#[test]
fn edit_form_loads_the_prompt() {
    let form = PromptMetaFormState::from_prompt(&prompt(Some("  checks diffs ")));
    assert!(matches!(&form.mode, FormMode::Edit { id } if id == "notes"));
    assert_eq!(form.id_value(), "notes");
    assert_eq!(form.description_value(), Some("checks diffs".to_string()));
    assert_eq!(form.content_value(), "Be thorough.");
    assert!(!form.has_unsaved_changes());
    let bare = PromptMetaFormState::from_prompt(&prompt(None));
    assert_eq!(bare.description.value, "");
}

#[test]
fn edits_are_tracked_after_trimming() {
    let mut form = PromptMetaFormState::from_prompt(&prompt(None));
    form.input_mut(PromptMetaField::Name).value = "  Daily Notes\t".to_string();
    assert!(!form.has_unsaved_changes());
    form.input_mut(PromptMetaField::Name).value = "Journal".to_string();
    assert!(form.has_unsaved_changes());
    assert_eq!(form.input(PromptMetaField::Name).value, "Journal");
    form.input_mut(PromptMetaField::Name).value = "Daily Notes".to_string();
    form.content.buffer.push('!');
    assert!(form.has_unsaved_changes());
}

#[test]
fn undone_and_whitespace_edits_leave_nothing_unsaved() {
    let mut form = PromptMetaFormState::new("p".to_string(), "N".to_string());
    form.input_mut(PromptMetaField::Name).value = "  N ".to_string();
    assert!(!form.has_unsaved_changes());
    form.input_mut(PromptMetaField::Name).value = "M".to_string();
    assert!(form.has_unsaved_changes());
    form.input_mut(PromptMetaField::Name).value = "N".to_string();
    form.input_mut(PromptMetaField::Description).value = "   ".to_string();
    assert!(!form.has_unsaved_changes());
    form.content.buffer.push('x');
    assert!(form.has_unsaved_changes());
    form.content.buffer.pop();
    assert!(!form.has_unsaved_changes());
}

#[test]
fn fields_are_listed_in_order() {
    let form = PromptMetaFormState::new(String::new(), String::new());
    assert_eq!(
        form.fields(),
        vec![PromptMetaField::Id, PromptMetaField::Name, PromptMetaField::Description]
    );
}

#[test]
fn prompt_rows_filter_on_lowercased_name_or_id() {
    assert!(prompt_visible("Daily Notes", "notes", None));
    assert!(prompt_visible("Daily Notes", "x", Some("daily")));
    assert!(prompt_visible("Ünïcode", "x", Some("ünï")));
    assert!(prompt_visible("Name", "PROMPT-7", Some("prompt")));
    assert!(!prompt_visible("Name", "id", Some("zzz")));
    assert!(prompt_visible("Name", "id", Some("")));
}

#[test]
fn first_enabled_prompt_is_the_active_one() {
    let mut a = prompt(None);
    let mut b = prompt(None);
    let c = prompt(None);
    assert_eq!(first_active_prompt(&vec![a.clone(), b.clone(), c.clone()]), None);
    b.enabled = true;
    assert_eq!(first_active_prompt(&vec![a.clone(), b.clone(), c.clone()]), Some(1));
    a.enabled = true;
    assert_eq!(first_active_prompt(&vec![a, b, c]), Some(0));
}

#[test]
fn prompt_actions_close_and_select_as_they_should() {
    let save = prompt_action_effects(PromptAction::Save);
    assert_eq!(save.toast, PromptToast::EditFinished);
    assert!(save.close_form && save.close_editor && save.select_result);
    let rename = prompt_action_effects(PromptAction::UpdateMetadata);
    assert!(rename.close_form && !rename.close_editor && rename.select_result);
    let delete = prompt_action_effects(PromptAction::Delete);
    assert_eq!(delete.toast, PromptToast::Deleted);
    assert!(!delete.close_form && !delete.select_result);
    assert!(matches!(
        prompt_save_request(None, "n".into(), "N".into(), None, "c".into()),
        PromptSaveRequest::Create { id, .. } if id == "n"
    ));
    assert!(matches!(
        prompt_save_request(Some("o".into()), "n".into(), "N".into(), None, "c".into()),
        PromptSaveRequest::Update { old_id, new_id, .. } if old_id == "o" && new_id == "n"
    ));
}
