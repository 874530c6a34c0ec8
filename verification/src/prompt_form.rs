//! The prompt metadata form: id, name and description inputs plus the
//! prompt content editor, with change tracking against the values the form
//! was opened with.

use vstd::prelude::*;
use crate::text::{trim, trim_str};

verus! {

/// The content a new prompt starts with.
pub const DEFAULT_PROMPT_CONTENT: &'static str = "# Write your prompt here\n";

/// A stored prompt.
#[derive(Debug, Clone)]
pub struct Prompt {
    pub id: String,
    pub name: String,
    pub content: String,
    pub description: Option<String>,
    pub enabled: bool,
}

/// A single-line text input.
#[derive(Debug, Clone)]
pub struct TextInput {
    pub value: String,
}

impl TextInput {
    pub fn new(value: String) -> (t: Self)
        ensures
            t.value@ == value@,
    {
        TextInput { value }
    }
}

/// How the editor's text is treated.
#[derive(Debug, Clone, Copy, PartialEq, Eq, Structural)]
pub enum EditorKind {
    Plain,
}

/// What submitting the editor does.
#[derive(Debug, Clone)]
pub enum EditorSubmit {
    PromptEdit { id: String },
}

/// A multi-line editor.
#[derive(Debug, Clone)]
pub struct EditorState {
    pub title: String,
    pub kind: EditorKind,
    pub submit: EditorSubmit,
    pub buffer: String,
}

impl EditorState {
    pub fn new(title: &str, kind: EditorKind, submit: EditorSubmit, initial: String) -> (e: Self)
        ensures
            e.title@ == title@,
            e.kind == kind,
            e.submit == submit,
            e.buffer@ == initial@,
    {
        EditorState { title: title.to_owned(), kind, submit, buffer: initial }
    }

    /// The editor's text.
    pub fn text(&self) -> (s: String)
        ensures
            s@ == self.buffer@,
    {
        self.buffer.clone()
    }
}

/// Whether the form adds a prompt or edits the prompt with this id.
#[derive(Debug, Clone)]
pub enum FormMode {
    Add,
    Edit { id: String },
}

/// Which part of the form has the focus.
#[derive(Debug, Clone, Copy, PartialEq, Eq, Structural)]
pub enum FormFocus {
    Fields,
    Content,
}

/// The single-line fields of the form.
#[derive(Debug, Clone, Copy, PartialEq, Eq, Structural)]
pub enum PromptMetaField {
    Id,
    Name,
    Description,
}

/// The values compared for unsaved changes.
#[derive(Debug, Clone)]
pub struct FormSnapshot {
    pub id: String,
    pub name: String,
    pub description: String,
    pub content: String,
}

impl FormSnapshot {
    pub fn empty() -> (s: Self)
        ensures
            s.id@.len() == 0 && s.name@.len() == 0 && s.description@.len() == 0
                && s.content@.len() == 0,
    {
        FormSnapshot {
            id: String::new(),
            name: String::new(),
            description: String::new(),
            content: String::new(),
        }
    }
}

/// The prompt metadata form.
#[derive(Debug, Clone)]
pub struct PromptMetaFormState {
    pub mode: FormMode,
    pub focus: FormFocus,
    pub field_idx: usize,
    pub editing: bool,
    pub id: TextInput,
    pub name: TextInput,
    pub description: TextInput,
    pub content: EditorState,
    pub initial_snapshot: FormSnapshot,
}

/// What the form holds, as compared for unsaved changes: trimmed id, name
/// and description, and the editor text.
pub open spec fn snapshot_of(f: PromptMetaFormState) -> (Seq<char>, Seq<char>, Seq<char>, Seq<char>) {
    (trim(f.id.value@), trim(f.name.value@), trim(f.description.value@), f.content.buffer@)
}

/// The snapshot taken when the form was opened.
pub open spec fn initial_of(f: PromptMetaFormState) -> (Seq<char>, Seq<char>, Seq<char>, Seq<char>) {
    (f.initial_snapshot.id@, f.initial_snapshot.name@, f.initial_snapshot.description@, f.initial_snapshot.content@)
}

/// The form's text input for `field`.
pub open spec fn field_input(f: PromptMetaFormState, field: PromptMetaField) -> TextInput {
    match field {
        PromptMetaField::Id => f.id,
        PromptMetaField::Name => f.name,
        PromptMetaField::Description => f.description,
    }
}

/// `f` with the input for `field` replaced by `t`.
pub open spec fn with_field_input(
    f: PromptMetaFormState,
    field: PromptMetaField,
    t: TextInput,
) -> PromptMetaFormState {
    match field {
        PromptMetaField::Id => PromptMetaFormState { id: t, ..f },
        PromptMetaField::Name => PromptMetaFormState { name: t, ..f },
        PromptMetaField::Description => PromptMetaFormState { description: t, ..f },
    }
}

fn trimmed(s: &String) -> (r: String)
    ensures
        r@ == trim(s@),
{
    trim_str(s.as_str()).to_owned()
}

impl PromptMetaFormState {
    /// A form for adding a prompt with the given id and name, an empty
    /// description and the default content.
    pub fn new(id: String, name: String) -> (f: Self)
        ensures
            f.mode is Add,
            f.focus == FormFocus::Fields,
            f.field_idx == 0,
            !f.editing,
            f.id.value@ == id@,
            f.name.value@ == name@,
            f.description.value@ == Seq::<char>::empty(),
            f.content.buffer@ == DEFAULT_PROMPT_CONTENT@,
            f.content.submit == (EditorSubmit::PromptEdit { id }),
            f.content.kind == EditorKind::Plain,
            initial_of(f) == snapshot_of(f),
    {
        let content = EditorState::new(
            "Prompt content",
            EditorKind::Plain,
            EditorSubmit::PromptEdit { id: id.clone() },
            DEFAULT_PROMPT_CONTENT.to_owned(),
        );
        let mut form = PromptMetaFormState {
            mode: FormMode::Add,
            focus: FormFocus::Fields,
            field_idx: 0,
            editing: false,
            id: TextInput::new(id),
            name: TextInput::new(name),
            description: TextInput::new(String::new()),
            content,
            initial_snapshot: FormSnapshot::empty(),
        };
        form.capture_initial_snapshot();
        form
    }

    /// A form for editing `prompt`: its id, name, description (empty when it
    /// has none) and content.
    pub fn from_prompt(prompt: &Prompt) -> (f: Self)
        ensures
            f.mode == (FormMode::Edit { id: prompt.id }),
            f.focus == FormFocus::Fields,
            f.field_idx == 0,
            !f.editing,
            f.id.value@ == prompt.id@,
            f.name.value@ == prompt.name@,
            f.description.value@ == (match prompt.description {
                Some(d) => d@,
                None => Seq::<char>::empty(),
            }),
            f.content.buffer@ == prompt.content@,
            f.content.submit == (EditorSubmit::PromptEdit { id: prompt.id }),
            f.content.kind == EditorKind::Plain,
            initial_of(f) == snapshot_of(f),
    {
        let description = match &prompt.description {
            Some(d) => d.clone(),
            None => String::new(),
        };
        let mut form = PromptMetaFormState {
            mode: FormMode::Edit { id: prompt.id.clone() },
            focus: FormFocus::Fields,
            field_idx: 0,
            editing: false,
            id: TextInput::new(prompt.id.clone()),
            name: TextInput::new(prompt.name.clone()),
            description: TextInput::new(description),
            content: EditorState::new(
                "Prompt content",
                EditorKind::Plain,
                EditorSubmit::PromptEdit { id: prompt.id.clone() },
                prompt.content.clone(),
            ),
            initial_snapshot: FormSnapshot::empty(),
        };
        form.capture_initial_snapshot();
        form
    }

    fn capture_initial_snapshot(&mut self)
        ensures
            initial_of(*final(self)) == snapshot_of(*old(self)),
            *final(self) == (PromptMetaFormState {
                initial_snapshot: final(self).initial_snapshot,
                ..*old(self)
            }),
    {
        self.initial_snapshot = self.snapshot();
    }

    /// The form differs from what it was opened with.
    pub fn has_unsaved_changes(&self) -> (b: bool)
        ensures
            b == (snapshot_of(*self) != initial_of(*self)),
    {
        let now = self.snapshot();
        let same = now.id == self.initial_snapshot.id && now.name == self.initial_snapshot.name
            && now.description == self.initial_snapshot.description && now.content
            == self.initial_snapshot.content;
        !same
    }

    /// The single-line fields, in display order.
    pub fn fields(&self) -> (v: Vec<PromptMetaField>)
        ensures
            v@ == seq![PromptMetaField::Id, PromptMetaField::Name, PromptMetaField::Description],
    {
        let v = vec![PromptMetaField::Id, PromptMetaField::Name, PromptMetaField::Description];
        assert(v@ =~= seq![PromptMetaField::Id, PromptMetaField::Name, PromptMetaField::Description]);
        v
    }

    pub fn input(&self, field: PromptMetaField) -> (t: &TextInput)
        ensures
            *t == field_input(*self, field),
    {
        match field {
            PromptMetaField::Id => &self.id,
            PromptMetaField::Name => &self.name,
            PromptMetaField::Description => &self.description,
        }
    }

    pub fn input_mut(&mut self, field: PromptMetaField) -> (t: &mut TextInput)
        ensures
            *t == field_input(*old(self), field),
            *final(self) == with_field_input(*old(self), field, *final(t)),
    {
        match field {
            PromptMetaField::Id => &mut self.id,
            PromptMetaField::Name => &mut self.name,
            PromptMetaField::Description => &mut self.description,
        }
    }

    /// The trimmed id.
    pub fn id_value(&self) -> (s: String)
        ensures
            s@ == trim(self.id.value@),
    {
        trimmed(&self.id.value)
    }

    /// The trimmed name.
    pub fn name_value(&self) -> (s: String)
        ensures
            s@ == trim(self.name.value@),
    {
        trimmed(&self.name.value)
    }

    /// The trimmed description, or `None` when it is blank.
    pub fn description_value(&self) -> (s: Option<String>)
        ensures
            match s {
                Some(d) => d@ == trim(self.description.value@) && d@.len() > 0,
                None => trim(self.description.value@).len() == 0,
            },
    {
        let value = trim_str(self.description.value.as_str());
        if value.unicode_len() == 0 {
            None
        } else {
            Some(value.to_owned())
        }
    }

    /// The editor's content.
    pub fn content_value(&self) -> (s: String)
        ensures
            s@ == self.content.buffer@,
    {
        self.content.text()
    }

    fn snapshot(&self) -> (s: FormSnapshot)
        ensures
            (s.id@, s.name@, s.description@, s.content@) == snapshot_of(*self),
    {
        FormSnapshot {
            id: self.id_value(),
            name: self.name_value(),
            description: trimmed(&self.description.value),
            content: self.content.text(),
        }
    }
}

/// Opening a form leaves nothing unsaved, and editing a field so that its
/// trimmed value changes leaves changes unsaved.
pub proof fn lemma_unsaved_after_edit(f: PromptMetaFormState, field: PromptMetaField, t: TextInput)
    requires
        initial_of(f) == snapshot_of(f),
        trim(t.value@) != trim(field_input(f, field).value@),
    ensures
        snapshot_of(with_field_input(f, field, t)) != initial_of(with_field_input(f, field, t)),
{
    let g = with_field_input(f, field, t);
    match field {
        PromptMetaField::Id => assert(snapshot_of(g).0 != initial_of(g).0),
        PromptMetaField::Name => assert(snapshot_of(g).1 != initial_of(g).1),
        PromptMetaField::Description => assert(snapshot_of(g).2 != initial_of(g).2),
    }
}


/// The form after the single-line field edits `edits`, in order, each
/// replacing one field's input.
pub open spec fn apply_field_edits(
    f: PromptMetaFormState,
    edits: Seq<(PromptMetaField, TextInput)>,
) -> PromptMetaFormState
    decreases edits.len(),
{
    if edits.len() == 0 {
        f
    } else {
        with_field_input(apply_field_edits(f, edits.drop_last()), edits.last().0, edits.last().1)
    }
}

/// Field edits and a new editor text keep the snapshot taken at opening.
pub proof fn lemma_edits_keep_opening_snapshot(
    f: PromptMetaFormState,
    edits: Seq<(PromptMetaField, TextInput)>,
    content: EditorState,
)
    ensures
        initial_of(apply_field_edits(f, edits)) == initial_of(f),
        initial_of(PromptMetaFormState { content, ..apply_field_edits(f, edits) }) == initial_of(f),
    decreases edits.len(),
{
    if edits.len() > 0 {
        lemma_edits_keep_opening_snapshot(f, edits.drop_last(), content);
    }
}

/// Once a form is opened, whatever is edited, it has unsaved changes
/// exactly when its trimmed id, name and description and its editor text
/// differ from what they were at opening: edits that only add or remove
/// surrounding whitespace, or that are undone, leave nothing unsaved.
pub proof fn lemma_unsaved_since_opening(opened: PromptMetaFormState, now: PromptMetaFormState)
    requires
        initial_of(opened) == snapshot_of(opened),
        initial_of(now) == initial_of(opened),
    ensures
        (snapshot_of(now) != initial_of(now)) == (snapshot_of(now) != snapshot_of(opened)),
{
}

/// The same law over a run of field edits followed by a new editor text.
pub proof fn lemma_unsaved_after_edits(
    opened: PromptMetaFormState,
    edits: Seq<(PromptMetaField, TextInput)>,
    content: EditorState,
)
    requires
        initial_of(opened) == snapshot_of(opened),
    ensures
        ({
            let now = PromptMetaFormState { content, ..apply_field_edits(opened, edits) };
            (snapshot_of(now) != initial_of(now)) == (snapshot_of(now) != snapshot_of(opened))
        }),
{
    lemma_edits_keep_opening_snapshot(opened, edits, content);
    let now = PromptMetaFormState { content, ..apply_field_edits(opened, edits) };
    lemma_unsaved_since_opening(opened, now);
}

} // verus!
