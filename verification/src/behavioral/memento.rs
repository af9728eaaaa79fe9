//! Memento: saving an editor's state and restoring it later, with a
//! history that hands snapshots back in reverse order of saving.

use vstd::prelude::*;

verus! {

/// A snapshot of the editor's content.
pub struct EditorState {
    content: String,
}

impl EditorState {
    /// The captured content, for contracts.
    pub closed spec fn spec_content(self) -> Seq<char> {
        self.content@
    }

    pub fn new(content: String) -> (state: EditorState)
        ensures
            state.spec_content() == content@,
    {
        EditorState { content }
    }

    pub fn get_content(&self) -> (r: &str)
        ensures
            r@ == self.spec_content(),
    {
        self.content.as_str()
    }
}

/// The originator: a text editor with appendable content.
pub struct TextEditor {
    content: String,
}

impl TextEditor {
    /// The current content, for contracts.
    pub closed spec fn spec_content(self) -> Seq<char> {
        self.content@
    }

    /// An editor with empty content.
    pub fn new() -> (editor: TextEditor)
        ensures
            editor.spec_content() == Seq::<char>::empty(),
    {
        TextEditor { content: String::new() }
    }

    /// Appends `text` to the content.
    pub fn write(&mut self, text: &str)
        ensures
            final(self).spec_content() == old(self).spec_content() + text@,
    {
        self.content.append(text);
    }

    pub fn get_content(&self) -> (r: &str)
        ensures
            r@ == self.spec_content(),
    {
        self.content.as_str()
    }

    /// Captures the current content in a snapshot.
    pub fn save(&self) -> (state: EditorState)
        ensures
            state.spec_content() == self.spec_content(),
    {
        EditorState::new(self.content.clone())
    }

    /// Replaces the content with a snapshot's.
    pub fn restore(&mut self, state: EditorState)
        ensures
            final(self).spec_content() == state.spec_content(),
    {
        self.content = state.content;
    }
}

/// The caretaker: a stack of snapshots.
pub struct History {
    states: Vec<EditorState>,
}

impl History {
    /// The stack of captured contents, oldest first, for contracts.
    pub closed spec fn spec_states(self) -> Seq<EditorState> {
        self.states@
    }

    pub fn new() -> (history: History)
        ensures
            history.spec_states() == Seq::<EditorState>::empty(),
    {
        History { states: Vec::new() }
    }

    /// Pushes a snapshot on top.
    pub fn push(&mut self, state: EditorState)
        ensures
            final(self).spec_states() == old(self).spec_states().push(state),
    {
        self.states.push(state);
    }

    /// Pops the most recent snapshot, if any.
    pub fn pop(&mut self) -> (r: Option<EditorState>)
        ensures
            old(self).spec_states().len() == 0 ==> r is None && final(self).spec_states() == old(
                self,
            ).spec_states(),
            old(self).spec_states().len() > 0 ==> r == Some(old(self).spec_states().last())
                && final(self).spec_states() == old(self).spec_states().drop_last(),
    {
        self.states.pop()
    }
}

} // verus!
