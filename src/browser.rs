//! The state of the interactive list: which project is selected, how keys
//! move the selection, and what the two panels show.
use vstd::prelude::*;
use crate::project::Project;

verus! {

/// Title of the list panel.
pub const LIST_TITLE: &'static str = "Projects\\Esc to quit";

/// Title of the details panel.
pub const DETAILS_TITLE: &'static str = "Details";

/// Marker in front of the selected entry of the list.
pub const SELECTION_MARKER: &'static str = "> ";

/// A key press, as far as the browser tells keys apart.
#[derive(Clone, Copy, Debug, PartialEq, Eq, Structural)]
pub enum Key {
    Esc,
    Char(char),
    Up,
    Down,
    Other,
}

/// What the input loop does after a key.
#[derive(Clone, Copy, Debug, PartialEq, Eq, Structural)]
pub enum Action {
    Continue,
    Quit,
}

/// Whether `key` ends the session: escape or the letter `q`.
pub open spec fn quits(key: Key) -> bool {
    key == Key::Esc || key == Key::Char('q')
}

/// The selected index after `key`, in a list of `len` projects.
pub open spec fn next_selected(len: nat, i: nat, key: Key) -> nat {
    match key {
        Key::Down => if i + 1 < len { (i + 1) as nat } else { i },
        Key::Up => if i > 0 { (i - 1) as nat } else { i },
        _ => i,
    }
}

/// The selected index after `n` presses of `key`.
pub open spec fn after_presses(len: nat, i: nat, key: Key, n: nat) -> nat
    decreases n,
{
    if n == 0 {
        i
    } else {
        after_presses(len, next_selected(len, i, key), key, (n - 1) as nat)
    }
}

/// Whatever key is pressed, a selection inside a list of `len` projects
/// stays inside it.
pub proof fn lemma_selection_stays_in_list(len: nat, i: nat, key: Key)
    requires
        i < len,
    ensures
        next_selected(len, i, key) < len,
{
}

/// Any number of Down presses on the last project leaves it selected.
pub proof fn lemma_down_at_last_stays(len: nat, n: nat)
    requires
        len > 0,
    ensures
        after_presses(len, (len - 1) as nat, Key::Down, n) == len - 1,
    decreases n,
{
    if n > 0 {
        lemma_down_at_last_stays(len, (n - 1) as nat);
    }
}

/// Any number of Up presses on the first project leaves it selected.
pub proof fn lemma_up_at_first_stays(len: nat, n: nat)
    ensures
        after_presses(len, 0, Key::Up, n) == 0,
    decreases n,
{
    if n > 0 {
        lemma_up_at_first_stays(len, (n - 1) as nat);
    }
}

/// With no project, no key moves the selection.
pub proof fn lemma_empty_list_keeps_selection(key: Key)
    ensures
        next_selected(0, 0, key) == 0,
{
}

/// Escape and `q` end the session whatever is selected, and leave the
/// selection as it was.
pub proof fn lemma_quit_keys_quit(len: nat, i: nat)
    ensures
        quits(Key::Esc),
        quits(Key::Char('q')),
        next_selected(len, i, Key::Esc) == i,
        next_selected(len, i, Key::Char('q')) == i,
{
}

/// The text of the details panel for a project.
pub open spec fn details_of(p: (Seq<char>, Seq<char>, Seq<char>)) -> Seq<char> {
    "Name: "@ + p.0 + "\nDescription: "@ + p.1 + "\nWeb URL: "@ + p.2
}

/// The projects and the selection of the browser.
pub struct BrowserState {
    pub projects: Vec<Project>,
    pub selected_index: usize,
}

impl BrowserState {
    /// The selection lies in the list; with no project it rests at zero.
    pub open spec fn wf(&self) -> bool {
        if self.projects@.len() > 0 {
            self.selected_index < self.projects@.len()
        } else {
            self.selected_index == 0
        }
    }

    /// A browser over `projects`, with the first one selected.
    pub fn new(projects: Vec<Project>) -> (r: BrowserState)
        ensures
            r.wf(),
            r.projects@ == projects@,
            r.selected_index == 0,
    {
        BrowserState { projects, selected_index: 0 }
    }

    /// The selected index, none when the list is empty.
    pub fn selection(&self) -> (r: Option<usize>)
        requires
            self.wf(),
        ensures
            self.projects@.len() == 0 ==> r is None,
            self.projects@.len() > 0 ==> r == Some(self.selected_index),
    {
        if self.projects.len() == 0 {
            None
        } else {
            Some(self.selected_index)
        }
    }

    /// The selected project, none when the list is empty.
    pub fn selected_project(&self) -> (r: Option<&Project>)
        requires
            self.wf(),
        ensures
            self.projects@.len() == 0 ==> r is None,
            self.projects@.len() > 0 ==> r is Some && r->0 == self.projects@[self.selected_index as int],
    {
        if self.selected_index < self.projects.len() {
            Some(&self.projects[self.selected_index])
        } else {
            None
        }
    }

    /// Applies one key press: escape and `q` end the session, the arrows move
    /// the selection without leaving the list, every other key is ignored.
    pub fn handle_key(&mut self, key: Key) -> (r: Action)
        requires
            old(self).wf(),
        ensures
            final(self).wf(),
            final(self).projects@ == old(self).projects@,
            final(self).selected_index as nat == next_selected(
                old(self).projects@.len(),
                old(self).selected_index as nat,
                key,
            ),
            r == (if quits(key) { Action::Quit } else { Action::Continue }),
    {
        match key {
            Key::Esc => Action::Quit,
            Key::Char(c) => {
                if c == 'q' {
                    Action::Quit
                } else {
                    Action::Continue
                }
            },
            Key::Down => {
                if self.selected_index < self.projects.len() && self.projects.len() - self.selected_index > 1 {
                    self.selected_index = self.selected_index + 1;
                }
                Action::Continue
            },
            Key::Up => {
                if self.selected_index > 0 {
                    self.selected_index = self.selected_index - 1;
                }
                Action::Continue
            },
            Key::Other => Action::Continue,
        }
    }

    /// The names shown in the list panel, in order.
    pub fn project_names(&self) -> (r: Vec<String>)
        ensures
            r@.len() == self.projects@.len(),
            forall|i: int| 0 <= i < r@.len() ==> #[trigger] r@[i]@ == self.projects@[i].name@,
    {
        let mut names: Vec<String> = Vec::new();
        let mut i: usize = 0;
        while i < self.projects.len()
            invariant
                i <= self.projects@.len(),
                names@.len() == i,
                forall|k: int| 0 <= k < i ==> #[trigger] names@[k]@ == self.projects@[k].name@,
            decreases self.projects@.len() - i,
        {
            names.push(self.projects[i].name.clone());
            i = i + 1;
        }
        names
    }

    /// The text of the details panel: the three fields of the selected
    /// project on labelled lines, none when the list is empty.
    pub fn details_text(&self) -> (r: Option<String>)
        requires
            self.wf(),
        ensures
            self.projects@.len() == 0 ==> r is None,
            self.projects@.len() > 0 ==> r is Some && r->0@ == details_of(
                self.projects@[self.selected_index as int]@,
            ),
    {
        match self.selected_project() {
            Some(p) => {
                let mut text = "Name: ".to_owned();
                text.append(p.name.as_str());
                text.append("\nDescription: ");
                text.append(p.description.as_str());
                text.append("\nWeb URL: ");
                text.append(p.web_url.as_str());
                Some(text)
            },
            None => None,
        }
    }
}

} // verus!
