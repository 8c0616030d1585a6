//! Which action one invocation asks for.
//!
//! An invocation may name a task to add, to remove, to mark done or to mark
//! important. At most one of the four is carried out: with two or more given,
//! none is.

use vstd::prelude::*;

verus! {

/// The view of an optional string.
pub open spec fn text_of(text: Option<String>) -> Option<Seq<char>> {
    match text {
        Some(text) => Some(text@),
        None => None,
    }
}

/// A change to the task list, with the name of the task it is about.
#[derive(Debug, Clone, PartialEq, Eq)]
pub enum Action {
    Add(String),
    Remove(String),
    MarkDone(String),
    MarkImportant(String),
}

/// What an [`Action`] is, mathematically.
pub ghost enum ActionView {
    Add(Seq<char>),
    Remove(Seq<char>),
    MarkDone(Seq<char>),
    MarkImportant(Seq<char>),
}

impl View for Action {
    type V = ActionView;

    open spec fn view(&self) -> ActionView {
        match self {
            Action::Add(name) => ActionView::Add(name@),
            Action::Remove(name) => ActionView::Remove(name@),
            Action::MarkDone(name) => ActionView::MarkDone(name@),
            Action::MarkImportant(name) => ActionView::MarkImportant(name@),
        }
    }
}

/// What one invocation comes to.
#[derive(Debug, Clone, PartialEq, Eq)]
pub enum Selection {
    /// Exactly one action was given.
    Run(Action),
    /// No action was given, and a listing was asked for.
    ListOnly,
    /// Nothing was asked for.
    Help,
    /// Two or more actions were given: none is carried out.
    Conflict,
}

/// What a [`Selection`] is, mathematically.
pub ghost enum SelectionView {
    Run(ActionView),
    ListOnly,
    Help,
    Conflict,
}

impl View for Selection {
    type V = SelectionView;

    open spec fn view(&self) -> SelectionView {
        match self {
            Selection::Run(action) => SelectionView::Run(action@),
            Selection::ListOnly => SelectionView::ListOnly,
            Selection::Help => SelectionView::Help,
            Selection::Conflict => SelectionView::Conflict,
        }
    }
}

/// The selection that the five arguments of an invocation come to.
pub open spec fn selected(
    add: Option<Seq<char>>,
    remove: Option<Seq<char>>,
    mark_done: Option<Seq<char>>,
    mark_important: Option<Seq<char>>,
    list: bool,
) -> SelectionView {
    match (add, remove, mark_done, mark_important) {
        (Some(name), None, None, None) => SelectionView::Run(ActionView::Add(name)),
        (None, Some(name), None, None) => SelectionView::Run(ActionView::Remove(name)),
        (None, None, Some(name), None) => SelectionView::Run(ActionView::MarkDone(name)),
        (None, None, None, Some(name)) => SelectionView::Run(ActionView::MarkImportant(name)),
        (None, None, None, None) => if list {
            SelectionView::ListOnly
        } else {
            SelectionView::Help
        },
        _ => SelectionView::Conflict,
    }
}

/// The line that announces a selection, where it has one.
pub open spec fn announced(selection: SelectionView) -> Option<Seq<char>> {
    match selection {
        SelectionView::Run(ActionView::Add(name)) => Some("Adding: "@ + name),
        SelectionView::Run(ActionView::Remove(name)) => Some("Removing: "@ + name),
        SelectionView::Run(ActionView::MarkDone(name)) => Some("Marking as done: "@ + name),
        SelectionView::Run(ActionView::MarkImportant(name)) => Some(
            "Marking as important: "@ + name,
        ),
        SelectionView::ListOnly => Some("Listing all items..."@),
        SelectionView::Help => None,
        SelectionView::Conflict => Some("Please provide only one action at a time"@),
    }
}

fn announce(prefix: &str, name: &String) -> (line: String)
    ensures
        line@ == prefix@ + name@,
{
    let mut line = String::from_str(prefix);
    line.append(name.as_str());
    line
}

impl Selection {
    /// Decides what an invocation comes to, from the task named for each of
    /// the four actions and the listing flag.
    pub fn select(
        add: Option<String>,
        remove: Option<String>,
        mark_done: Option<String>,
        mark_important: Option<String>,
        list: bool,
    ) -> (selection: Selection)
        ensures
            selection@ == selected(
                text_of(add),
                text_of(remove),
                text_of(mark_done),
                text_of(mark_important),
                list,
            ),
    {
        match (add, remove, mark_done, mark_important) {
            (Some(name), None, None, None) => Selection::Run(Action::Add(name)),
            (None, Some(name), None, None) => Selection::Run(Action::Remove(name)),
            (None, None, Some(name), None) => Selection::Run(Action::MarkDone(name)),
            (None, None, None, Some(name)) => Selection::Run(Action::MarkImportant(name)),
            (None, None, None, None) => if list {
                Selection::ListOnly
            } else {
                Selection::Help
            },
            _ => Selection::Conflict,
        }
    }

    /// The line that announces the selection; none where help is due.
    pub fn announcement(&self) -> (line: Option<String>)
        ensures
            text_of(line) == announced(self@),
    {
        match self {
            Selection::Run(Action::Add(name)) => Some(announce("Adding: ", name)),
            Selection::Run(Action::Remove(name)) => Some(announce("Removing: ", name)),
            Selection::Run(Action::MarkDone(name)) => Some(announce("Marking as done: ", name)),
            Selection::Run(Action::MarkImportant(name)) => Some(
                announce("Marking as important: ", name),
            ),
            Selection::ListOnly => Some(String::from_str("Listing all items...")),
            Selection::Help => None,
            Selection::Conflict => Some(
                String::from_str("Please provide only one action at a time"),
            ),
        }
    }
}

} // verus!
