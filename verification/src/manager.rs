//! The store: each operation is one load, change and save of the data file.
//!
//! A [`TodoManager`] knows the path of the active data file and nothing else.
//! An operation takes the outcome of parsing that file, fresh for every call,
//! and returns what has to be saved, and where.

use vstd::prelude::*;
use crate::command::{Action, ActionView};
use crate::listing::{holds_lines, shown, NO_TODOS};
use crate::location::{
    default_data_file, joined_path, LocationError, PointerFile, DEFAULT_DATA_FILE_NAME,
};
use crate::todo::{
    added, has_name, loaded, marked_done, marked_important, removed, TodoCollection, TodoView,
};

verus! {

/// The store of one task list.
#[derive(Debug, Clone, PartialEq, Eq)]
pub struct TodoManager {
    path: String,
}

/// A full rewrite of a data file: the file at `path` is to hold `todos` and
/// nothing else.
#[derive(Debug, Clone, PartialEq, Eq)]
pub struct Save {
    pub path: String,
    pub todos: TodoCollection,
}

/// What `save` asks for: the path, and the collection to be found there
/// afterwards.
pub open spec fn saves(save: Option<Save>) -> Option<(Seq<char>, Seq<TodoView>)> {
    match save {
        Some(save) => Some((save.path@, save.todos@)),
        None => None,
    }
}

/// A store is the path of its active data file.
impl View for TodoManager {
    type V = Seq<char>;

    closed spec fn view(&self) -> Seq<char> {
        self.path@
    }
}

/// What carrying out `action` on the entries `todos` saves: the new entries,
/// or nothing where the action found no task to work on.
pub open spec fn outcome(todos: Seq<TodoView>, action: ActionView) -> Option<Seq<TodoView>> {
    match action {
        ActionView::Add(name) => Some(added(todos, name)),
        ActionView::Remove(name) => if has_name(todos, name) {
            Some(removed(todos, name))
        } else {
            None
        },
        ActionView::MarkDone(name) => if has_name(todos, name) {
            Some(marked_done(todos, name))
        } else {
            None
        },
        ActionView::MarkImportant(name) => if has_name(todos, name) {
            Some(marked_important(todos, name))
        } else {
            None
        },
    }
}

impl TodoManager {
    /// The path of the active data file.
    pub fn path(&self) -> (path: &String)
        ensures
            path@ == self@,
    {
        &self.path
    }

    /// A store on the data file at `path`, which becomes the content of the
    /// pointer file.
    pub fn with_path(pointer: &mut PointerFile, path: &String) -> (manager: TodoManager)
        ensures
            manager@ == path@,
            final(pointer)@ == path@,
    {
        TodoManager { path: pointer.resolve(Some(path)) }
    }

    /// A store on the default data file, given the outcome of locating that
    /// file. Where the file was located, its path becomes the active one and
    /// the content of the pointer file. Where it was not, the error is handed
    /// on and the pointer file stays as it was.
    pub fn open_default(
        pointer: &mut PointerFile,
        default_file: Result<String, LocationError>,
    ) -> (opened: Result<TodoManager, LocationError>)
        ensures
            match default_file {
                Ok(path) => opened is Ok && opened->Ok_0@ == path@ && final(pointer)@
                    == path@,
                Err(error) => opened == Err::<TodoManager, LocationError>(error) && final(pointer)@
                    == old(pointer)@,
            },
    {
        match default_file {
            Ok(path) => Ok(TodoManager::with_path(pointer, &path)),
            Err(error) => Err(error),
        }
    }

    /// A store on the default data file of the current user. Whether the home
    /// directory is known is not for the library to say: where it is, the
    /// active path is [`DEFAULT_DATA_FILE_NAME`] joined to it and the pointer
    /// file holds that path; where it is not, the call fails with
    /// [`LocationError::HomeNotFound`] and the pointer file stays as it was.
    pub fn new(pointer: &mut PointerFile) -> (opened: Result<TodoManager, LocationError>)
        ensures
            match opened {
                Ok(manager) => final(pointer)@ == manager@ && exists|home: Seq<char>|
                    manager@ == #[trigger] joined_path(home, DEFAULT_DATA_FILE_NAME@),
                Err(error) => error == LocationError::HomeNotFound && final(pointer)@ == old(
                    pointer,
                )@,
            },
    {
        TodoManager::open_default(pointer, default_data_file())
    }

    /// Makes `path` the active data file and the content of the pointer file.
    pub fn set_path(&mut self, pointer: &mut PointerFile, path: &String)
        ensures
            final(self)@ == path@,
            final(pointer)@ == path@,
    {
        self.path = pointer.resolve(Some(path));
    }

    /// Moves the store to the data file at `new_dir`, which becomes the content
    /// of the pointer file. Nothing is carried over from the old data file.
    pub fn change_dir(&mut self, pointer: &mut PointerFile, new_dir: String)
        ensures
            final(self)@ == new_dir@,
            final(pointer)@ == new_dir@,
    {
        pointer.resolve(Some(&new_dir));
        self.path = new_dir;
    }

    /// Appends a task called `todo`, neither done nor important, to what the
    /// data file holds. The result is always to be saved, at the active path.
    pub fn add_todo(&mut self, parsed: Option<TodoCollection>, todo: String) -> (save: Save)
        ensures
            *final(self) == *old(self),
            save.path@ == old(self)@,
            save.todos@ == added(loaded(parsed), todo@),
    {
        let mut todos = TodoCollection::load(parsed);
        todos.add(todo);
        Save { path: self.path.clone(), todos }
    }

    /// Deletes the first task called `todo`. Where there is none, nothing is
    /// to be saved and the data file stays as it is.
    pub fn remove_todo(&mut self, parsed: Option<TodoCollection>, todo: String) -> (save: Option<
        Save,
    >)
        ensures
            *final(self) == *old(self),
            saves(save) == if has_name(loaded(parsed), todo@) {
                Some((old(self)@, removed(loaded(parsed), todo@)))
            } else {
                None
            },
    {
        let mut todos = TodoCollection::load(parsed);
        if todos.remove(&todo) {
            Some(Save { path: self.path.clone(), todos })
        } else {
            None
        }
    }

    /// Sets the done flag of the first task called `todo`. Where there is
    /// none, nothing is to be saved and the data file stays as it is.
    pub fn mark_done_todo(&mut self, parsed: Option<TodoCollection>, todo: String) -> (save:
        Option<Save>)
        ensures
            *final(self) == *old(self),
            saves(save) == if has_name(loaded(parsed), todo@) {
                Some((old(self)@, marked_done(loaded(parsed), todo@)))
            } else {
                None
            },
    {
        let mut todos = TodoCollection::load(parsed);
        if todos.mark_done(&todo) {
            Some(Save { path: self.path.clone(), todos })
        } else {
            None
        }
    }

    /// Sets the important flag of the first task called `todo`. Where there is
    /// none, nothing is to be saved and the data file stays as it is.
    pub fn mark_important_todo(&mut self, parsed: Option<TodoCollection>, todo: String) -> (save:
        Option<Save>)
        ensures
            *final(self) == *old(self),
            saves(save) == if has_name(loaded(parsed), todo@) {
                Some((old(self)@, marked_important(loaded(parsed), todo@)))
            } else {
                None
            },
    {
        let mut todos = TodoCollection::load(parsed);
        if todos.mark_important(&todo) {
            Some(Save { path: self.path.clone(), todos })
        } else {
            None
        }
    }

    /// The lines to show for the data file: one for each task in stored order,
    /// or the single notice [`NO_TODOS`] where the file did not parse.
    pub fn list_todos(&mut self, parsed: Option<TodoCollection>) -> (lines: Vec<String>)
        ensures
            *final(self) == *old(self),
            holds_lines(lines@, shown(parsed)),
    {
        match parsed {
            Some(todos) => todos.lines(),
            None => {
                let mut lines: Vec<String> = Vec::new();
                lines.push(String::from_str(NO_TODOS));
                lines
            },
        }
    }

    /// Carries out `action` on the data file whose parse gave `parsed`, and
    /// returns what is to be saved.
    pub fn run(&mut self, parsed: Option<TodoCollection>, action: Action) -> (save: Option<Save>)
        ensures
            *final(self) == *old(self),
            saves(save) == match outcome(loaded(parsed), action@) {
                Some(todos) => Some((old(self)@, todos)),
                None => None,
            },
    {
        match action {
            Action::Add(name) => Some(self.add_todo(parsed, name)),
            Action::Remove(name) => self.remove_todo(parsed, name),
            Action::MarkDone(name) => self.mark_done_todo(parsed, name),
            Action::MarkImportant(name) => self.mark_important_todo(parsed, name),
        }
    }
}

} // verus!
