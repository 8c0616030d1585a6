//! The task record and the ordered collection of records.
//!
//! A collection is a sequence: entries keep the order in which they were added,
//! names need not be unique, and every lookup by name finds the first entry
//! that carries the name.

use vstd::prelude::*;

verus! {

/// One task: a name, which is also the key it is found by, and two flags.
#[derive(Debug, Clone, PartialEq, Eq)]
pub struct Todo {
    pub name: String,
    pub done: bool,
    pub important: bool,
}

/// What a [`Todo`] is, mathematically.
pub ghost struct TodoView {
    pub name: Seq<char>,
    pub done: bool,
    pub important: bool,
}

impl View for Todo {
    type V = TodoView;

    open spec fn view(&self) -> TodoView {
        TodoView { name: self.name@, done: self.done, important: self.important }
    }
}

/// The record that adding `name` creates: neither done nor important.
pub open spec fn fresh(name: Seq<char>) -> TodoView {
    TodoView { name, done: false, important: false }
}

/// `todo` with its done flag set.
pub open spec fn done_of(todo: TodoView) -> TodoView {
    TodoView { name: todo.name, done: true, important: todo.important }
}

/// `todo` with its important flag set.
pub open spec fn important_of(todo: TodoView) -> TodoView {
    TodoView { name: todo.name, done: todo.done, important: true }
}

/// Some entry of `todos` is called `name`.
pub open spec fn has_name(todos: Seq<TodoView>, name: Seq<char>) -> bool {
    exists|i: int| 0 <= i < todos.len() && (#[trigger] todos[i]).name == name
}

/// Entry `i` of `todos` is called `name`, and no entry before it is.
pub open spec fn is_first(todos: Seq<TodoView>, name: Seq<char>, i: int) -> bool {
    &&& 0 <= i < todos.len()
    &&& todos[i].name == name
    &&& forall|j: int| 0 <= j < i ==> (#[trigger] todos[j]).name != name
}

/// Where a lookup of `name` lands: the first entry called `name`, if there is one.
pub open spec fn position(todos: Seq<TodoView>, name: Seq<char>) -> Option<int> {
    if has_name(todos, name) {
        Some(choose|i: int| is_first(todos, name, i))
    } else {
        None
    }
}

/// `todos` after `name` was added.
pub open spec fn added(todos: Seq<TodoView>, name: Seq<char>) -> Seq<TodoView> {
    todos.push(fresh(name))
}

/// `todos` after `name` was removed.
pub open spec fn removed(todos: Seq<TodoView>, name: Seq<char>) -> Seq<TodoView> {
    match position(todos, name) {
        Some(i) => todos.remove(i),
        None => todos,
    }
}

/// `todos` after `name` was marked done.
pub open spec fn marked_done(todos: Seq<TodoView>, name: Seq<char>) -> Seq<TodoView> {
    match position(todos, name) {
        Some(i) => todos.update(i, done_of(todos[i])),
        None => todos,
    }
}

/// `todos` after `name` was marked important.
pub open spec fn marked_important(todos: Seq<TodoView>, name: Seq<char>) -> Seq<TodoView> {
    match position(todos, name) {
        Some(i) => todos.update(i, important_of(todos[i])),
        None => todos,
    }
}

/// A lookup lands on `i` exactly when `i` is the first entry with the name.
pub proof fn lemma_position_is_first(todos: Seq<TodoView>, name: Seq<char>, i: int)
    ensures
        is_first(todos, name, i) <==> position(todos, name) == Some(i),
{
    if position(todos, name) == Some(i) {
        lemma_first_exists(todos, name, todos.len() as int);
    }
}

/// Among the first `n` entries, a name that occurs has a first occurrence.
proof fn lemma_first_exists(todos: Seq<TodoView>, name: Seq<char>, n: int)
    requires
        0 <= n <= todos.len(),
    ensures
        (exists|i: int| 0 <= i < n && (#[trigger] todos[i]).name == name) ==> exists|i: int|
            i < n && is_first(todos, name, i),
    decreases n,
{
    if n > 0 {
        lemma_first_exists(todos, name, n - 1);
        if todos[n - 1].name == name && !exists|i: int|
            0 <= i < n - 1 && (#[trigger] todos[i]).name == name {
            assert(is_first(todos, name, n - 1));
        }
    }
}

/// The ordered collection of tasks that one data file holds.
#[derive(Debug, Clone, PartialEq, Eq)]
pub struct TodoCollection {
    pub todos: Vec<Todo>,
}

impl View for TodoCollection {
    type V = Seq<TodoView>;

    open spec fn view(&self) -> Seq<TodoView> {
        self.todos@.map_values(|todo: Todo| todo@)
    }
}

/// What a data file holds when `parsed` is the outcome of reading it: the
/// collection it parsed to, or nothing where it did not parse.
pub open spec fn loaded(parsed: Option<TodoCollection>) -> Seq<TodoView> {
    match parsed {
        Some(collection) => collection@,
        None => Seq::empty(),
    }
}

impl Todo {
    /// A new task called `name`, neither done nor important.
    pub fn new(name: String) -> (todo: Todo)
        ensures
            todo@ == fresh(name@),
    {
        Todo { name, done: false, important: false }
    }
}

impl TodoCollection {
    /// The collection without entries.
    pub fn new() -> (collection: TodoCollection)
        ensures
            collection@ == Seq::<TodoView>::empty(),
    {
        TodoCollection { todos: Vec::new() }
    }

    /// Turns the outcome of parsing a data file into a collection. A file that
    /// did not parse, an empty one included, counts as an empty collection:
    /// that is no error.
    pub fn load(parsed: Option<TodoCollection>) -> (collection: TodoCollection)
        ensures
            collection@ == loaded(parsed),
    {
        match parsed {
            Some(collection) => collection,
            None => TodoCollection::new(),
        }
    }

    /// The index of the first entry called `name`.
    pub fn position(&self, name: &String) -> (found: Option<usize>)
        ensures
            match found {
                Some(i) => position(self@, name@) == Some(i as int) && is_first(
                    self@,
                    name@,
                    i as int,
                ),
                None => position(self@, name@) is None && !has_name(self@, name@),
            },
    {
        let mut i: usize = 0;
        while i < self.todos.len()
            invariant
                i <= self.todos.len(),
                forall|j: int| 0 <= j < i ==> (#[trigger] self@[j]).name != name@,
            decreases self.todos.len() - i,
        {
            if self.todos[i].name == *name {
                proof {
                    lemma_position_is_first(self@, name@, i as int);
                }
                return Some(i);
            }
            i += 1;
        }
        None
    }

    /// Appends a new task called `name`, neither done nor important.
    pub fn add(&mut self, name: String)
        ensures
            final(self)@ == added(old(self)@, name@),
    {
        self.todos.push(Todo::new(name));
    }

    /// Deletes the first entry called `name`; says whether there was one.
    pub fn remove(&mut self, name: &String) -> (found: bool)
        ensures
            found == has_name(old(self)@, name@),
            final(self)@ == removed(old(self)@, name@),
    {
        match self.position(name) {
            Some(i) => {
                proof {
                    lemma_position_is_first(self@, name@, i as int);
                }
                self.todos.remove(i);
                true
            },
            None => false,
        }
    }

    /// Sets the done flag of the first entry called `name`; says whether there
    /// was one.
    pub fn mark_done(&mut self, name: &String) -> (found: bool)
        ensures
            found == has_name(old(self)@, name@),
            final(self)@ == marked_done(old(self)@, name@),
    {
        match self.position(name) {
            Some(i) => {
                proof {
                    lemma_position_is_first(self@, name@, i as int);
                }
                self.todos[i].done = true;
                true
            },
            None => false,
        }
    }

    /// Sets the important flag of the first entry called `name`; says whether
    /// there was one.
    pub fn mark_important(&mut self, name: &String) -> (found: bool)
        ensures
            found == has_name(old(self)@, name@),
            final(self)@ == marked_important(old(self)@, name@),
    {
        match self.position(name) {
            Some(i) => {
                proof {
                    lemma_position_is_first(self@, name@, i as int);
                }
                self.todos[i].important = true;
                true
            },
            None => false,
        }
    }
}

} // verus!
