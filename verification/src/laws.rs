//! What holds of the operations on a collection, whatever it contains.

use vstd::prelude::*;
use crate::location::resolved;
use crate::todo::{
    added, done_of, fresh, has_name, important_of, lemma_position_is_first, loaded,
    marked_done, marked_important, position, removed, TodoCollection, TodoView,
};

verus! {

/// Two collections with the same names in the same places send every lookup
/// to the same place.
proof fn lemma_position_by_names(a: Seq<TodoView>, b: Seq<TodoView>, name: Seq<char>)
    requires
        a.len() == b.len(),
        forall|i: int| 0 <= i < a.len() ==> (#[trigger] a[i]).name == b[i].name,
    ensures
        position(a, name) == position(b, name),
{
    match position(a, name) {
        Some(i) => {
            lemma_position_is_first(a, name, i);
            assert forall|j: int| 0 <= j < i implies (#[trigger] b[j]).name != name by {
                assert(a[j].name != name);
            }
            lemma_position_is_first(b, name, i);
        },
        None => {
            if has_name(b, name) {
                let i = choose|i: int| 0 <= i < b.len() && (#[trigger] b[i]).name == name;
                assert(a[i].name == name);
            }
        },
    }
}

/// A data file that parsed to a collection loads as that collection, entry
/// for entry and in the same order.
pub proof fn lemma_parsed_loads_unchanged(todos: TodoCollection)
    ensures
        loaded(Some(todos)) == todos@,
{
}

/// Marking a task done twice is the same as marking it once, and marking a
/// task that is already done changes nothing.
pub proof fn lemma_mark_done_idempotent(todos: Seq<TodoView>, name: Seq<char>)
    ensures
        marked_done(marked_done(todos, name), name) == marked_done(todos, name),
        forall|i: int| position(todos, name) == Some(i) && todos[i].done ==> marked_done(todos, name)
            == todos,
{
    let once = marked_done(todos, name);
    match position(todos, name) {
        Some(i) => {
            lemma_position_is_first(todos, name, i);
            lemma_position_by_names(todos, once, name);
        },
        None => {},
    }
}

/// Marking a task important twice is the same as marking it once, and marking
/// a task that is already important changes nothing.
pub proof fn lemma_mark_important_idempotent(todos: Seq<TodoView>, name: Seq<char>)
    ensures
        marked_important(marked_important(todos, name), name) == marked_important(todos, name),
        forall|i: int|
            position(todos, name) == Some(i) && todos[i].important ==> marked_important(todos, name)
                == todos,
{
    let once = marked_important(todos, name);
    match position(todos, name) {
        Some(i) => {
            lemma_position_is_first(todos, name, i);
            lemma_position_by_names(todos, once, name);
        },
        None => {},
    }
}

/// For a name that no entry carries, removing, marking done and marking
/// important all leave the collection exactly as it is.
pub proof fn lemma_absent_name_changes_nothing(todos: Seq<TodoView>, name: Seq<char>)
    requires
        !has_name(todos, name),
    ensures
        removed(todos, name) == todos,
        marked_done(todos, name) == todos,
        marked_important(todos, name) == todos,
{
}

/// Adding appends: the collection grows by one, every earlier entry stays
/// where it was, and the new last entry carries the name and is neither done
/// nor important.
pub proof fn lemma_add_appends(todos: Seq<TodoView>, name: Seq<char>)
    ensures
        added(todos, name).len() == todos.len() + 1,
        added(todos, name).subrange(0, todos.len() as int) == todos,
        added(todos, name).last() == fresh(name),
        added(todos, name).last().name == name,
        !added(todos, name).last().done,
        !added(todos, name).last().important,
{
}

/// A data file that did not parse stands for the empty collection: every
/// operation starts from the same entries as it does on a file that holds an
/// empty collection.
pub proof fn lemma_unparsed_is_empty(empty: TodoCollection)
    requires
        empty@.len() == 0,
    ensures
        loaded(None) == Seq::<TodoView>::empty(),
        loaded(None) == loaded(Some(empty)),
{
}

/// Marking done or important touches one entry at most and never the order,
/// the length or a name.
pub proof fn lemma_marks_keep_shape(todos: Seq<TodoView>, name: Seq<char>)
    ensures
        marked_done(todos, name).len() == todos.len(),
        marked_important(todos, name).len() == todos.len(),
        forall|i: int|
            0 <= i < todos.len() ==> (#[trigger] marked_done(todos, name)[i]) == if position(
                todos,
                name,
            ) == Some(i) {
                done_of(todos[i])
            } else {
                todos[i]
            },
        forall|i: int|
            0 <= i < todos.len() ==> (#[trigger] marked_important(todos, name)[i]) == if position(
                todos,
                name,
            ) == Some(i) {
                important_of(todos[i])
            } else {
                todos[i]
            },
{
    match position(todos, name) {
        Some(i) => {
            lemma_position_is_first(todos, name, i);
        },
        None => {},
    }
}

/// Removing a name that occurs deletes its first entry and no other: the
/// entries before it stay where they were, and those after it move up by one.
pub proof fn lemma_remove_keeps_others(todos: Seq<TodoView>, name: Seq<char>, i: int)
    requires
        position(todos, name) == Some(i),
    ensures
        removed(todos, name).len() == todos.len() - 1,
        forall|j: int| 0 <= j < i ==> (#[trigger] removed(todos, name)[j]) == todos[j],
        forall|j: int|
            i <= j < todos.len() - 1 ==> (#[trigger] removed(todos, name)[j]) == todos[j + 1],
{
    lemma_position_is_first(todos, name, i);
}

/// The pointer file remembers: a resolution without an override returns the
/// path that the last resolution with an override stored.
pub proof fn lemma_pointer_remembers(path: Seq<char>, stored: Seq<char>)
    ensures
        resolved(None, resolved(Some(path), stored)) == path,
{
}

} // verus!
