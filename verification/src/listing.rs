//! The text of a listing: one line for each task, in stored order.

use vstd::prelude::*;
use crate::todo::{Todo, TodoCollection, TodoView};

verus! {

/// The line shown in place of a listing when the data file did not parse.
pub const NO_TODOS: &'static str = "no todos found";

/// The debug form of a string, as `std::fmt::Debug` for `str` writes it: the
/// text between double quotes, with the characters that need it escaped.
pub uninterp spec fn debug_text(text: Seq<char>) -> Seq<char>;

/// Formats `text` with `{:?}`, the `std::fmt::Debug` impl of `str`. The result
/// depends on `text` alone; the contract names it and says nothing else of it.
#[verifier::external_body]
fn debug_quoted(text: &String) -> (quoted: String)
    ensures
        quoted@ == debug_text(text@),
{
    format!("{:?}", text)
}

/// How a flag is shown.
pub open spec fn flag_text(flag: bool) -> Seq<char> {
    if flag {
        "true"@
    } else {
        "false"@
    }
}

/// The line for a task whose name, already quoted, is `quoted_name`.
pub open spec fn line_text(quoted_name: Seq<char>, done: bool, important: bool) -> Seq<char> {
    "name: "@ + quoted_name + " is_done: "@ + flag_text(done) + " is_important: "@ + flag_text(
        important,
    )
}

/// The line for `todo`.
pub open spec fn todo_line(todo: TodoView) -> Seq<char> {
    line_text(debug_text(todo.name), todo.done, todo.important)
}

/// The lines of a listing of `todos`.
pub open spec fn listing(todos: Seq<TodoView>) -> Seq<Seq<char>> {
    todos.map_values(|todo: TodoView| todo_line(todo))
}

/// The lines shown for a data file whose parse gave `parsed`: the listing of
/// what it holds, or the single notice where it did not parse.
pub open spec fn shown(parsed: Option<TodoCollection>) -> Seq<Seq<char>> {
    match parsed {
        Some(collection) => listing(collection@),
        None => seq![NO_TODOS@],
    }
}

/// The vector `lines` holds the texts `texts`, line for line.
pub open spec fn holds_lines(lines: Seq<String>, texts: Seq<Seq<char>>) -> bool {
    &&& lines.len() == texts.len()
    &&& forall|i: int| 0 <= i < lines.len() ==> (#[trigger] lines[i])@ == texts[i]
}

fn flag_str(flag: bool) -> (text: &'static str)
    ensures
        text@ == flag_text(flag),
{
    if flag {
        "true"
    } else {
        "false"
    }
}

/// Builds the line of a task from its quoted name and its two flags.
pub fn render_line(quoted_name: &String, done: bool, important: bool) -> (line: String)
    ensures
        line@ == line_text(quoted_name@, done, important),
{
    let mut line = String::from_str("name: ");
    line.append(quoted_name.as_str());
    line.append(" is_done: ");
    line.append(flag_str(done));
    line.append(" is_important: ");
    line.append(flag_str(important));
    line
}

impl Todo {
    /// The line of a listing that shows the entry.
    pub fn line(&self) -> (line: String)
        ensures
            line@ == todo_line(self@),
    {
        let quoted = debug_quoted(&self.name);
        render_line(&quoted, self.done, self.important)
    }
}

impl TodoCollection {
    /// The lines of a listing, one for each task, in stored order.
    pub fn lines(&self) -> (lines: Vec<String>)
        ensures
            holds_lines(lines@, listing(self@)),
    {
        let mut lines: Vec<String> = Vec::new();
        let mut i: usize = 0;
        while i < self.todos.len()
            invariant
                i <= self.todos.len(),
                lines@.len() == i,
                forall|j: int| 0 <= j < i ==> (#[trigger] lines@[j])@ == todo_line(self@[j]),
            decreases self.todos.len() - i,
        {
            lines.push(self.todos[i].line());
            i += 1;
        }
        lines
    }
}

} // verus!
