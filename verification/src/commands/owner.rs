//! The owner's commands: shutting down, and the database console.
use vstd::prelude::*;
use crate::text::{join, join_strings, views};

verus! {

/// What `quit` does: the reply, and whether to shut the shards down.
pub struct QuitAction {
    pub reply: String,
    pub shutdown: bool,
}

/// The `quit` command: with the shard manager at hand, say goodbye and shut
/// down; without it, say so.
pub fn quit(has_manager: bool) -> (res: QuitAction)
    ensures
        res.shutdown == has_manager,
        has_manager ==> res.reply@ == "Goodbye!"@,
        !has_manager ==> res.reply@ == "There was a problem getting the shard manager"@,
{
    if has_manager {
        QuitAction { reply: "Goodbye!".to_owned(), shutdown: true }
    } else {
        QuitAction { reply: "There was a problem getting the shard manager".to_owned(), shutdown: false }
    }
}

/// The rows of a query result, each row's column renderings joined by `, `.
pub open spec fn row_lines(rows: Seq<Vec<String>>) -> Seq<Seq<char>> {
    rows.map_values(|r: Vec<String>| join(views(r@), ", "@))
}

/// The answer to `dbq`: one line per row, the rendering of each column
/// separated by `, `.
pub fn dbq_reply(rows: &Vec<Vec<String>>) -> (res: String)
    ensures
        res@ == join(row_lines(rows@), "\n"@),
{
    let mut lines: Vec<String> = Vec::new();
    let n = rows.len();
    for i in 0..n
        invariant
            n == rows@.len(),
            lines@.len() == i,
            forall|j: int| 0 <= j < i ==> #[trigger] lines@[j]@ == join(views(rows@[j]@), ", "@),
    {
        lines.push(join_strings(&rows[i], ", "));
    }
    assert(views(lines@) =~= row_lines(rows@));
    join_strings(&lines, "\n")
}

} // verus!
