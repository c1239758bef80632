//! The debugging tool's view of one activity: which command to run on it and
//! the rows of its status table.

use vstd::prelude::*;

verus! {

/// What to do with an activity.
#[derive(PartialEq, Eq, Structural, Debug, Clone, Copy)]
pub enum ActivityCommands {
    /// Show the activity's state and, while it lives, its running command.
    Monitor,
}

/// The activity to inspect and what to do with it.
pub struct Activity {
    pub activity_id: String,
    pub command: ActivityCommands,
}

/// The command that an activity is running, as its cells are shown.
pub struct RunningCommand {
    pub command: String,
    pub params: String,
    pub progress: String,
}

/// The cells of a row, as the contracts see them.
pub open spec fn row_view(r: Vec<String>) -> Seq<Seq<char>> {
    r@.map_values(|c: String| c@)
}

fn row(a: &str, b: String, c: String, d: String) -> (r: Vec<String>)
    ensures
        row_view(r) == seq![a@, b@, c@, d@],
{
    let mut r: Vec<String> = Vec::new();
    r.push(a.to_owned());
    r.push(b);
    r.push(c);
    r.push(d);
    assert(row_view(r) =~= seq![a@, b@, c@, d@]);
    r
}

/// The status table of an activity: a `State` row with its state, reason and
/// error message, then, only when the activity is alive and so has a running
/// command, a `Command` row with the command, its parameters and progress.
pub fn status_rows(state: String, reason: String, error: String, running: Option<RunningCommand>) -> (r:
    Vec<Vec<String>>)
    ensures
        r@.len() == if running is Some {
            2int
        } else {
            1int
        },
        row_view(r@[0]) == seq!["State"@, state@, reason@, error@],
        running matches Some(c) ==> row_view(r@[1]) == seq![
            "Command"@,
            c.command@,
            c.params@,
            c.progress@,
        ],
{
    let mut rows: Vec<Vec<String>> = Vec::new();
    rows.push(row("State", state, reason, error));
    match running {
        Some(c) => rows.push(row("Command", c.command, c.params, c.progress)),
        None => {},
    }
    rows
}

} // verus!
