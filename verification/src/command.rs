//! The description of a process to launch.
use vstd::prelude::*;

verus! {

/// A process ready to be launched by the host: the program, its arguments in
/// order, and additions to its environment.
#[derive(Clone, Debug, PartialEq, Eq)]
pub struct Command {
    pub command: String,
    pub args: Vec<String>,
    pub env: Vec<(String, String)>,
}

pub struct CommandView {
    pub command: Seq<char>,
    pub args: Seq<Seq<char>>,
    pub env: Seq<(Seq<char>, Seq<char>)>,
}

/// A list of strings as a list of character sequences.
pub open spec fn texts(v: Seq<String>) -> Seq<Seq<char>> {
    v.map_values(|s: String| s@)
}

impl View for Command {
    type V = CommandView;

    open spec fn view(&self) -> CommandView {
        CommandView {
            command: self.command@,
            args: texts(self.args@),
            env: self.env@.map_values(|kv: (String, String)| (kv.0@, kv.1@)),
        }
    }
}

/// The command that runs `program` on `args` in an unchanged environment.
pub open spec fn plain_command(program: Seq<char>, args: Seq<Seq<char>>) -> CommandView {
    CommandView { command: program, args, env: Seq::empty() }
}

impl Command {
    /// Runs `program` with one argument in an unchanged environment.
    pub fn with_one_arg(program: String, first: &str) -> (r: Command)
        ensures
            r@ == plain_command(program@, seq![first@]),
    {
        let args = vec![String::from_str(first)];
        let env: Vec<(String, String)> = Vec::new();
        let r = Command { command: program, args, env };
        assert(r@.args =~= seq![first@]);
        assert(r@.env =~= Seq::empty());
        r
    }

    /// Runs `program` with two arguments in an unchanged environment.
    pub fn with_two_args(program: String, first: String, second: &str) -> (r: Command)
        ensures
            r@ == plain_command(program@, seq![first@, second@]),
    {
        let args = vec![first, String::from_str(second)];
        let env: Vec<(String, String)> = Vec::new();
        let r = Command { command: program, args, env };
        assert(r@.args =~= seq![first@, second@]);
        assert(r@.env =~= Seq::empty());
        r
    }

    /// Runs `program` with three arguments in an unchanged environment.
    pub fn with_three_args(program: String, first: String, second: &str, third: &str) -> (r: Command)
        ensures
            r@ == plain_command(program@, seq![first@, second@, third@]),
    {
        let args = vec![first, String::from_str(second), String::from_str(third)];
        let env: Vec<(String, String)> = Vec::new();
        let r = Command { command: program, args, env };
        assert(r@.args =~= seq![first@, second@, third@]);
        assert(r@.env =~= Seq::empty());
        r
    }
}

} // verus!
