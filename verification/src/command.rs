//! External commands described as data: a program and its arguments.

use vstd::prelude::*;

verus! {

/// A program and its argument vector.
#[derive(Debug, Clone)]
pub struct CommandSpec {
    pub program: String,
    pub args: Vec<String>,
}

/// The texts of a vector of strings.
pub open spec fn texts(v: Seq<String>) -> Seq<Seq<char>> {
    v.map_values(|s: String| s@)
}

impl CommandSpec {
    /// The command as a program text and argument texts.
    pub open spec fn spec_parts(self) -> (Seq<char>, Seq<Seq<char>>) {
        (self.program@, texts(self.args@))
    }
}

/// The command that runs `script` through `sh -c`.
pub open spec fn shell_parts(script: Seq<char>) -> (Seq<char>, Seq<Seq<char>>) {
    ("sh"@, seq!["-c"@, script])
}

/// Builds the command that runs `script` through `sh -c`.
pub fn shell(script: String) -> (c: CommandSpec)
    ensures
        c.spec_parts() == shell_parts(script@),
{
    let mut args: Vec<String> = Vec::new();
    args.push("-c".to_owned());
    args.push(script);
    let c = CommandSpec { program: "sh".to_owned(), args };
    assert(texts(c.args@) =~= seq!["-c"@, script@]);
    c
}

} // verus!
