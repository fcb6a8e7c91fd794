//! Turning a command line into what the process launcher needs.

use vstd::prelude::*;
use crate::text::texts;

verus! {

/// A process to start: the program and its arguments.
#[derive(Debug, PartialEq, Eq)]
pub struct Launch {
    pub program: String,
    pub args: Vec<String>,
}

/// The program and arguments named by a command line, if it names any.
pub open spec fn launch_of(cmd: Seq<Seq<char>>) -> Option<(Seq<char>, Seq<Seq<char>>)> {
    if cmd.len() == 0 {
        None
    } else {
        Some((cmd[0], cmd.subrange(1, cmd.len() as int)))
    }
}

/// The command line that searches below `root` for files whose name contains
/// `name`.
pub open spec fn find_cmd_of(root: Seq<char>, name: Seq<char>) -> Seq<Seq<char>> {
    seq!["find"@, root, "-name"@, "*"@ + name + "*"@]
}

/// The command line that searches below `root` for files whose name contains
/// `name`, for the `find` program.
pub fn find(root: &str, name: &str) -> (cmd: Vec<String>)
    ensures
        texts(cmd@) == find_cmd_of(root@, name@),
{
    let mut name_query = "*".to_owned();
    name_query.append(name);
    name_query.append("*");
    let mut cmd: Vec<String> = Vec::new();
    cmd.push("find".to_owned());
    cmd.push(root.to_owned());
    cmd.push("-name".to_owned());
    cmd.push(name_query);
    assert(texts(cmd@) =~= find_cmd_of(root@, name@));
    cmd
}

/// Splits a command line into the program to start and its arguments.
/// An empty command line starts nothing.
pub fn try_run(cmd: &Vec<String>) -> (launch: Option<Launch>)
    ensures
        launch is Some <==> cmd@.len() > 0,
        launch is Some ==> launch_of(texts(cmd@)) == Some(
            (launch->0.program@, texts(launch->0.args@)),
        ),
{
    if cmd.len() == 0 {
        return None;
    }
    let program = cmd[0].clone();
    let mut args: Vec<String> = Vec::new();
    let mut i: usize = 1;
    while i < cmd.len()
        invariant
            1 <= i <= cmd.len(),
            texts(args@) == texts(cmd@).subrange(1, i as int),
        decreases cmd.len() - i,
    {
        let ghost before = args@;
        args.push(cmd[i].clone());
        assert(texts(args@) =~= texts(before) + seq![cmd@[i as int]@]);
        assert(texts(args@) =~= texts(cmd@).subrange(1, i + 1));
        i += 1;
    }
    assert(texts(cmd@).subrange(1, cmd.len() as int) == texts(cmd@).subrange(
        1,
        texts(cmd@).len() as int,
    ));
    Some(Launch { program, args })
}

} // verus!
