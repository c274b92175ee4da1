use crate::role::texts;
use vstd::prelude::*;

verus! {

/// A health-probe command: the program to run and its arguments.
#[derive(Debug, PartialEq, Eq)]
pub struct CommandLine {
    pub program: String,
    pub args: Vec<String>,
}

/// The pieces of a text between the runs of whitespace in it, as the regular
/// expression `\s+` splits it.
pub uninterp spec fn whitespace_split(s: Seq<char>) -> Seq<Seq<char>>;

/// Relies on regex::Regex::split with the pattern `\s+`: the pieces of the
/// text between the matches, in order. There is always at least one piece:
/// with no match the whole text, an empty text included.
#[verifier::external_body]
fn split_whitespace_runs(s: &str) -> (r: Vec<String>)
    ensures
        texts(r@) == whitespace_split(s@),
        r@.len() >= 1,
{
    let re = regex::Regex::new(r"\s+").unwrap();
    re.split(s).map(String::from).collect()
}

impl CommandLine {
    /// The command whose program is the first of `parts` and whose arguments
    /// are the rest, in order; none when `parts` is empty.
    pub fn from_parts(parts: Vec<String>) -> (r: Option<CommandLine>)
        ensures
            parts@.len() == 0 <==> r is None,
            r matches Some(c) ==> c.program == parts@[0] && c.args@ == parts@.skip(1),
    {
        let mut args = parts;
        if args.len() == 0 {
            None
        } else {
            let program = args.remove(0);
            proof {
                assert(args@ =~= parts@.skip(1));
            }
            Some(CommandLine { program, args })
        }
    }

    /// Splits a command line on runs of whitespace: the first piece names the
    /// program, the others are its arguments. There is no quoting, so no
    /// argument can hold whitespace.
    pub fn parse(cmd: &str) -> (c: CommandLine)
        ensures
            c.program@ == whitespace_split(cmd@)[0],
            texts(c.args@) == whitespace_split(cmd@).skip(1),
    {
        let parts = split_whitespace_runs(cmd);
        let ghost pieces = parts@;
        let c = CommandLine::from_parts(parts).unwrap();
        assert(texts(c.args@) =~= texts(pieces).skip(1));
        c
    }
}

} // verus!
