//! Reading the command line: a request for help or for the version, or the
//! command to supervise.

use vstd::prelude::*;
use vstd::string::StringExecFns;
use crate::command::{words_of, CommandSpec};
use crate::termination::Termination;

verus! {

/// Whether the first word asks for the version.
pub open spec fn asks_version(words: Seq<Seq<char>>) -> bool {
    words.len() > 0 && (words[0] == "-v"@ || words[0] == "--version"@)
}

/// Whether the first word asks for help.
pub open spec fn asks_help(words: Seq<Seq<char>>) -> bool {
    words.len() > 0 && (words[0] == "-h"@ || words[0] == "--help"@)
}

/// Whether the words are a command to supervise: there is at least one, and
/// the first is neither of the two requests.
pub open spec fn is_command(words: Seq<Seq<char>>) -> bool {
    words.len() > 0 && !asks_version(words) && !asks_help(words)
}

fn is_word(word: &String, literal: &str) -> (same: bool)
    ensures
        same == (word@ == literal@),
{
    let other = String::from_str(literal);
    *word == other
}

/// Reads the arguments that follow the program's own name. Only the first
/// decides: `-v` or `--version`, `-h` or `--help`, or else the executable of
/// the command, which is then made of all the arguments. No argument at all is
/// a usage error.
pub fn parse(args: Vec<String>) -> (read: Result<CommandSpec, Termination>)
    ensures
        is_command(words_of(args@)) <==> read is Ok,
        read matches Ok(command) ==> command@ == words_of(args@),
        asks_version(words_of(args@)) <==> read == Err::<CommandSpec, _>(Termination::Version),
        asks_help(words_of(args@)) <==> read == Err::<CommandSpec, _>(Termination::Help),
        args@.len() == 0 <==> read == Err::<CommandSpec, _>(Termination::Usage),
{
    proof {
        lemma_requests_differ();
    }
    if args.len() == 0 {
        return Err(Termination::Usage);
    }
    if is_word(&args[0], "-v") || is_word(&args[0], "--version") {
        return Err(Termination::Version);
    }
    if is_word(&args[0], "-h") || is_word(&args[0], "--help") {
        return Err(Termination::Help);
    }
    match CommandSpec::new(args) {
        Some(command) => Ok(command),
        None => Err(Termination::Usage),
    }
}

/// No word asks for both the version and help.
pub proof fn lemma_requests_differ()
    ensures
        forall|words: Seq<Seq<char>>| !(asks_version(words) && asks_help(words)),
{
    reveal_strlit("-v");
    reveal_strlit("--version");
    reveal_strlit("-h");
    reveal_strlit("--help");
    assert forall|words: Seq<Seq<char>>| !(asks_version(words) && asks_help(words)) by {
        if asks_version(words) && asks_help(words) {
            assert(words[0][1] == 'v' || words[0].len() == 9);
            assert(words[0][1] == 'h' || words[0].len() == 6);
        }
    }
}

} // verus!
