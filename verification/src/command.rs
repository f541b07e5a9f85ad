//! The command under supervision: an executable followed by its arguments.

use vstd::prelude::*;
use vstd::string::StringExecFns;

verus! {

/// The words of a command as mathematical sequences of characters.
pub open spec fn words_of(words: Seq<String>) -> Seq<Seq<char>> {
    Seq::new(words.len(), |i: int| words[i]@)
}

/// The line shown when a command is launched: every word, each followed by one space.
pub open spec fn rendered(words: Seq<Seq<char>>) -> Seq<char>
    decreases words.len(),
{
    if words.len() == 0 {
        Seq::empty()
    } else {
        rendered(words.drop_last()) + words.last() + seq![' ']
    }
}

/// A non-empty, immutable sequence of words: the executable, then its arguments.
#[derive(Debug)]
pub struct CommandSpec {
    words: Vec<String>,
}

impl View for CommandSpec {
    type V = Seq<Seq<char>>;

    closed spec fn view(&self) -> Seq<Seq<char>> {
        words_of(self.words@)
    }
}

impl CommandSpec {
    /// A command always names an executable.
    #[verifier::type_invariant]
    spec fn nonempty(&self) -> bool {
        self.words@.len() > 0
    }

    /// Builds a command from `words`; there is none to build from an empty sequence.
    pub fn new(words: Vec<String>) -> (made: Option<CommandSpec>)
        ensures
            words@.len() == 0 <==> made is None,
            made matches Some(c) ==> c@ == words_of(words@),
    {
        if words.len() == 0 {
            None
        } else {
            Some(CommandSpec { words })
        }
    }

    /// The executable: the first word.
    pub fn program(&self) -> (name: &String)
        ensures
            self@.len() > 0,
            name@ == self@[0],
    {
        proof {
            use_type_invariant(self);
        }
        &self.words[0]
    }

    /// The arguments: every word after the first, in order.
    pub fn arguments(&self) -> (rest: Vec<String>)
        ensures
            self@.len() > 0,
            words_of(rest@) == self@.subrange(1, self@.len() as int),
    {
        proof {
            use_type_invariant(self);
        }
        let mut rest: Vec<String> = Vec::new();
        let mut i: usize = 1;
        while i < self.words.len()
            invariant
                1 <= i <= self.words@.len(),
                rest@.len() == i - 1,
                forall|k: int| 0 <= k < rest@.len() ==> rest@[k]@ == self.words@[k + 1]@,
            decreases self.words@.len() - i,
        {
            rest.push(self.words[i].clone());
            i = i + 1;
        }
        assert(words_of(rest@) =~= self@.subrange(1, self@.len() as int));
        rest
    }

    /// All the words, executable first.
    pub fn words(&self) -> (all: &Vec<String>)
        ensures
            words_of(all@) == self@,
    {
        &self.words
    }

    /// The line announcing a launch.
    pub fn command_line(&self) -> (line: String)
        ensures
            line@ == rendered(self@),
    {
        let mut line = String::new();
        let mut i: usize = 0;
        while i < self.words.len()
            invariant
                i <= self.words@.len(),
                line@ == rendered(self@.subrange(0, i as int)),
            decreases self.words@.len() - i,
        {
            proof {
                reveal_strlit(" ");
                let next = self@.subrange(0, i + 1);
                assert(next.drop_last() =~= self@.subrange(0, i as int));
                assert(next.last() == self.words@[i as int]@);
                assert(" "@ =~= seq![' ']);
            }
            line.append(self.words[i].as_str());
            line.append(" ");
            i = i + 1;
        }
        assert(self@.subrange(0, i as int) =~= self@);
        line
    }
}

} // verus!
