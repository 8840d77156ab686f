//! The interactors that run processes: the web browser, the editor and a text browser.
use vstd::prelude::*;

use crate::interact::OpenBrowserError;
use crate::strings::clone_strings;

verus! {

/// Opens the web browser and the editor of the user's environment.
#[derive(Debug, Clone, Copy, PartialEq, Eq)]
pub struct Interactor {}

impl Interactor {
    /// The interactor.
    pub fn new() -> (i: Interactor)
        ensures
            i == (Interactor {}),
    {
        Interactor {}
    }
}

/// Runs a text browser command on URLs.
#[derive(Debug, Clone, PartialEq, Eq)]
pub struct TextBrowserInteractor {
    pub command: String,
    pub args: Vec<String>,
}

/// The words of a command line separated by single spaces.
pub open spec fn spaced(words: Seq<Seq<char>>) -> Seq<char>
    decreases words.len(),
{
    if words.len() == 0 {
        Seq::<char>::empty()
    } else if words.len() == 1 {
        words[0]
    } else {
        spaced(words.drop_last()) + seq![' '] + words.last()
    }
}

/// The command line that opens `url`: the command, its arguments, then the URL.
pub open spec fn command_words(command: Seq<char>, args: Seq<String>, url: Seq<char>) -> Seq<Seq<char>> {
    seq![command] + args.map_values(|a: String| a@) + seq![url]
}

impl TextBrowserInteractor {
    /// A text browser that runs `command` with `args` before the URL.
    pub fn new(command: String, args: Vec<String>) -> (i: TextBrowserInteractor)
        ensures
            i.command == command,
            i.args == args,
    {
        TextBrowserInteractor { command, args }
    }

    /// The arguments to run the command with to open `url`: its arguments, then the URL.
    pub fn arguments(&self, url: &str) -> (v: Vec<String>)
        ensures
            v@.map_values(|a: String| a@) == self.args@.map_values(|a: String| a@).push(url@),
    {
        let mut v = clone_strings(&self.args);
        let ghost before = v@;
        v.push(url.to_owned());
        proof {
            assert(v@ == before.push(v@.last()));
            assert(v@.map_values(|a: String| a@) =~= self.args@.map_values(|a: String| a@).push(url@));
        }
        v
    }

    /// The error of a command that could not be started: a missing command is named.
    pub fn spawn_failure(&self, not_found: bool, message: String) -> (e: OpenBrowserError)
        ensures
            not_found ==> e == (OpenBrowserError::CommandNotFound { command: self.command }),
            !not_found ==> e == OpenBrowserError::Io(message),
    {
        if not_found {
            OpenBrowserError::CommandNotFound { command: self.command.clone() }
        } else {
            OpenBrowserError::Io(message)
        }
    }

    /// The error of a command that ran and failed: it tells the full command line.
    pub fn exit_failure(&self, url: &str) -> (e: OpenBrowserError)
        ensures
            e matches OpenBrowserError::Io(m) && m@ == spaced(command_words(self.command@, self.args@, url@)),
    {
        let ghost words = command_words(self.command@, self.args@, url@);
        let mut line = self.command.clone();
        let mut i: usize = 0;
        proof {
            assert(words.take(1) =~= seq![self.command@]);
        }
        while i < self.args.len()
            invariant
                i <= self.args@.len(),
                words == command_words(self.command@, self.args@, url@),
                line@ == spaced(words.take(i + 1)),
            decreases self.args@.len() - i,
        {
            line.append(" ");
            line.append(self.args[i].as_str());
            proof {
                reveal_strlit(" ");
                assert(words.take(i + 2).drop_last() =~= words.take(i + 1));
                assert(words[i + 1] == self.args@[i as int]@);
            }
            i += 1;
        }
        line.append(" ");
        line.append(url);
        proof {
            reveal_strlit(" ");
            assert(words.take(self.args@.len() + 2 as int) =~= words);
            assert(words.drop_last() =~= words.take(self.args@.len() + 1 as int));
        }
        OpenBrowserError::Io(line)
    }
}

/// Opens the web browser and the editor of the user's environment, and URLs in a
/// text browser.
#[derive(Debug, Clone, PartialEq, Eq)]
pub struct ProcessInteractor {
    pub text_browser: TextBrowserInteractor,
}

impl ProcessInteractor {
    /// The interactor, with the text browser to use.
    pub fn new(text_browser: TextBrowserInteractor) -> (i: ProcessInteractor)
        ensures
            i.text_browser == text_browser,
    {
        ProcessInteractor { text_browser }
    }
}

} // verus!
