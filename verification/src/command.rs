//! Classification of a tokenized input line: the first token either names a
//! built-in or an external program, and the remaining tokens are its
//! arguments.

use crate::text::same_text;
use vstd::prelude::*;

verus! {

/// The commands that the interpreter carries out itself.
#[derive(Clone, Copy, Debug, PartialEq, Eq, Structural)]
pub enum BuiltinCommand {
    Exit,
    Echo,
    Type,
    Pwd,
    Cd,
}

impl BuiltinCommand {
    /// The word that invokes this built-in.
    pub open spec fn word(self) -> Seq<char> {
        match self {
            BuiltinCommand::Exit => "exit"@,
            BuiltinCommand::Echo => "echo"@,
            BuiltinCommand::Type => "type"@,
            BuiltinCommand::Pwd => "pwd"@,
            BuiltinCommand::Cd => "cd"@,
        }
    }

    /// The built-in that `s` names, by exact, case-sensitive match.
    pub open spec fn named(s: Seq<char>) -> Option<BuiltinCommand> {
        if s == "exit"@ {
            Some(BuiltinCommand::Exit)
        } else if s == "echo"@ {
            Some(BuiltinCommand::Echo)
        } else if s == "type"@ {
            Some(BuiltinCommand::Type)
        } else if s == "pwd"@ {
            Some(BuiltinCommand::Pwd)
        } else if s == "cd"@ {
            Some(BuiltinCommand::Cd)
        } else {
            None
        }
    }

    /// Looks a word up among the built-in names.
    pub fn from_str(s: &str) -> (found: Option<BuiltinCommand>)
        ensures
            found == Self::named(s@),
    {
        if same_text(s, "exit") {
            Some(BuiltinCommand::Exit)
        } else if same_text(s, "echo") {
            Some(BuiltinCommand::Echo)
        } else if same_text(s, "type") {
            Some(BuiltinCommand::Type)
        } else if same_text(s, "pwd") {
            Some(BuiltinCommand::Pwd)
        } else if same_text(s, "cd") {
            Some(BuiltinCommand::Cd)
        } else {
            None
        }
    }

    /// The word that invokes this built-in.
    pub fn name(self) -> (word: &'static str)
        ensures
            word@ == self.word(),
    {
        match self {
            BuiltinCommand::Exit => "exit",
            BuiltinCommand::Echo => "echo",
            BuiltinCommand::Type => "type",
            BuiltinCommand::Pwd => "pwd",
            BuiltinCommand::Cd => "cd",
        }
    }

    /// Every built-in is found under its own word, and a word names at most
    /// the built-in whose word it is.
    pub proof fn lemma_named_word(self)
        ensures
            Self::named(self.word()) == Some(self),
            forall|s: Seq<char>| Self::named(s) == Some(self) <==> s == self.word(),
    {
        reveal_strlit("exit");
        reveal_strlit("echo");
        reveal_strlit("type");
        reveal_strlit("pwd");
        reveal_strlit("cd");
        assert("echo"@[1] == 'c');
        assert("type"@[1] == 'y');
        assert("pwd"@.len() == 3);
        assert("cd"@.len() == 2);
    }
}

/// One input line after classification.
#[derive(Debug, PartialEq, Eq)]
pub enum Command {
    /// A built-in and its arguments.
    Builtin(BuiltinCommand, Vec<String>),
    /// A program to look up and run, and its arguments.
    External(String, Vec<String>),
}

/// What a `Command` holds, as plain text.
pub enum CommandView {
    Builtin(BuiltinCommand, Seq<Seq<char>>),
    External(Seq<char>, Seq<Seq<char>>),
}

impl View for Command {
    type V = CommandView;

    open spec fn view(&self) -> CommandView {
        match self {
            Command::Builtin(kind, args) => CommandView::Builtin(*kind, args.deep_view()),
            Command::External(name, args) => CommandView::External(name@, args.deep_view()),
        }
    }
}

/// The command that a non-empty token list stands for: a built-in where the
/// first token names one, an external program of that name otherwise; either
/// way the other tokens are the arguments.
pub open spec fn classify(tokens: Seq<Seq<char>>) -> CommandView
    recommends
        tokens.len() > 0,
{
    match BuiltinCommand::named(tokens[0]) {
        Some(kind) => CommandView::Builtin(kind, tokens.skip(1)),
        None => CommandView::External(tokens[0], tokens.skip(1)),
    }
}

/// A line that begins with a built-in's word is that built-in, whatever
/// follows the word: nothing outside the token list can make it external.
pub proof fn lemma_builtin_word_is_builtin(kind: BuiltinCommand, tokens: Seq<Seq<char>>)
    requires
        tokens.len() > 0,
        tokens[0] == kind.word(),
    ensures
        classify(tokens) == CommandView::Builtin(kind, tokens.skip(1)),
{
    kind.lemma_named_word();
}

/// Owned copies of the tokens from `from` on.
fn owned_from(tokens: &[&str], from: usize) -> (owned: Vec<String>)
    requires
        from <= tokens@.len(),
    ensures
        owned.deep_view() == tokens.deep_view().skip(from as int),
{
    let mut owned: Vec<String> = Vec::new();
    let n = tokens.len();
    let mut i: usize = from;
    while i < n
        invariant
            from <= i <= n,
            n == tokens@.len(),
            owned.deep_view() == tokens.deep_view().subrange(from as int, i as int),
        decreases n - i,
    {
        let ghost before = owned.deep_view();
        owned.push(tokens[i].to_owned());
        proof {
            assert(tokens.deep_view().subrange(from as int, i + 1) =~= before.push(
                tokens[i as int]@,
            ));
        }
        i = i + 1;
    }
    owned
}

impl Command {
    /// Classifies a token list.
    pub fn from_args(args: &[&str]) -> (command: Command)
        requires
            args@.len() > 0,
        ensures
            command@ == classify(args.deep_view()),
    {
        let rest = owned_from(args, 1);
        match BuiltinCommand::from_str(args[0]) {
            Some(kind) => Command::Builtin(kind, rest),
            None => Command::External(args[0].to_owned(), rest),
        }
    }
}

} // verus!
