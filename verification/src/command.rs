//! The editing commands and the prompt that each becomes.

use crate::error::EditError;
use crate::error::Failure;
use crate::text::same_text;
use vstd::prelude::*;
use vstd::string::StringExecFns;

verus! {

/// What a caller can ask to be done with a text.
#[derive(Debug, Clone, Copy, PartialEq, Eq, Structural)]
pub enum Command {
    Paraphrase,
    Expand,
    Summarize,
    Translate,
}

impl Command {
    /// The word by which a caller asks for the command.
    pub open spec fn word(self) -> Seq<char> {
        match self {
            Command::Paraphrase => "paraphrase"@,
            Command::Expand => "expand"@,
            Command::Summarize => "summarize"@,
            Command::Translate => "translate"@,
        }
    }

    /// The instruction that precedes the text in the command's prompt.
    /// Translation is always into French.
    pub open spec fn instruction(self) -> Seq<char> {
        match self {
            Command::Paraphrase => "Paraphrase this text: "@,
            Command::Expand => "Expand this text: "@,
            Command::Summarize => "Summarize this text: "@,
            Command::Translate => "Translate this text into French: "@,
        }
    }

    /// The prompt for `text`: the instruction, then the text as it stands.
    pub open spec fn prompt(self, text: Seq<char>) -> Seq<char> {
        self.instruction() + text
    }

    /// The command that `word` asks for, if it asks for one.
    pub open spec fn recognized(word: Seq<char>) -> Option<Command> {
        if word == Command::Paraphrase.word() {
            Some(Command::Paraphrase)
        } else if word == Command::Expand.word() {
            Some(Command::Expand)
        } else if word == Command::Summarize.word() {
            Some(Command::Summarize)
        } else if word == Command::Translate.word() {
            Some(Command::Translate)
        } else {
            None
        }
    }

    /// Reads a command from the word that a caller sent.
    pub fn parse(word: &str) -> (r: Option<Command>)
        ensures
            r == Command::recognized(word@),
    {
        if same_text(word, "paraphrase") {
            Some(Command::Paraphrase)
        } else if same_text(word, "expand") {
            Some(Command::Expand)
        } else if same_text(word, "summarize") {
            Some(Command::Summarize)
        } else if same_text(word, "translate") {
            Some(Command::Translate)
        } else {
            None
        }
    }

    /// The word by which a caller asks for this command.
    pub fn name(&self) -> (r: &'static str)
        ensures
            r@ == self.word(),
    {
        match self {
            Command::Paraphrase => "paraphrase",
            Command::Expand => "expand",
            Command::Summarize => "summarize",
            Command::Translate => "translate",
        }
    }

    /// The instruction that precedes the text in this command's prompt.
    pub fn template(&self) -> (r: &'static str)
        ensures
            r@ == self.instruction(),
    {
        match self {
            Command::Paraphrase => "Paraphrase this text: ",
            Command::Expand => "Expand this text: ",
            Command::Summarize => "Summarize this text: ",
            Command::Translate => "Translate this text into French: ",
        }
    }

    /// The prompt that asks for this command on `text`.
    pub fn render(&self, text: &str) -> (r: String)
        ensures
            r@ == self.prompt(text@),
    {
        self.template().to_owned().concat(text)
    }
}

/// The prompt for the command that `command` names, on `text`.
/// A word that names no command is refused.
pub fn render_prompt(command: &str, text: &str) -> (r: Result<String, EditError>)
    ensures
        match Command::recognized(command@) {
            Some(c) => r is Ok && r->Ok_0@ == c.prompt(text@),
            None => r is Err && r->Err_0@ == Failure::InvalidCommand,
        },
{
    match Command::parse(command) {
        Some(c) => Ok(c.render(text)),
        None => Err(EditError::InvalidCommand),
    }
}

/// Each command is recognized by its own word, and by no other command's.
pub proof fn lemma_word_recognized(c: Command)
    ensures
        Command::recognized(c.word()) == Some(c),
{
    reveal_strlit("paraphrase");
    reveal_strlit("expand");
    reveal_strlit("summarize");
    reveal_strlit("translate");
    assert("paraphrase"@.len() == 10);
    assert("expand"@.len() == 6);
    assert("summarize"@.len() == 9);
    assert("translate"@.len() == 9);
    assert("summarize"@[0] == 's');
    assert("translate"@[0] == 't');
}

/// Each command's word, with any text, asks for the prompt that is the
/// command's instruction followed by the text, character for character.
pub proof fn lemma_prompt_of_word(c: Command, text: Seq<char>)
    ensures
        Command::recognized(c.word()) == Some(c),
        c.prompt(text).len() == c.instruction().len() + text.len(),
        c.prompt(text).subrange(0, c.instruction().len() as int) == c.instruction(),
        c.prompt(text).subrange(c.instruction().len() as int, c.prompt(text).len() as int) == text,
{
    lemma_word_recognized(c);
    let p = c.prompt(text);
    let n = c.instruction().len() as int;
    assert(p.subrange(0, n) =~= c.instruction());
    assert(p.subrange(n, p.len() as int) =~= text);
}

/// A word is recognized exactly when it is the word of a command, and then
/// as that command.
pub proof fn lemma_recognized_iff_word(word: Seq<char>, c: Command)
    ensures
        Command::recognized(word) == Some(c) <==> word == c.word(),
{
    lemma_word_recognized(c);
}

/// A word that is none of the four commands' words is recognized as nothing.
pub proof fn lemma_unrecognized(word: Seq<char>)
    ensures
        Command::recognized(word) is None <==> (forall|c: Command| word != #[trigger] c.word()),
{
    if Command::recognized(word) is None {
        assert forall|c: Command| word != #[trigger] c.word() by {
            lemma_word_recognized(c);
        }
    } else {
        let c = Command::recognized(word)->Some_0;
        assert(word == c.word());
    }
}

} // verus!
