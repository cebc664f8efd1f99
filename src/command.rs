//! Resolving a line's words to a built-in or an external command, and the
//! decisions around running an external program.
use vstd::prelude::*;
use crate::builtin::{builds, builtin_named, lower_of, name_text, BuiltInCommand, BuiltinError, ShellEnv, search_list, search_candidates};
use crate::path::{first_found, is_first_found};
use crate::redirect::{split_redirection, splits, CommandLine, Redirect};
use crate::text::{concat2, concat3, texts};
use crate::tokenizer::{parse_parts, tokens_of, trimmed_of};

verus! {

/// A program to run by name, with its arguments. Whether it exists is
/// learnt only when it is run.
#[derive(Clone, Debug, PartialEq, Eq)]
pub struct CustomCommand {
    pub command: String,
    pub arguments: Vec<String>,
}

impl CustomCommand {
    pub fn new(command: String, arguments: Vec<String>) -> (r: CustomCommand)
        ensures
            r.command == command,
            r.arguments == arguments,
    {
        CustomCommand { command, arguments }
    }

    /// The files that may hold this program, in the order they are tried.
    pub fn candidates(&self, env: &ShellEnv) -> (r: Vec<String>)
        ensures
            texts(r@) == search_list(*env, self.command@),
    {
        search_candidates(env, self.command.as_str())
    }

    /// Which program file to run, once it is known which of the candidates
    /// exist (`found[i]` for candidate `i`): the first that exists, or `None`,
    /// when the command is reported as not found.
    pub fn choose_program(&self, found: &Vec<bool>) -> (r: Option<usize>)
        ensures
            match r {
                Some(i) => is_first_found(found@, i as int),
                None => forall|j: int| 0 <= j < found.len() ==> !found@[j],
            },
    {
        first_found(found)
    }

    /// The line reported when no candidate file exists.
    pub fn not_found_message(&self) -> (r: String)
        ensures
            r@ == self.command@ + ": command not found"@,
    {
        concat2(self.command.as_str(), ": command not found")
    }
}

/// Whether a newline is to be added after the bytes that a program wrote to a
/// redirection target: unless they end with one already.
pub fn needs_trailing_newline(written: &Vec<u8>) -> (r: bool)
    ensures
        r == (written.len() == 0 || written@.last() != 10u8),
{
    written.len() == 0 || written[written.len() - 1] != 10u8
}

/// A command that a line's words resolve to.
#[derive(Clone, Debug, PartialEq, Eq)]
pub enum Resolved {
    Builtin(BuiltInCommand),
    External(CustomCommand),
}

/// `r` is what `words` resolve to: nothing for no words; else the built-in
/// that the first word names without regard to case, bound to the other
/// words, or failing to bind; else an external command by that name.
pub open spec fn resolves(words: Seq<String>, r: Option<Result<Resolved, BuiltinError>>) -> bool {
    match r {
        None => words.len() == 0,
        Some(Ok(Resolved::External(c))) => {
            &&& words.len() > 0
            &&& builtin_named(lower_of(words[0]@)) is None
            &&& c.command == words[0]
            &&& c.arguments@ == words.drop_first()
        },
        Some(Ok(Resolved::Builtin(b))) => {
            &&& words.len() > 0
            &&& builtin_named(lower_of(words[0]@)) is Some
            &&& builds(builtin_named(lower_of(words[0]@))->0, words.drop_first(), Ok(b))
        },
        Some(Err(e)) => {
            &&& words.len() > 0
            &&& builtin_named(lower_of(words[0]@)) is Some
            &&& builds(builtin_named(lower_of(words[0]@))->0, words.drop_first(), Err(e))
        },
    }
}

/// Resolves a line's words to the command they name.
pub fn resolve(words: Vec<String>) -> (r: Option<Result<Resolved, BuiltinError>>)
    ensures
        resolves(words@, r),
{
    if words.len() == 0 {
        return None;
    }
    let mut arguments: Vec<String> = Vec::new();
    let mut i: usize = 1;
    while i < words.len()
        invariant
            1 <= i <= words.len(),
            arguments@ == words@.subrange(1, i as int),
        decreases words.len() - i,
    {
        proof {
            assert(words@.subrange(1, i + 1) =~= words@.subrange(1, i as int).push(words@[i as int]));
        }
        arguments.push(words[i].clone());
        i = i + 1;
    }
    proof {
        assert(words@.subrange(1, i as int) =~= words@.drop_first());
    }
    let name = words[0].clone();
    match BuiltInCommand::try_from_string(name.clone(), arguments.clone()) {
        Ok(b) => Some(Ok(Resolved::Builtin(b))),
        Err(BuiltinError::NotBuiltin) => Some(Ok(Resolved::External(CustomCommand::new(name, arguments)))),
        Err(e) => Some(Err(e)),
    }
}

impl BuiltinError {
    /// The line that reports this error.
    pub fn message(&self) -> (r: String)
        ensures
            r@ == match *self {
                BuiltinError::NotBuiltin => "not a shell builtin"@,
                BuiltinError::MissingArgument(k) => name_text(k) + ": missing argument"@,
                BuiltinError::MalformedExitCode(t) => "exit: "@ + t@ + ": numeric argument required"@,
            },
    {
        match self {
            BuiltinError::NotBuiltin => String::from_str("not a shell builtin"),
            BuiltinError::MissingArgument(k) => concat2(k.as_str(), ": missing argument"),
            BuiltinError::MalformedExitCode(t) => concat3("exit: ", t.as_str(), ": numeric argument required"),
        }
    }
}

/// The line that reports a redirection whose descriptor is neither `1` nor `2`.
pub fn invalid_descriptor_message(descriptor: &str) -> (r: String)
    ensures
        r@ == descriptor@ + ": invalid redirect descriptor"@,
{
    concat2(descriptor, ": invalid redirect descriptor")
}

/// A raw input line made ready to run: its command and its redirection.
#[derive(Clone, Debug, PartialEq, Eq)]
pub struct PreparedLine {
    pub command: Option<Result<Resolved, BuiltinError>>,
    pub redirect: Redirect,
}

/// Tokenizes a raw input line, takes off its redirection clause and resolves
/// the remaining words.
pub fn prepare_line(input: String) -> (r: PreparedLine)
    ensures
        exists|tokens: Seq<String>, line: CommandLine| {
            &&& texts(tokens) == tokens_of(trimmed_of(input@))
            &&& splits(tokens, line)
            &&& line.redirect == r.redirect
            &&& resolves(line.words@, r.command)
        },
{
    let tokens = parse_parts(input);
    let ghost token_seq = tokens@;
    let line = split_redirection(tokens);
    let ghost whole = line;
    let CommandLine { words, redirect } = line;
    let command = resolve(words);
    let r = PreparedLine { command, redirect };
    proof {
        assert(texts(token_seq) == tokens_of(trimmed_of(input@)) && splits(token_seq, whole)
            && whole.redirect == r.redirect && resolves(whole.words@, r.command));
    }
    r
}

} // verus!
