//! The built-in commands: recognising their names, binding their arguments,
//! and deciding what running one does.
use vstd::prelude::*;
use vstd::string::StringExecFns;
use crate::exit_code::{exit_code_of, parse_exit_code};
use crate::path::{candidates_of, is_first_found, first_found, path_candidates};
use crate::text::{char_vec, concat2, concat3, joined, same_text, texts};

verus! {

/// The names of the built-in commands.
#[derive(Clone, Copy, PartialEq, Eq, Structural, Debug)]
pub enum BuiltinName {
    Echo,
    Cd,
    Pwd,
    Type,
    Exit,
}

/// The built-in that `s` names exactly, if any.
pub open spec fn builtin_named(s: Seq<char>) -> Option<BuiltinName> {
    if s == "echo"@ {
        Some(BuiltinName::Echo)
    } else if s == "cd"@ {
        Some(BuiltinName::Cd)
    } else if s == "pwd"@ {
        Some(BuiltinName::Pwd)
    } else if s == "type"@ {
        Some(BuiltinName::Type)
    } else if s == "exit"@ {
        Some(BuiltinName::Exit)
    } else {
        None
    }
}

pub open spec fn name_text(k: BuiltinName) -> Seq<char> {
    match k {
        BuiltinName::Echo => "echo"@,
        BuiltinName::Cd => "cd"@,
        BuiltinName::Pwd => "pwd"@,
        BuiltinName::Type => "type"@,
        BuiltinName::Exit => "exit"@,
    }
}

impl BuiltinName {
    /// The command's name as it is typed.
    pub fn as_str(&self) -> (r: &'static str)
        ensures
            r@ == name_text(*self),
    {
        match self {
            BuiltinName::Echo => "echo",
            BuiltinName::Cd => "cd",
            BuiltinName::Pwd => "pwd",
            BuiltinName::Type => "type",
            BuiltinName::Exit => "exit",
        }
    }
}

/// The built-in that `name` names exactly (case matters), if any.
pub fn builtin_name(name: &str) -> (r: Option<BuiltinName>)
    ensures
        r == builtin_named(name@),
{
    if same_text(name, "echo") {
        Some(BuiltinName::Echo)
    } else if same_text(name, "cd") {
        Some(BuiltinName::Cd)
    } else if same_text(name, "pwd") {
        Some(BuiltinName::Pwd)
    } else if same_text(name, "type") {
        Some(BuiltinName::Type)
    } else if same_text(name, "exit") {
        Some(BuiltinName::Exit)
    } else {
        None
    }
}

/// What `str::to_lowercase` makes of a text.
pub uninterp spec fn lower_of(s: Seq<char>) -> Seq<char>;

/// Relies on `str::to_lowercase`: the lowercase form of a text, which depends
/// on its characters alone.
#[verifier::external_body]
fn lowercase(s: &str) -> (r: String)
    ensures
        r@ == lower_of(s@),
{
    s.to_lowercase()
}

/// A built-in command with its arguments bound.
#[derive(Clone, Debug, PartialEq, Eq)]
pub enum BuiltInCommand {
    Echo(Vec<String>),
    Cd(String),
    Pwd,
    Type(String),
    Exit(i32),
}

/// Why a line's words make no built-in command.
#[derive(Clone, Debug, PartialEq, Eq)]
pub enum BuiltinError {
    /// The first word names no built-in.
    NotBuiltin,
    /// The built-in needs an argument and got none.
    MissingArgument(BuiltinName),
    /// The argument of `exit` is not an integer; it holds that argument.
    MalformedExitCode(String),
}

/// `r` is what built-in `kind` with arguments `args` binds to: `echo` takes
/// all its arguments; `cd` and `type` their first, which they need; `exit` its
/// first, read as an integer, or 0 without one; `pwd` none.
pub open spec fn builds(kind: BuiltinName, args: Seq<String>, r: Result<BuiltInCommand, BuiltinError>) -> bool {
    match r {
        Ok(BuiltInCommand::Echo(a)) => kind == BuiltinName::Echo && a@ == args,
        Ok(BuiltInCommand::Cd(p)) => kind == BuiltinName::Cd && args.len() > 0 && p == args[0],
        Ok(BuiltInCommand::Pwd) => kind == BuiltinName::Pwd,
        Ok(BuiltInCommand::Type(n)) => kind == BuiltinName::Type && args.len() > 0 && n == args[0],
        Ok(BuiltInCommand::Exit(c)) => kind == BuiltinName::Exit && if args.len() == 0 {
            c == 0
        } else {
            exit_code_of(args[0]@) == Some(c)
        },
        Err(BuiltinError::MissingArgument(k)) => {
            &&& k == kind
            &&& (kind == BuiltinName::Cd || kind == BuiltinName::Type)
            &&& args.len() == 0
        },
        Err(BuiltinError::MalformedExitCode(t)) => {
            &&& kind == BuiltinName::Exit
            &&& args.len() > 0
            &&& exit_code_of(args[0]@) is None
            &&& t == args[0]
        },
        Err(BuiltinError::NotBuiltin) => false,
    }
}

/// The path that `cd` goes to: a leading `~` stands for the home directory,
/// where one is known.
pub open spec fn expanded(p: Seq<char>, home: Option<String>) -> Seq<char> {
    if p.len() > 0 && p[0] == '~' && home is Some {
        home->0@ + p.drop_first()
    } else {
        p
    }
}

pub open spec fn builtin_message(n: Seq<char>) -> Seq<char> {
    n + " is a shell builtin"@
}

pub open spec fn located_message(n: Seq<char>, full: Seq<char>) -> Seq<char> {
    n + " is "@ + full
}

pub open spec fn not_found_message(n: Seq<char>) -> Seq<char> {
    n + ": not found"@
}

pub open spec fn cd_missing_message(p: Seq<char>) -> Seq<char> {
    "cd: "@ + p + ": No such file or directory"@
}

/// What the shell knows of its environment: the `HOME` and `PATH` values.
#[derive(Clone, Debug, PartialEq, Eq)]
pub struct ShellEnv {
    pub home: Option<String>,
    pub path: Option<String>,
}

/// The files to look for, in order, for command `name` in environment `env`:
/// none without a `PATH`.
pub open spec fn search_list(env: ShellEnv, name: Seq<char>) -> Seq<Seq<char>> {
    match env.path {
        Some(p) => candidates_of(p@, name),
        None => Seq::empty(),
    }
}

/// The files to look for, in order, for command `name` in environment `env`.
pub fn search_candidates(env: &ShellEnv, name: &str) -> (r: Vec<String>)
    ensures
        texts(r@) == search_list(*env, name@),
{
    match &env.path {
        Some(p) => path_candidates(p.as_str(), name),
        None => {
            let r: Vec<String> = Vec::new();
            proof {
                assert(texts(r@) =~= Seq::<Seq<char>>::empty());
            }
            r
        },
    }
}

/// What running a built-in asks of the shell around it.
#[derive(Clone, Debug, PartialEq, Eq)]
pub enum Effect {
    /// Write this line to the command's standard output.
    Print(String),
    /// Enter directory `target` if it exists; `shown` is the path as typed.
    ChangeDir { target: String, shown: String },
    /// Write the working directory to the command's standard output.
    PrintWorkingDir,
    /// Find which of `candidates` exist, then finish `type` for `name`.
    Search { name: String, candidates: Vec<String> },
    /// End the shell with this status.
    Terminate(i32),
}

/// `e` is what running `cmd` in environment `env` asks for.
pub open spec fn effect_of(cmd: BuiltInCommand, env: ShellEnv, e: Effect) -> bool {
    match cmd {
        BuiltInCommand::Echo(a) => e is Print && e->Print_0@ == joined(texts(a@)),
        BuiltInCommand::Cd(p) => {
            &&& e is ChangeDir
            &&& e->ChangeDir_target@ == expanded(p@, env.home)
            &&& e->ChangeDir_shown@ == p@
        },
        BuiltInCommand::Pwd => e is PrintWorkingDir,
        BuiltInCommand::Type(n) => if builtin_named(n@) is Some {
            e is Print && e->Print_0@ == builtin_message(n@)
        } else {
            &&& e is Search
            &&& e->Search_name@ == n@
            &&& texts(e->Search_candidates@) == search_list(env, n@)
        },
        BuiltInCommand::Exit(c) => e == Effect::Terminate(c),
    }
}

/// Words joined by single spaces, as `echo` writes them.
pub fn join_words(words: &Vec<String>) -> (r: String)
    ensures
        r@ == joined(texts(words@)),
{
    let mut r = String::new();
    let mut i: usize = 0;
    while i < words.len()
        invariant
            i <= words.len(),
            r@ == joined(texts(words@).take(i as int)),
        decreases words.len() - i,
    {
        proof {
            reveal_strlit(" ");
            assert(" "@ =~= seq![' ']);
            assert(texts(words@).take(i + 1).drop_last() =~= texts(words@).take(i as int));
            if i == 0 {
                assert(texts(words@).take(1)[0] == words@[0]@);
            }
        }
        if i > 0 {
            r.append(" ");
        }
        r.append(words[i].as_str());
        i = i + 1;
    }
    proof {
        assert(texts(words@).take(words.len() as int) =~= texts(words@));
    }
    r
}

/// The path that `cd` goes to for `p` with home directory `home`.
pub fn expand_home(p: &str, home: &Option<String>) -> (r: String)
    ensures
        r@ == expanded(p@, *home),
{
    let chars = char_vec(p);
    match home {
        Some(h) => {
            if chars.len() > 0 && chars[0] == '~' {
                let mut r = String::from_str(h.as_str());
                let mut i: usize = 1;
                while i < chars.len()
                    invariant
                        1 <= i <= chars.len(),
                        chars@ == p@,
                        r@ == h@ + chars@.subrange(1, i as int),
                    decreases chars.len() - i,
                {
                    proof {
                        assert(chars@.subrange(1, i + 1) =~= chars@.subrange(1, i as int).push(chars@[i as int]));
                    }
                    crate::text::push_char(&mut r, chars[i]);
                    i = i + 1;
                }
                proof {
                    assert(chars@.subrange(1, i as int) =~= p@.drop_first());
                }
                r
            } else {
                String::from_str(p)
            }
        },
        None => String::from_str(p),
    }
}

/// How `cd` ends once it is known whether its target exists: `None` means
/// the shell enters the target and writes nothing; otherwise the one error
/// line to report, and the working directory stays as it was.
pub fn finish_cd(shown: &str, target_exists: bool) -> (r: Option<String>)
    ensures
        target_exists ==> r is None,
        !target_exists ==> r is Some && r->0@ == cd_missing_message(shown@),
{
    if target_exists {
        None
    } else {
        Some(concat3("cd: ", shown, ": No such file or directory"))
    }
}

/// The line that `type` writes for a name that is no built-in, once it is
/// known which of its candidate files exist (`found[i]` for `candidates[i]`):
/// the first that exists, or that there is none.
pub fn finish_type(name: &str, candidates: &Vec<String>, found: &Vec<bool>) -> (r: String)
    requires
        candidates.len() == found.len(),
    ensures
        forall|i: int| #[trigger] is_first_found(found@, i) ==> r@ == located_message(name@, candidates@[i]@),
        (forall|i: int| 0 <= i < found.len() ==> !found@[i]) ==> r@ == not_found_message(name@),
{
    match first_found(found) {
        Some(i) => {
            proof {
                assert forall|j: int| #[trigger] is_first_found(found@, j) implies j == i by {
                    if j < i {
                        assert(!found@[j]);
                    } else if j > i {
                        assert(!found@[i as int]);
                    }
                }
            }
            concat3(name, " is ", candidates[i].as_str())
        },
        None => concat2(name, ": not found"),
    }
}

impl BuiltInCommand {
    /// Binds built-in `kind` to `arguments`.
    pub fn build(kind: BuiltinName, arguments: Vec<String>) -> (r: Result<BuiltInCommand, BuiltinError>)
        ensures
            builds(kind, arguments@, r),
    {
        match kind {
            BuiltinName::Echo => Ok(BuiltInCommand::Echo(arguments)),
            BuiltinName::Pwd => Ok(BuiltInCommand::Pwd),
            BuiltinName::Cd => {
                if arguments.len() == 0 {
                    Err(BuiltinError::MissingArgument(kind))
                } else {
                    Ok(BuiltInCommand::Cd(arguments[0].clone()))
                }
            },
            BuiltinName::Type => {
                if arguments.len() == 0 {
                    Err(BuiltinError::MissingArgument(kind))
                } else {
                    Ok(BuiltInCommand::Type(arguments[0].clone()))
                }
            },
            BuiltinName::Exit => {
                if arguments.len() == 0 {
                    Ok(BuiltInCommand::Exit(0))
                } else {
                    match parse_exit_code(arguments[0].as_str()) {
                        Some(code) => Ok(BuiltInCommand::Exit(code)),
                        None => Err(BuiltinError::MalformedExitCode(arguments[0].clone())),
                    }
                }
            },
        }
    }

    /// The built-in that `command` names, matched without regard to case, bound
    /// to `arguments`; `NotBuiltin` when it names none.
    pub fn try_from_string(command: String, arguments: Vec<String>) -> (r: Result<BuiltInCommand, BuiltinError>)
        ensures
            match builtin_named(lower_of(command@)) {
                Some(kind) => builds(kind, arguments@, r),
                None => r is Err && r->Err_0 is NotBuiltin,
            },
    {
        let lowered = lowercase(command.as_str());
        match builtin_name(lowered.as_str()) {
            Some(kind) => BuiltInCommand::build(kind, arguments),
            None => Err(BuiltinError::NotBuiltin),
        }
    }

    /// What running this built-in in environment `env` asks for. `type` of a
    /// built-in's name (case matters) answers at once; of another name it
    /// asks for a search of the `PATH`.
    pub fn execute(&self, env: &ShellEnv) -> (e: Effect)
        ensures
            effect_of(*self, *env, e),
    {
        match self {
            BuiltInCommand::Echo(words) => Effect::Print(join_words(words)),
            BuiltInCommand::Cd(p) => Effect::ChangeDir {
                target: expand_home(p.as_str(), &env.home),
                shown: p.clone(),
            },
            BuiltInCommand::Pwd => Effect::PrintWorkingDir,
            BuiltInCommand::Type(n) => {
                if builtin_name(n.as_str()).is_some() {
                    Effect::Print(concat2(n.as_str(), " is a shell builtin"))
                } else {
                    Effect::Search { name: n.clone(), candidates: search_candidates(env, n.as_str()) }
                }
            },
            BuiltInCommand::Exit(code) => Effect::Terminate(*code),
        }
    }
}

} // verus!
