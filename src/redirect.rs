//! Splits an output redirection clause (`>`, `1>`, `2>`, `>>`, `1>>`, `2>>`
//! followed by a path) off a line's tokens.
use vstd::prelude::*;
use crate::text::{char_vec, contains_char, push_char, texts};

verus! {

/// The output stream that a redirection sends to a file.
#[derive(Clone, Copy, PartialEq, Eq, Structural, Debug)]
pub enum Descriptor {
    Stdout,
    Stderr,
}

/// Whether the target file is emptied first or written at its end.
#[derive(Clone, Copy, PartialEq, Eq, Structural, Debug)]
pub enum WriteMode {
    Truncate,
    Append,
}

/// A redirection clause: which stream goes where, and how.
#[derive(Clone, Debug, PartialEq, Eq)]
pub struct Redirection {
    pub descriptor: Descriptor,
    pub mode: WriteMode,
    pub target: String,
}

/// What a line asks of its output streams.
#[derive(Clone, Debug, PartialEq, Eq)]
pub enum Redirect {
    /// No clause: the streams stay as they are.
    Inherit,
    /// A well-formed clause.
    To(Redirection),
    /// An operator whose descriptor is neither `1` nor `2`; it holds that
    /// descriptor's text. No stream is redirected.
    BadDescriptor(String),
}

/// A line's command words, with its redirection clause taken off.
#[derive(Clone, Debug, PartialEq, Eq)]
pub struct CommandLine {
    pub words: Vec<String>,
    pub redirect: Redirect,
}

/// A token that holds a `>` anywhere is a redirection operator.
pub open spec fn is_operator(t: Seq<char>) -> bool {
    t.contains('>')
}

/// `i` is the position of the first operator among `ts`.
pub open spec fn is_first_operator(ts: Seq<Seq<char>>, i: int) -> bool {
    &&& 0 <= i < ts.len()
    &&& is_operator(ts[i])
    &&& forall|j: int| 0 <= j < i ==> !is_operator(#[trigger] ts[j])
}

/// The operator's text without its `>` and space characters.
pub open spec fn descriptor_text(op: Seq<char>) -> Seq<char>
    decreases op.len(),
{
    if op.len() == 0 {
        op
    } else if op.last() == '>' || op.last() == ' ' {
        descriptor_text(op.drop_last())
    } else {
        descriptor_text(op.drop_last()).push(op.last())
    }
}

/// The stream that a descriptor's text names: none, or `1`, is the standard
/// output; `2` is the standard error.
pub open spec fn descriptor_of(d: Seq<char>) -> Option<Descriptor> {
    if d == Seq::<char>::empty() || d == seq!['1'] {
        Some(Descriptor::Stdout)
    } else if d == seq!['2'] {
        Some(Descriptor::Stderr)
    } else {
        None
    }
}

/// An operator with `>>` in it appends.
pub open spec fn appends(op: Seq<char>) -> bool {
    exists|i: int| 0 <= i && i + 1 < op.len() && #[trigger] op[i] == '>' && op[i + 1] == '>'
}

pub open spec fn mode_of(op: Seq<char>) -> WriteMode {
    if appends(op) {
        WriteMode::Append
    } else {
        WriteMode::Truncate
    }
}

/// `r` is the clause that operator `op` and path `target` make.
pub open spec fn clause_of(r: Redirect, op: Seq<char>, target: Seq<char>) -> bool {
    match r {
        Redirect::To(x) => {
            &&& descriptor_of(descriptor_text(op)) == Some(x.descriptor)
            &&& x.mode == mode_of(op)
            &&& x.target@ == target
        },
        Redirect::BadDescriptor(d) => {
            &&& descriptor_of(descriptor_text(op)) is None
            &&& d@ == descriptor_text(op)
        },
        Redirect::Inherit => false,
    }
}

/// The text of `op` without `>` and space characters.
fn strip_operator(op: &str) -> (d: String)
    ensures
        d@ == descriptor_text(op@),
{
    let chars = char_vec(op);
    let mut d = String::new();
    let mut i: usize = 0;
    while i < chars.len()
        invariant
            i <= chars.len(),
            chars@ == op@,
            d@ == descriptor_text(chars@.take(i as int)),
        decreases chars.len() - i,
    {
        proof {
            assert(chars@.take(i + 1).drop_last() =~= chars@.take(i as int));
        }
        let c = chars[i];
        if c != '>' && c != ' ' {
            push_char(&mut d, c);
        }
        i = i + 1;
    }
    proof {
        assert(chars@.take(chars.len() as int) =~= chars@);
    }
    d
}

/// Whether `op` holds two `>` in a row.
fn has_append(op: &str) -> (r: bool)
    ensures
        r == appends(op@),
{
    let chars = char_vec(op);
    let mut i: usize = 0;
    while i < chars.len()
        invariant
            chars@ == op@,
            forall|j: int| 0 <= j < i && j + 1 < chars.len() ==> !(#[trigger] chars@[j] == '>' && chars@[j + 1] == '>'),
        decreases chars.len() - i,
    {
        if i + 1 < chars.len() && chars[i] == '>' && chars[i + 1] == '>' {
            return true;
        }
        i = i + 1;
    }
    false
}

/// Reads a descriptor's text.
fn parse_descriptor(d: &String) -> (r: Option<Descriptor>)
    ensures
        r == descriptor_of(d@),
{
    let one = char_vec(d.as_str());
    if one.len() == 0 {
        proof {
            assert(d@ =~= Seq::<char>::empty());
        }
        Some(Descriptor::Stdout)
    } else if one.len() == 1 && one[0] == '1' {
        proof {
            assert(d@ =~= seq!['1']);
        }
        Some(Descriptor::Stdout)
    } else if one.len() == 1 && one[0] == '2' {
        proof {
            assert(d@ =~= seq!['2']);
        }
        Some(Descriptor::Stderr)
    } else {
        proof {
            assert(seq!['1'].len() == 1 && seq!['2'].len() == 1);
            assert(d@ != Seq::<char>::empty()) by {
                assert(d@.len() != 0);
            }
            if one.len() == 1 {
                assert(d@ != seq!['1'] && d@ != seq!['2']) by {
                    assert(seq!['1'][0] == '1');
                    assert(seq!['2'][0] == '2');
                }
            }
        }
        None
    }
}

/// The clause that operator `op` and path `target` make.
pub fn make_redirect(op: &str, target: String) -> (r: Redirect)
    ensures
        clause_of(r, op@, target@),
{
    let d = strip_operator(op);
    match parse_descriptor(&d) {
        Some(descriptor) => {
            let mode = if has_append(op) { WriteMode::Append } else { WriteMode::Truncate };
            Redirect::To(Redirection { descriptor, mode, target })
        },
        None => Redirect::BadDescriptor(d),
    }
}

/// The position of the first token that holds `>`, if any.
pub fn find_operator(tokens: &Vec<String>) -> (r: Option<usize>)
    ensures
        match r {
            Some(i) => is_first_operator(texts(tokens@), i as int),
            None => forall|j: int| 0 <= j < tokens.len() ==> !is_operator(#[trigger] tokens@[j]@),
        },
{
    let mut i: usize = 0;
    while i < tokens.len()
        invariant
            i <= tokens.len(),
            forall|j: int| 0 <= j < i ==> !is_operator(#[trigger] tokens@[j]@),
        decreases tokens.len() - i,
    {
        if contains_char(tokens[i].as_str(), '>') {
            return Some(i);
        }
        i = i + 1;
    }
    None
}

/// `line` is what taking the redirection clause off `tokens` leaves.
pub open spec fn splits(tokens: Seq<String>, line: CommandLine) -> bool {
    &&& (forall|j: int| 0 <= j < tokens.len() ==> !is_operator(#[trigger] tokens[j]@)) ==> {
        &&& line.words@ == tokens
        &&& line.redirect is Inherit
    }
    &&& forall|i: int| #[trigger] is_first_operator(texts(tokens), i) ==> {
        if i + 1 < tokens.len() {
            &&& line.words@ == tokens.take(i)
            &&& clause_of(line.redirect, tokens[i]@, tokens[i + 1]@)
        } else {
            &&& line.words@ == tokens
            &&& line.redirect is Inherit
        }
    }
}

/// Takes the redirection clause off a line's tokens. The clause is the first
/// token that holds `>` together with the token after it; the words are the
/// tokens before it. An operator with no token after it is no clause: the
/// tokens are then all kept as words.
pub fn split_redirection(tokens: Vec<String>) -> (line: CommandLine)
    ensures
        splits(tokens@, line),
{
    match find_operator(&tokens) {
        Some(i) => {
            assert(texts(tokens@).len() == tokens.len());
            if i < tokens.len() - 1 {
                let redirect = make_redirect(tokens[i].as_str(), tokens[i + 1].clone());
                let mut words: Vec<String> = Vec::new();
                let mut k: usize = 0;
                while k < i
                    invariant
                        k <= i < tokens.len(),
                        words@ == tokens@.take(k as int),
                    decreases i - k,
                {
                    proof {
                        assert(tokens@.take(k + 1) =~= tokens@.take(k as int).push(tokens@[k as int]));
                    }
                    words.push(tokens[k].clone());
                    k = k + 1;
                }
                proof {
                    assert forall|j: int| #[trigger] is_first_operator(texts(tokens@), j) implies j == i by {
                        if j < i {
                            assert(!is_operator(texts(tokens@)[j]));
                        } else if j > i {
                            assert(!is_operator(texts(tokens@)[i as int]));
                        }
                    }
                }
                CommandLine { words, redirect }
            } else {
                proof {
                    assert forall|j: int| #[trigger] is_first_operator(texts(tokens@), j) implies j == i by {
                        if j < i {
                            assert(!is_operator(texts(tokens@)[j]));
                        } else if j > i {
                            assert(!is_operator(texts(tokens@)[i as int]));
                        }
                    }
                }
                CommandLine { words: tokens, redirect: Redirect::Inherit }
            }
        },
        None => {
            proof {
                assert forall|j: int| #[trigger] is_first_operator(texts(tokens@), j) implies false by {
                    assert(!is_operator(tokens@[j]@));
                }
            }
            CommandLine { words: tokens, redirect: Redirect::Inherit }
        },
    }
}

} // verus!
