//! Splits one command line into argument tokens, honouring single and double
//! quotes and backslash escapes.
use vstd::prelude::*;
use vstd::string::StringExecFns;
use crate::text::{joined, push_char, texts};

verus! {

/// Which kind of quote, if any, is open at a point of the line.
#[derive(Clone, Copy, PartialEq, Eq, Structural, Debug)]
pub enum QuoteMode {
    Unquoted,
    Single,
    Double,
}

/// The scanner's state after a prefix of the line: the open quote, whether the
/// previous character was an escaping backslash, the token being built and the
/// tokens already finished.
pub struct ScanState {
    pub quote: QuoteMode,
    pub escape: bool,
    pub current: Seq<char>,
    pub done: Seq<Seq<char>>,
}

pub open spec fn is_quote_char(c: char) -> bool {
    c == '\'' || c == '"'
}

pub open spec fn quote_of(c: char) -> QuoteMode {
    if c == '\'' {
        QuoteMode::Single
    } else {
        QuoteMode::Double
    }
}

/// A backslash escapes only outside quotes and inside double quotes.
pub open spec fn backslash_escapes(q: QuoteMode) -> bool {
    q == QuoteMode::Unquoted || q == QuoteMode::Double
}

/// Inside double quotes a backslash is consumed only before `"`, `\` and `$`.
pub open spec fn keeps_backslash(q: QuoteMode, escape: bool, c: char) -> bool {
    escape && q == QuoteMode::Double && c != '"' && c != '\\' && c != '$'
}

/// One character's effect on the scanner.
pub open spec fn scan_step(s: ScanState, c: char) -> ScanState {
    if is_quote_char(c) && !s.escape {
        if s.quote == QuoteMode::Unquoted {
            ScanState { quote: quote_of(c), ..s }
        } else if s.quote == quote_of(c) {
            ScanState { quote: QuoteMode::Unquoted, ..s }
        } else {
            ScanState { current: s.current.push(c), ..s }
        }
    } else if c == '\\' && backslash_escapes(s.quote) {
        if s.escape {
            ScanState { current: s.current.push(c), escape: false, ..s }
        } else {
            ScanState { escape: true, ..s }
        }
    } else if c == ' ' && s.quote == QuoteMode::Unquoted {
        if s.escape {
            ScanState { current: s.current.push(c), escape: false, ..s }
        } else if s.current.len() > 0 {
            ScanState { current: Seq::empty(), done: s.done.push(s.current), ..s }
        } else {
            s
        }
    } else {
        let kept = if keeps_backslash(s.quote, s.escape, c) {
            s.current.push('\\')
        } else {
            s.current
        };
        ScanState { current: kept.push(c), escape: false, ..s }
    }
}

pub open spec fn scan_start() -> ScanState {
    ScanState { quote: QuoteMode::Unquoted, escape: false, current: Seq::empty(), done: Seq::empty() }
}

/// The scanner's state after reading all of `line`, left to right.
pub open spec fn scan(line: Seq<char>) -> ScanState
    decreases line.len(),
{
    if line.len() == 0 {
        scan_start()
    } else {
        scan_step(scan(line.drop_last()), line.last())
    }
}

/// The tokens of a line: those finished by the scan, then the token in
/// progress at the end of the line if it is not empty. A quote still open at
/// the end of the line is treated as closed there.
pub open spec fn tokens_of(line: Seq<char>) -> Seq<Seq<char>> {
    let s = scan(line);
    if s.current.len() > 0 {
        s.done.push(s.current)
    } else {
        s.done
    }
}

/// Splits `line` into tokens, character by character.
pub fn tokenize(line: &str) -> (tokens: Vec<String>)
    ensures
        texts(tokens@) == tokens_of(line@),
{
    let mut result: Vec<String> = Vec::new();
    let mut argument = String::new();
    let mut quote = QuoteMode::Unquoted;
    let mut escape = false;
    let ghost chars = line@;
    proof {
        assert(chars.take(0) =~= Seq::<char>::empty());
        assert(texts(result@) =~= Seq::<Seq<char>>::empty());
    }
    for c in it: line.chars()
        invariant
            it.seq() == chars,
            scan(chars.take(it.index() as int)) == (ScanState {
                quote: quote,
                escape: escape,
                current: argument@,
                done: texts(result@),
            }),
    {
        let ghost i = it.index() as int;
        let ghost before = scan(chars.take(i));
        proof {
            assert(c == chars[i]);
            assert(chars.take(i + 1).drop_last() =~= chars.take(i));
            assert(scan(chars.take(i + 1)) == scan_step(before, c));
        }
        if (c == '\'' || c == '"') && !escape {
            let q = if c == '\'' { QuoteMode::Single } else { QuoteMode::Double };
            if quote == QuoteMode::Unquoted {
                quote = q;
            } else if quote == q {
                quote = QuoteMode::Unquoted;
            } else {
                push_char(&mut argument, c);
            }
        } else if c == '\\' && (quote == QuoteMode::Unquoted || quote == QuoteMode::Double) {
            if escape {
                push_char(&mut argument, c);
                escape = false;
            } else {
                escape = true;
            }
        } else if c == ' ' && quote == QuoteMode::Unquoted {
            if escape {
                push_char(&mut argument, c);
                escape = false;
            } else if argument.as_str().unicode_len() > 0 {
                proof {
                    assert(texts(result@.push(argument)) =~= texts(result@).push(argument@));
                }
                result.push(argument);
                argument = String::new();
            }
        } else {
            if escape && quote == QuoteMode::Double && c != '"' && c != '\\' && c != '$' {
                push_char(&mut argument, '\\');
            }
            push_char(&mut argument, c);
            escape = false;
        }
    }
    proof {
        assert(chars.take(chars.len() as int) == chars);
    }
    if argument.as_str().unicode_len() > 0 {
        proof {
            assert(texts(result@.push(argument)) =~= texts(result@).push(argument@));
        }
        result.push(argument);
    }
    result
}

/// A word that the tokenizer reads back as itself: not empty, and free of
/// spaces, quotes and backslashes.
pub open spec fn is_plain_word(w: Seq<char>) -> bool {
    &&& w.len() > 0
    &&& forall|k: int| 0 <= k < w.len() ==> {
        let c = #[trigger] w[k];
        c != ' ' && c != '\'' && c != '"' && c != '\\'
    }
}

/// Reading plain characters outside quotes only extends the token in progress.
proof fn lemma_scan_plain(s: Seq<char>, w: Seq<char>)
    requires
        scan(s).quote == QuoteMode::Unquoted,
        !scan(s).escape,
        forall|k: int| 0 <= k < w.len() ==> {
            let c = #[trigger] w[k];
            c != ' ' && c != '\'' && c != '"' && c != '\\'
        },
    ensures
        scan(s + w) == (ScanState { current: scan(s).current + w, ..scan(s) }),
    decreases w.len(),
{
    if w.len() == 0 {
        assert(s + w =~= s);
        assert(scan(s).current + w =~= scan(s).current);
    } else {
        assert((s + w).drop_last() =~= s + w.drop_last());
        lemma_scan_plain(s, w.drop_last());
        assert(w.last() == w[w.len() - 1]);
        assert(scan(s).current + w =~= (scan(s).current + w.drop_last()).push(w.last()));
    }
}

/// The scanner's state after plain words joined by single spaces: the last
/// word in progress, the others finished.
proof fn lemma_scan_joined(ws: Seq<Seq<char>>)
    requires
        ws.len() > 0,
        forall|i: int| 0 <= i < ws.len() ==> is_plain_word(#[trigger] ws[i]),
    ensures
        scan(joined(ws)) == (ScanState {
            quote: QuoteMode::Unquoted,
            escape: false,
            current: ws.last(),
            done: ws.drop_last(),
        }),
    decreases ws.len(),
{
    if ws.len() == 1 {
        let e = Seq::<char>::empty();
        assert(is_plain_word(ws[0]));
        lemma_scan_plain(e, ws[0]);
        assert(e + ws[0] =~= ws[0]);
        assert(e + ws[0] =~= ws[0]);
        assert(ws.drop_last() =~= Seq::<Seq<char>>::empty());
    } else {
        let front = ws.drop_last();
        assert forall|i: int| 0 <= i < front.len() implies is_plain_word(#[trigger] front[i]) by {
            assert(front[i] == ws[i]);
        }
        lemma_scan_joined(front);
        let head = joined(front) + seq![' '];
        assert(head.drop_last() =~= joined(front));
        assert(is_plain_word(front.last()));
        assert(front.drop_last().push(front.last()) =~= front);
        assert(is_plain_word(ws[ws.len() - 1]));
        lemma_scan_plain(head, ws.last());
        assert(Seq::<char>::empty() + ws.last() =~= ws.last());
    }
}

/// Tokenizing plain words joined by single spaces (what `echo` writes of
/// them) gives back the same words.
pub proof fn lemma_joined_words_retokenize(ws: Seq<Seq<char>>)
    requires
        forall|i: int| 0 <= i < ws.len() ==> is_plain_word(#[trigger] ws[i]),
    ensures
        tokens_of(joined(ws)) == ws,
{
    if ws.len() == 0 {
        assert(tokens_of(joined(ws)) =~= ws);
    } else {
        lemma_scan_joined(ws);
        assert(is_plain_word(ws[ws.len() - 1]));
        assert(ws.drop_last().push(ws.last()) =~= ws);
    }
}

/// What `str::trim` leaves of a line: the line without its leading and
/// trailing whitespace, as Unicode defines whitespace.
pub uninterp spec fn trimmed_of(s: Seq<char>) -> Seq<char>;

/// Relies on `str::trim`: the line without leading and trailing whitespace,
/// which depends on the characters alone.
#[verifier::external_body]
fn trim(s: &str) -> (r: &str)
    ensures
        r@ == trimmed_of(s@),
{
    s.trim()
}

/// Splits a raw input line into tokens after trimming surrounding whitespace
/// (such as the line terminator).
pub fn parse_parts(input: String) -> (tokens: Vec<String>)
    ensures
        texts(tokens@) == tokens_of(trimmed_of(input@)),
{
    tokenize(trim(input.as_str()))
}

} // verus!
