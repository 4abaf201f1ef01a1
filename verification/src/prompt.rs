//! The interactive prompt.

use vstd::prelude::*;
use crate::output::Format;

verus! {

/// What the prompt is told: how to print results.
#[derive(Debug)]
pub struct Opt {
    pub format: Format,
}

/// What the prompt reads of a token of SQL.
#[derive(Debug, Clone, Copy, PartialEq, Eq, Structural)]
pub enum TokenKind {
    SemiColon,
    Whitespace,
    Word,
}

/// The place of the first semicolon from `from` on.
pub open spec fn first_semicolon(tokens: Seq<TokenKind>, from: int) -> Option<int>
    decreases tokens.len() - from,
{
    if from < 0 || from >= tokens.len() {
        None
    } else if tokens[from] is SemiColon {
        Some(from)
    } else {
        first_semicolon(tokens, from + 1)
    }
}

/// The place where the whitespace that starts at `from` ends: that of the
/// first token from there on that is none, or the end.
pub open spec fn whitespace_end(tokens: Seq<TokenKind>, from: int) -> int
    decreases tokens.len() - from,
{
    if from < 0 || from >= tokens.len() || !(tokens[from] is Whitespace) {
        from
    } else {
        whitespace_end(tokens, from + 1)
    }
}

/// How many of the tokens make up the first statement: those up to the
/// first semicolon, the semicolon, and the whitespace right after it. None
/// while no semicolon has been read.
pub open spec fn statement_len(tokens: Seq<TokenKind>) -> Option<int> {
    match first_semicolon(tokens, 0) {
        Some(place) => Some(whitespace_end(tokens, place + 1)),
        None => None,
    }
}

/// How many of the tokens read so far make up the first statement, if one
/// is complete.
pub fn statement_end(tokens: &Vec<TokenKind>) -> (r: Option<usize>)
    ensures
        match r {
            Some(n) => statement_len(tokens@) == Some(n as int) && 0 < n <= tokens.len(),
            None => statement_len(tokens@) is None,
        },
{
    let mut place: usize = 0;
    while place < tokens.len() && !matches!(tokens[place], TokenKind::SemiColon)
        invariant
            place <= tokens.len(),
            first_semicolon(tokens@, 0) == first_semicolon(tokens@, place as int),
        decreases tokens.len() - place,
    {
        place += 1;
    }
    if place == tokens.len() {
        return None;
    }
    let mut end: usize = place + 1;
    while end < tokens.len() && matches!(tokens[end], TokenKind::Whitespace)
        invariant
            place < end <= tokens.len(),
            whitespace_end(tokens@, place + 1) == whitespace_end(tokens@, end as int),
        decreases tokens.len() - end,
    {
        end += 1;
    }
    Some(end)
}

/// The prompt to show: the first one while nothing is pending, the
/// continuation while a statement is under way.
pub fn prompt(input: &str, tokens: usize) -> (r: &'static str)
    ensures
        r@ == (if input@.len() == 0 && tokens == 0 {
            "ghsql> "@
        } else {
            "    -> "@
        }),
{
    if input.is_empty() && tokens == 0 {
        "ghsql> "
    } else {
        "    -> "
    }
}

} // verus!
