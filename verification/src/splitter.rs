//! Cutting a body of SQL into its statements.

use vstd::prelude::*;
use crate::analyzer::SQLAnalyzer;
use crate::text::{is_blank, trim_chars, trimmed};

verus! {

/// Where the splitter stands after some of the text.
pub struct SplitState {
    /// The statements that are complete.
    pub statements: Seq<Seq<char>>,
    /// What has been gathered of the statement under way.
    pub current: Seq<char>,
    /// Inside a string in single quotes.
    pub in_quote: bool,
    /// Inside an identifier in backticks.
    pub in_identifier: bool,
    /// The character before was a backslash that escapes the next one.
    pub escape: bool,
}

/// The state before any character is read.
pub open spec fn split_start() -> SplitState {
    SplitState {
        statements: Seq::empty(),
        current: Seq::empty(),
        in_quote: false,
        in_identifier: false,
        escape: false,
    }
}

/// The statements of `s`, with the one under way added unless it is blank.
pub open spec fn split_flush(s: SplitState) -> Seq<Seq<char>> {
    if trimmed(s.current).len() > 0 {
        s.statements.push(trimmed(s.current))
    } else {
        s.statements
    }
}

/// The state after one more character.
///
/// A backslash that is not itself escaped escapes the next character and is not
/// gathered by itself. A single quote outside backticks, and a backtick, open or
/// close their span unless they are escaped, and are gathered as they stand. A
/// semicolon outside both spans and not escaped ends the statement under way,
/// which is kept unless it is blank. Any other character is gathered; if it is
/// escaped and is neither a single quote nor a backslash, its backslash is
/// gathered in front of it.
pub open spec fn split_step(s: SplitState, c: char) -> SplitState {
    if c == '\\' && !s.escape {
        SplitState { escape: true, ..s }
    } else if c == '\'' && !s.escape && !s.in_identifier {
        SplitState { in_quote: !s.in_quote, current: s.current.push(c), ..s }
    } else if c == '`' && !s.escape {
        SplitState { in_identifier: !s.in_identifier, current: s.current.push(c), ..s }
    } else if c == ';' && !s.escape && !s.in_quote && !s.in_identifier {
        if trimmed(s.current).len() > 0 {
            SplitState { statements: split_flush(s), current: Seq::empty(), ..s }
        } else {
            s
        }
    } else {
        let kept = if s.escape && c != '\'' && c != '\\' {
            s.current.push('\\')
        } else {
            s.current
        };
        SplitState { current: kept.push(c), escape: false, ..s }
    }
}

/// The state after all of `text`.
pub open spec fn split_scan(text: Seq<char>) -> SplitState
    decreases text.len(),
{
    if text.len() == 0 {
        split_start()
    } else {
        split_step(split_scan(text.drop_last()), text.last())
    }
}

/// The statements of `text`, each without white space at its ends, none of them
/// empty. What follows the last semicolon counts as a statement too.
pub open spec fn split_text(text: Seq<char>) -> Seq<Seq<char>> {
    split_flush(split_scan(text))
}

impl SQLAnalyzer {
    /// Cuts `sql` into its statements at the semicolons that stand outside quoted
    /// strings and quoted identifiers and are not escaped.
    pub fn split_statements(&self, sql: &str) -> (r: Vec<String>)
        ensures
            r.deep_view() == split_text(sql@),
    {
        let mut statements: Vec<String> = Vec::new();
        let mut current: Vec<char> = Vec::new();
        let mut in_quote = false;
        let mut in_identifier = false;
        let mut escape = false;
        assert(statements.deep_view() =~= Seq::empty());
        for c in it: sql.chars()
            invariant
                it.seq() == sql@,
                split_scan(sql@.take(it.index())) == (SplitState {
                    statements: statements.deep_view(),
                    current: current@,
                    in_quote,
                    in_identifier,
                    escape,
                }),
        {
            proof {
                assert(sql@.take(it.index() + 1).drop_last() =~= sql@.take(it.index()));
            }
            if c == '\\' && !escape {
                escape = true;
            } else if c == '\'' && !escape && !in_identifier {
                in_quote = !in_quote;
                current.push(c);
            } else if c == '`' && !escape {
                in_identifier = !in_identifier;
                current.push(c);
            } else if c == ';' && !escape && !in_quote && !in_identifier {
                if !is_blank(&current) {
                    let ghost before = statements.deep_view();
                    let ghost gathered = current@;
                    statements.push(trim_chars(&current));
                    current.clear();
                    assert(statements.deep_view() =~= before.push(trimmed(gathered)));
                }
            } else {
                if escape && c != '\'' && c != '\\' {
                    current.push('\\');
                }
                current.push(c);
                escape = false;
            }
        }
        assert(sql@.take(sql@.len() as int) =~= sql@);
        if !is_blank(&current) {
            let ghost before = statements.deep_view();
            statements.push(trim_chars(&current));
            assert(statements.deep_view() =~= before.push(trimmed(current@)));
        }
        statements
    }
}

} // verus!
