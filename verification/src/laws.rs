//! Proved properties of the scan as a whole.
//!
//! The lemmas here state what holds of [`spec_tokens`] for every input —
//! totality of the scan, the single terminal end-of-input token, the
//! behaviour on blank input, maximal munch, position ordering and
//! determinism — and prove it by induction over the classification steps of
//! [`spec_tokens_from`].

use vstd::prelude::*;
use crate::tokenize::{
    is_pair_start,
    is_skip_char,
    newline_count,
    newline_count_from,
    one_char_kind,
    spec_tokens,
    spec_tokens_from,
    two_char_kind,
    SpecToken,
    TokenType,
};

verus! {

/// The single-character punctuation marks of the grammar.
pub open spec fn is_punctuation_char(c: char) -> bool {
    ||| c == '('
    ||| c == ')'
    ||| c == '{'
    ||| c == '}'
    ||| c == '.'
    ||| c == ','
    ||| c == ';'
    ||| c == '+'
    ||| c == '-'
    ||| c == '*'
}

/// Position order on tokens: `a` was produced no later than `b` when it
/// lies on an earlier line, or on the same line at a column no further
/// right.
pub open spec fn position_le(a: SpecToken, b: SpecToken) -> bool {
    a.line < b.line || (a.line == b.line && a.column <= b.column)
}

/// A token position at or after the cursor position `(line, column)`.
pub open spec fn position_from(t: SpecToken, line: int, column: int) -> bool {
    t.line > line || (t.line == line && t.column >= column)
}

/// Every scan is total and ends with exactly one end-of-input token: the
/// result is never empty, its last token is `EOF`, and no earlier token is.
pub proof fn lemma_ends_with_single_eof(s: Seq<char>)
    ensures
        spec_tokens(s).len() >= 1,
        spec_tokens(s).last().kind == TokenType::EOF,
        forall|j: int|
            0 <= j < spec_tokens(s).len() - 1 ==> spec_tokens(s)[j].kind != TokenType::EOF,
{
    lemma_from_ends_with_single_eof(s, 0, 1, 0);
}

proof fn lemma_from_ends_with_single_eof(s: Seq<char>, i: int, line: int, column: int)
    ensures
        spec_tokens_from(s, i, line, column).len() >= 1,
        spec_tokens_from(s, i, line, column).last().kind == TokenType::EOF,
        forall|j: int|
            0 <= j < spec_tokens_from(s, i, line, column).len() - 1 ==> spec_tokens_from(
                s,
                i,
                line,
                column,
            )[j].kind != TokenType::EOF,
    decreases s.len() - i,
{
    if i < 0 || i >= s.len() {
    } else if is_skip_char(s[i]) {
        lemma_from_ends_with_single_eof(s, i + 1, line, column + 1);
    } else if s[i] == '\n' {
        lemma_from_ends_with_single_eof(s, i + 1, line + 1, 0);
    } else if is_pair_start(s[i]) && i + 1 < s.len() && s[i + 1] == '=' {
        lemma_from_ends_with_single_eof(s, i + 2, line, column + 2);
    } else {
        lemma_from_ends_with_single_eof(s, i + 1, line, column + 1);
    }
}

/// An input consisting only of whitespace and newlines yields exactly one
/// token: the end-of-input token, on line `1 + newline_count(s)`.
pub proof fn lemma_whitespace_only(s: Seq<char>)
    requires
        forall|j: int| 0 <= j < s.len() ==> is_skip_char(s[j]) || s[j] == '\n',
    ensures
        spec_tokens(s).len() == 1,
        spec_tokens(s)[0].kind == TokenType::EOF,
        spec_tokens(s)[0].line == 1 + newline_count(s),
{
    lemma_from_whitespace_only(s, 0, 1, 0);
}

proof fn lemma_from_whitespace_only(s: Seq<char>, i: int, line: int, column: int)
    requires
        forall|j: int| i <= j < s.len() ==> is_skip_char(s[j]) || s[j] == '\n',
    ensures
        spec_tokens_from(s, i, line, column).len() == 1,
        spec_tokens_from(s, i, line, column)[0].kind == TokenType::EOF,
        spec_tokens_from(s, i, line, column)[0].line == line + newline_count_from(s, i),
    decreases s.len() - i,
{
    if i < 0 || i >= s.len() {
    } else if is_skip_char(s[i]) {
        lemma_from_whitespace_only(s, i + 1, line, column + 1);
    } else {
        lemma_from_whitespace_only(s, i + 1, line + 1, 0);
    }
}

/// Scanning one punctuation character alone yields exactly one token of the
/// matching kind, with that character as lexeme, at line 1, column 1,
/// followed by the end-of-input token at the position after the consumed
/// character.
pub proof fn lemma_single_punctuation(c: char)
    ensures
        is_punctuation_char(c) ==> spec_tokens(seq![c]) =~= seq![
            SpecToken { kind: one_char_kind(c), lexeme: seq![c], line: 1, column: 1 },
            SpecToken { kind: TokenType::EOF, lexeme: Seq::empty(), line: 1, column: 1 },
        ],
{
    reveal_with_fuel(spec_tokens_from, 3);
}

/// Maximal munch: an input beginning with one of `== != <= >=` yields the
/// two-character operator token first — never two one-character tokens —
/// and the remaining tokens are exactly the scan of the rest of the input.
pub proof fn lemma_maximal_munch_pair(s: Seq<char>)
    requires
        s.len() >= 2,
        is_pair_start(s[0]),
        s[1] == '=',
    ensures
        spec_tokens(s) =~= seq![
            SpecToken { kind: two_char_kind(s[0]), lexeme: seq![s[0], '='], line: 1, column: 2 },
        ] + spec_tokens_from(s, 2, 1, 2),
{
    reveal_with_fuel(spec_tokens_from, 2);
}

/// An input beginning with one of `= ! < >` whose next character, if any,
/// is not `=` yields the one-character operator token first, with that
/// character alone as lexeme; the character after it starts a new token,
/// scanned from the following cursor position.
pub proof fn lemma_operator_then_other(s: Seq<char>)
    requires
        s.len() >= 1,
        is_pair_start(s[0]),
        s.len() >= 2 ==> s[1] != '=',
    ensures
        spec_tokens(s) =~= seq![
            SpecToken { kind: one_char_kind(s[0]), lexeme: seq![s[0]], line: 1, column: 1 },
        ] + spec_tokens_from(s, 1, 1, 1),
{
    reveal_with_fuel(spec_tokens_from, 2);
}

/// Tokens are produced in non-decreasing order of their `(line, column)`
/// positions: scanning never moves backwards.
pub proof fn lemma_positions_nondecreasing(s: Seq<char>)
    ensures
        forall|j: int, k: int|
            0 <= j <= k < spec_tokens(s).len() ==> position_le(
                spec_tokens(s)[j],
                spec_tokens(s)[k],
            ),
{
    lemma_from_positions_nondecreasing(s, 0, 1, 0);
}

proof fn lemma_from_positions_nondecreasing(s: Seq<char>, i: int, line: int, column: int)
    ensures
        forall|j: int|
            0 <= j < spec_tokens_from(s, i, line, column).len() ==> position_from(
                spec_tokens_from(s, i, line, column)[j],
                line,
                column,
            ),
        forall|j: int, k: int|
            0 <= j <= k < spec_tokens_from(s, i, line, column).len() ==> position_le(
                spec_tokens_from(s, i, line, column)[j],
                spec_tokens_from(s, i, line, column)[k],
            ),
    decreases s.len() - i,
{
    let r = spec_tokens_from(s, i, line, column);
    if i < 0 || i >= s.len() {
    } else if is_skip_char(s[i]) {
        lemma_from_positions_nondecreasing(s, i + 1, line, column + 1);
        let tail = spec_tokens_from(s, i + 1, line, column + 1);
        assert(r == tail);
        assert forall|j: int| 0 <= j < r.len() implies position_from(r[j], line, column) by {
            assert(position_from(tail[j], line, column + 1));
        }
        assert forall|j: int, k: int| 0 <= j <= k < r.len() implies position_le(r[j], r[k]) by {
            assert(position_le(tail[j], tail[k]));
        }
    } else if s[i] == '\n' {
        lemma_from_positions_nondecreasing(s, i + 1, line + 1, 0);
        let tail = spec_tokens_from(s, i + 1, line + 1, 0);
        assert(r == tail);
        assert forall|j: int| 0 <= j < r.len() implies position_from(r[j], line, column) by {
            assert(position_from(tail[j], line + 1, 0));
        }
        assert forall|j: int, k: int| 0 <= j <= k < r.len() implies position_le(r[j], r[k]) by {
            assert(position_le(tail[j], tail[k]));
        }
    } else if is_pair_start(s[i]) && i + 1 < s.len() && s[i + 1] == '=' {
        lemma_from_positions_nondecreasing(s, i + 2, line, column + 2);
        lemma_prepend_positions(
            spec_tokens_from(s, i, line, column),
            spec_tokens_from(s, i + 2, line, column + 2),
            line,
            column,
            column + 2,
        );
    } else {
        lemma_from_positions_nondecreasing(s, i + 1, line, column + 1);
        lemma_prepend_positions(
            spec_tokens_from(s, i, line, column),
            spec_tokens_from(s, i + 1, line, column + 1),
            line,
            column,
            column + 1,
        );
    }
}

/// The ordering obligations for one classification step that produces a
/// token: `r` is that token — positioned at `(line, consumed)`, at or after
/// the cursor position `(line, column)` — followed by `tail`, whose tokens
/// all lie at or after `(line, consumed)` and are already ordered.
proof fn lemma_prepend_positions(
    r: Seq<SpecToken>,
    tail: Seq<SpecToken>,
    line: int,
    column: int,
    consumed: int,
)
    requires
        column <= consumed,
        r.len() == 1 + tail.len(),
        r[0].line == line,
        r[0].column == consumed,
        forall|j: int| 0 <= j < tail.len() ==> r[j + 1] == tail[j],
        forall|j: int| 0 <= j < tail.len() ==> position_from(#[trigger] tail[j], line, consumed),
        forall|j: int, k: int|
            0 <= j <= k < tail.len() ==> position_le(#[trigger] tail[j], #[trigger] tail[k]),
    ensures
        forall|j: int| 0 <= j < r.len() ==> position_from(#[trigger] r[j], line, column),
        forall|j: int, k: int|
            0 <= j <= k < r.len() ==> position_le(#[trigger] r[j], #[trigger] r[k]),
{
    assert forall|j: int| 0 <= j < r.len() implies position_from(#[trigger] r[j], line, column) by {
        if j > 0 {
            assert(r[j] == tail[j - 1]);
        }
    }
    assert forall|j: int, k: int| 0 <= j <= k < r.len() implies position_le(
        #[trigger] r[j],
        #[trigger] r[k],
    ) by {
        if j == 0 {
            if k > 0 {
                assert(r[k] == tail[k - 1]);
                assert(position_from(tail[k - 1], line, consumed));
            }
        } else {
            assert(r[j] == tail[j - 1]);
            assert(r[k] == tail[k - 1]);
        }
    }
}

/// Determinism: the token sequence is a function of the source text alone,
/// so two scans of the same input — by two fresh tokenizers — always yield
/// identical results.
pub proof fn lemma_scan_deterministic(s: Seq<char>, first: Seq<SpecToken>, second: Seq<SpecToken>)
    requires
        first == spec_tokens(s),
        second == spec_tokens(s),
    ensures
        first == second,
{
}

} // verus!
