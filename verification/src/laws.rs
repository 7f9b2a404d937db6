//! Laws of the grammar: what holds of every input.

use crate::ast::IdentifierAst;
use crate::chars::{
    alphanumeric, byte_offset, decimal_digit, hex_digit, id_continue, id_start,
    lemma_byte_offset_grows,
};
use crate::diagnostics::Node;
use crate::grammar::cursor::{Cursor, Input};
use crate::grammar::expressions::{
    continues, expression_at, expression_list_rest, infix_rest, infix_step_at, lemma_binary_at,
    lemma_expression_at, lemma_expression_list_rest, lemma_infix_rest, lemma_infix_step_at,
    lemma_prefix_at, prefix_at,
};
use crate::grammar::patterns::{is_literal, lemma_literal_at, literal_at};
use crate::model::{ExpressionModel, LiteralModel, ModuleModel};
use crate::rendering::module_text;
use crate::operator::{
    binary_operator_of, infix_operator, precedence_of, BinaryOperator, Precedence,
};
use crate::scan::{
    char_at, char_rest, decimal_value, digits_end, escape, exponent_end, fraction_end, hex_prefix,
    line_end, name_end, punctuator_at, scan_at, string_rest, wrapped_end, EscapeScan, Lexeme,
};
use crate::span::Span;
use crate::token::{keyword_of, Keyword, Punctuator, RawToken, Token};
use vstd::prelude::*;

verus! {

/// Whether a token is an operand by itself: a literal or a name.
pub open spec fn is_atom(raw: RawToken) -> bool {
    is_literal(raw) || raw is Identifier
}

/// The expression that a token which is an operand by itself stands for.
pub open spec fn atom(inp: Input, token: Token) -> ExpressionModel {
    let span = token.span;
    match token.raw {
        RawToken::Identifier(symbol) => ExpressionModel::Identifier(IdentifierAst { span, symbol }),
        RawToken::IntegerLiteral(value) => ExpressionModel::Literal(
            LiteralModel::Integer { value, span },
        ),
        RawToken::FloatLiteral(symbol) => ExpressionModel::Literal(
            LiteralModel::Float { value: inp.text(symbol), span },
        ),
        RawToken::StringLiteral(symbol) => ExpressionModel::Literal(
            LiteralModel::String { value: inp.text(symbol), span },
        ),
        RawToken::CharLiteral(value) => ExpressionModel::Literal(
            LiteralModel::Character { value, span },
        ),
        _ => ExpressionModel::Literal(
            LiteralModel::Boolean { value: token.raw == RawToken::Keyword(Keyword::True), span },
        ),
    }
}

/// The expression of two operands and the operator `operator` between
/// them, where the last token of the right operand ends at byte `end`.
pub open spec fn binary(
    left: ExpressionModel,
    operator: Token,
    right: ExpressionModel,
    end: usize,
) -> ExpressionModel {
    ExpressionModel::Binary {
        span: Span { start: left.span().start, end, file_id: left.span().file_id },
        left: Box::new(left),
        operator: BinaryOperator {
            span: operator.span,
            raw: binary_operator_of(operator.raw->Punctuator_0)->0,
        },
        right: Box::new(right),
    }
}

/// The cursor `k` tokens after `c`, with the diagnostics of `c`.
pub open spec fn ahead(c: Cursor, k: int) -> Cursor {
    Cursor { pos: c.pos + k, diagnostics: c.diagnostics }
}

/// A token that is an operand by itself is read as the expression it
/// stands for, and it alone is consumed.
pub proof fn lemma_atom_is_read(inp: Input, c: Cursor, allow_struct: bool)
    requires
        0 <= c.pos < inp.tokens.len(),
        is_atom(inp.peek(c).raw),
    ensures
        prefix_at(inp, c, allow_struct) == c.done(ahead(c, 1), atom(inp, inp.peek(c))),
{
    lemma_prefix_at(inp, c, allow_struct);
    lemma_literal_at(inp, c);
}

/// Where the next token binds no more tightly than `min`, or continues no
/// expression at all, the expression ends with the operand read so far.
pub proof fn lemma_expression_ends(
    inp: Input,
    c: Cursor,
    left: ExpressionModel,
    min: int,
    allow_struct: bool,
)
    requires
        precedence_of(inp.peek(c).raw).spec_level() <= min,
    ensures
        infix_rest(inp, c, left, min, allow_struct) == c.done(c, left),
{
    lemma_infix_rest(inp, c, left, min, allow_struct);
}

/// An operator between two operands, the right one a single token after
/// which no token binds more tightly than the operator, is read as the
/// expression of the two operands, and two tokens are consumed.
pub proof fn lemma_operator_and_atom(
    inp: Input,
    c: Cursor,
    left: ExpressionModel,
    allow_struct: bool,
)
    requires
        0 <= c.pos,
        c.pos + 1 < inp.tokens.len(),
        infix_operator(inp.peek(c).raw),
        is_atom(inp.peek_at(c, 1).raw),
        precedence_of(inp.peek_at(c, 2).raw).spec_level() <= precedence_of(
            inp.peek(c).raw,
        ).spec_level(),
    ensures
        infix_step_at(inp, c, left, allow_struct) == c.done(
            ahead(c, 2),
            binary(
                left,
                inp.peek(c),
                atom(inp, inp.peek_at(c, 1)),
                inp.peek_at(c, 1).span.end,
            ),
        ),
{
    let level = precedence_of(inp.peek(c).raw).spec_level() as int;
    let c1 = ahead(c, 1);
    let c2 = ahead(c, 2);
    let right = atom(inp, inp.peek(c1));
    lemma_infix_step_at(inp, c, left, allow_struct);
    lemma_binary_at(inp, c, left, allow_struct);
    assert(c.bump(inp) == c1);
    lemma_expression_at(inp, c1, level, allow_struct);
    lemma_atom_is_read(inp, c1, allow_struct);
    assert(c1.after(prefix_at(inp, c1, allow_struct)) == c2);
    lemma_expression_ends(inp, c2, right, level, allow_struct);
    assert(expression_at(inp, c1, level, allow_struct) == c1.done(c2, right));
    assert(c1.after(expression_at(inp, c1, level, allow_struct)) == c2);
}

/// Of two operators between three operands, the one that binds more
/// tightly groups its operands first; where both bind alike, the left one
/// does.
///
/// The tokens from `c` on are an operand `a`, an operator, an operand `b`,
/// a second operator, an operand `d`, and a token that continues no
/// expression; each operand is one token. If the second operator binds
/// more tightly than the first, the expression is `a`, the first operator
/// and the expression of `b`, the second operator and `d`. Else it is the
/// expression of `a`, the first operator and `b`, then the second operator
/// and `d`. In both cases the five tokens are consumed and nothing is
/// reported.
pub proof fn lemma_tighter_operator_groups_first(inp: Input, c: Cursor, allow_struct: bool)
    requires
        0 <= c.pos,
        c.pos + 4 < inp.tokens.len(),
        is_atom(inp.peek_at(c, 0).raw),
        infix_operator(inp.peek_at(c, 1).raw),
        is_atom(inp.peek_at(c, 2).raw),
        infix_operator(inp.peek_at(c, 3).raw),
        is_atom(inp.peek_at(c, 4).raw),
        precedence_of(inp.peek_at(c, 5).raw) == Precedence::Lowest,
    ensures
        ({
            let a = atom(inp, inp.peek_at(c, 0));
            let first = inp.peek_at(c, 1);
            let b = atom(inp, inp.peek_at(c, 2));
            let second = inp.peek_at(c, 3);
            let d = atom(inp, inp.peek_at(c, 4));
            let b_end = inp.peek_at(c, 2).span.end;
            let d_end = inp.peek_at(c, 4).span.end;
            let tighter = precedence_of(second.raw).spec_level() > precedence_of(
                first.raw,
            ).spec_level();
            expression_at(inp, c, 0, allow_struct) == c.done(
                ahead(c, 5),
                if tighter {
                    binary(a, first, binary(b, second, d, d_end), d_end)
                } else {
                    binary(binary(a, first, b, b_end), second, d, d_end)
                },
            )
        }),
{
    let c1 = ahead(c, 1);
    let c2 = ahead(c, 2);
    let c3 = ahead(c, 3);
    let c4 = ahead(c, 4);
    let c5 = ahead(c, 5);
    let a = atom(inp, inp.peek(c));
    let first = inp.peek(c1);
    let b = atom(inp, inp.peek(c2));
    let second = inp.peek(c3);
    let d = atom(inp, inp.peek(c4));
    let b_end = inp.peek(c2).span.end;
    let d_end = inp.peek(c4).span.end;
    let low = precedence_of(first.raw).spec_level() as int;
    let high = precedence_of(second.raw).spec_level() as int;
    assert(ahead(c, 0) == c);
    lemma_expression_at(inp, c, 0, allow_struct);
    lemma_atom_is_read(inp, c, allow_struct);
    assert(c.after(prefix_at(inp, c, allow_struct)) == c1);
    lemma_infix_rest(inp, c1, a, 0, allow_struct);
    assert(continues(inp, c1, 0, allow_struct));
    if high > low {
        let bd = binary(b, second, d, d_end);
        // The first operator takes the whole of `b second d`.
        lemma_infix_step_at(inp, c1, a, allow_struct);
        lemma_binary_at(inp, c1, a, allow_struct);
        assert(c1.bump(inp) == c2);
        lemma_expression_at(inp, c2, low, allow_struct);
        lemma_atom_is_read(inp, c2, allow_struct);
        assert(c2.after(prefix_at(inp, c2, allow_struct)) == c3);
        lemma_infix_rest(inp, c3, b, low, allow_struct);
        assert(continues(inp, c3, low, allow_struct));
        assert(ahead(c3, 1) == c4 && ahead(c3, 2) == c5);
        lemma_operator_and_atom(inp, c3, b, allow_struct);
        assert(c3.after(infix_step_at(inp, c3, b, allow_struct)) == c5);
        lemma_expression_ends(inp, c5, bd, low, allow_struct);
        assert(infix_rest(inp, c3, b, low, allow_struct) == c3.done(c5, bd));
        assert(expression_at(inp, c2, low, allow_struct) == c2.done(c5, bd));
        assert(c2.after(expression_at(inp, c2, low, allow_struct)) == c5);
        assert(infix_step_at(inp, c1, a, allow_struct) == c1.done(
            c5,
            binary(a, first, bd, d_end),
        ));
        assert(c1.after(infix_step_at(inp, c1, a, allow_struct)) == c5);
        lemma_expression_ends(inp, c5, binary(a, first, bd, d_end), 0, allow_struct);
    } else {
        let ab = binary(a, first, b, b_end);
        // The first operator takes `b` alone, and the second the result.
        assert(ahead(c1, 1) == c2 && ahead(c1, 2) == c3);
        lemma_operator_and_atom(inp, c1, a, allow_struct);
        assert(c1.after(infix_step_at(inp, c1, a, allow_struct)) == c3);
        lemma_infix_rest(inp, c3, ab, 0, allow_struct);
        assert(continues(inp, c3, 0, allow_struct));
        assert(ahead(c3, 1) == c4 && ahead(c3, 2) == c5);
        lemma_operator_and_atom(inp, c3, ab, allow_struct);
        assert(c3.after(infix_step_at(inp, c3, ab, allow_struct)) == c5);
        lemma_expression_ends(inp, c5, binary(ab, second, d, d_end), 0, allow_struct);
    }
}

/// A literal keeps the span of its token.
pub proof fn lemma_literal_keeps_span(inp: Input, c: Cursor)
    ensures
        literal_at(inp, c).value is Some ==> literal_at(inp, c).value->0.span() == inp.peek(
            c,
        ).span,
{
    lemma_literal_at(inp, c);
}

/// A list of expressions accepts a comma after its last element: where
/// the element that begins at `c` is followed by a comma and the closing
/// token, or by the closing token alone, the list after the elements
/// `before` holds `before` and that element, and reading it ends at the
/// closing token.
pub proof fn lemma_list_accepts_trailing_comma(
    inp: Input,
    c: Cursor,
    closer: Punctuator,
    node: Node,
    before: Seq<ExpressionModel>,
)
    requires
        expression_at(inp, c, 0, true).value is Some,
        closer != Punctuator::Comma,
        ({
            let end = c.after(expression_at(inp, c, 0, true));
            0 <= end.pos && end.pos + 1 < inp.tokens.len() && (inp.at(end, closer) || (inp.at(
                end,
                Punctuator::Comma,
            ) && inp.at(ahead(end, 1), closer)))
        }),
    ensures
        ({
            let element = expression_at(inp, c, 0, true);
            let end = c.after(element);
            let list = expression_list_rest(inp, c, closer, node, before);
            &&& list.value is Some
            &&& list.value->0.items == before.push(element.value->0)
            &&& list.value->0.trailing_comma == inp.at(end, Punctuator::Comma)
            &&& inp.at(c.after(list), closer)
            &&& list.diagnostics == element.diagnostics
        }),
{
    lemma_expression_list_rest(inp, c, closer, node, before);
}

/// The first position at or after `i` that holds no decimal digit is not
/// before `i` and not beyond the source.
pub proof fn lemma_digits_end_bounds(s: Seq<char>, i: int)
    requires
        0 <= i <= s.len(),
    ensures
        i <= digits_end(s, i) <= s.len(),
    decreases s.len() - i,
{
    if i < s.len() && decimal_digit(s[i]) {
        lemma_digits_end_bounds(s, i + 1);
    }
}

/// The decimal digits from `from` up to `to` spell a number that is not
/// negative, where `to` is not beyond the first position after `from` that
/// holds no digit.
pub proof fn lemma_decimal_value_not_negative(s: Seq<char>, from: int, to: int)
    requires
        0 <= from <= to <= digits_end(s, from),
        from <= s.len(),
    ensures
        0 <= decimal_value(s, from, to),
    decreases to - from,
{
    if from < to {
        lemma_decimal_value_not_negative(s, from, to - 1);
        lemma_digit_before_end(s, from, to - 1);
    }
}

/// Every position from `from` up to the first that holds no digit holds a
/// digit.
pub proof fn lemma_digit_before_end(s: Seq<char>, from: int, k: int)
    requires
        0 <= from <= k < digits_end(s, from),
        from <= s.len(),
    ensures
        0 <= k < s.len(),
        decimal_digit(s[k]),
    decreases k - from,
{
    if from < k {
        lemma_digit_before_end(s, from + 1, k);
    }
}

/// A string literal spans the characters from its opening quote to its
/// closing quote, both included.
pub proof fn lemma_string_literal_span(s: Seq<char>, open: int, i: int, text: Seq<char>)
    requires
        0 <= open < i <= s.len(),
    ensures
        string_rest(s, open, i, text).lexeme is StringLiteral || string_rest(
            s,
            open,
            i,
            text,
        ).lexeme is Error,
        string_rest(s, open, i, text).lexeme is StringLiteral ==> {
            let sc = string_rest(s, open, i, text);
            &&& open < sc.next <= s.len()
            &&& sc.start == byte_offset(s, open)
            &&& sc.end == byte_offset(s, sc.next)
            &&& s[sc.next - 1] == '"'
        },
    decreases s.len() - i,
{
    let c = char_at(s, i);
    if c == '\0' || c == '\n' {
    } else if c == '"' {
    } else if c == '\\' {
        match escape(s, i) {
            EscapeScan::Char { value, next } => {
                lemma_string_literal_span(s, open, next, text.push(value));
            },
            EscapeScan::Error { .. } => {},
        }
    } else {
        lemma_string_literal_span(s, open, i + 1, text.push(c));
    }
}

/// A character literal spans the characters from its opening quote to its
/// closing quote, both included.
pub proof fn lemma_char_literal_span(s: Seq<char>, open: int, i: int, count: int, last: char)
    requires
        0 <= open < i <= s.len(),
    ensures
        char_rest(s, open, i, count, last).lexeme is CharLiteral || char_rest(
            s,
            open,
            i,
            count,
            last,
        ).lexeme is Error,
        char_rest(s, open, i, count, last).lexeme is CharLiteral ==> {
            let sc = char_rest(s, open, i, count, last);
            &&& open < sc.next <= s.len()
            &&& sc.start == byte_offset(s, open)
            &&& sc.end == byte_offset(s, sc.next)
            &&& s[sc.next - 1] == '\''
        },
    decreases s.len() - i,
{
    let c = char_at(s, i);
    if c == '\'' {
    } else if c == '\0' || c == '\n' {
    } else if c == '\\' {
        match escape(s, i) {
            EscapeScan::Char { value, next } => {
                lemma_char_literal_span(s, open, next, count + 1, value);
            },
            EscapeScan::Error { .. } => {},
        }
    } else {
        lemma_char_literal_span(s, open, i + 1, count + 1, c);
    }
}

/// The span of a literal token covers the text of the literal, and the
/// text gives the literal back.
///
/// A literal token that is scanned from position `from`, which holds no
/// whitespace, begins at the byte offset of `from` and ends at the byte
/// offset of the position where scanning goes on. The characters between
/// the two are the literal as it is written: the digits that spell the
/// value of an integer, the characters of a number with a fraction, the
/// word `true` or `false`, or a text between its quotes.
pub proof fn lemma_literal_span_gives_text(s: Seq<char>, from: int)
    requires
        0 <= from <= s.len(),
    ensures
        ({
            let sc = scan_at(s, from);
            let covers = from < sc.next <= s.len() && sc.start == byte_offset(s, from) && sc.end
                == byte_offset(s, sc.next);
            &&& sc.lexeme matches Lexeme::IntegerLiteral(value) ==> covers && value
                == decimal_value(s, from, sc.next)
            &&& sc.lexeme matches Lexeme::FloatLiteral(text) ==> covers && text == s.subrange(
                from,
                sc.next,
            )
            &&& sc.lexeme matches Lexeme::Keyword(word) ==> covers && keyword_of(
                s.subrange(from, sc.next),
            ) == Some(word)
            &&& sc.lexeme is StringLiteral ==> covers && s[from] == '"' && s[sc.next - 1] == '"'
            &&& sc.lexeme is CharLiteral ==> covers && s[from] == '\'' && s[sc.next - 1] == '\''
        }),
{
    let c = char_at(s, from);
    let n = char_at(s, from + 1);
    if c == '\0' {
    } else if c == '"' {
        lemma_string_literal_span(s, from, from + 1, Seq::empty());
    } else if c == '\'' {
        lemma_char_literal_span(s, from, from + 1, 0, '\0');
    } else if c == '`' {
    } else if c == '/' && n == '/' {
    } else if punctuator_at(c, n) is Some {
    } else if decimal_digit(c) || (c == '.' && decimal_digit(n)) {
        let whole = digits_end(s, from);
        lemma_digits_end_bounds(s, from);
        if from + 1 <= s.len() {
            lemma_digits_end_bounds(s, from + 1);
        }
        lemma_decimal_value_not_negative(s, from, whole);
        let mantissa = fraction_end(s, whole);
        if whole + 1 <= s.len() {
            lemma_digits_end_bounds(s, whole + 1);
        }
        let e = exponent_end(s, mantissa);
        if mantissa + 1 <= s.len() {
            lemma_digits_end_bounds(s, mantissa + 1);
        }
        if mantissa + 2 <= s.len() {
            lemma_digits_end_bounds(s, mantissa + 2);
        }
    } else if id_start(c) {
        lemma_name_end_bounds(s, from + 1);
    } else {
    }
}

/// The first position at or after `i` that cannot continue an identifier
/// is not before `i` and not beyond the source.
pub proof fn lemma_name_end_bounds(s: Seq<char>, i: int)
    requires
        0 <= i <= s.len(),
    ensures
        i <= name_end(s, i) <= s.len(),
    decreases s.len() - i,
{
    if i < s.len() && s[i] != '\0' && id_continue(s[i]) {
        lemma_name_end_bounds(s, i + 1);
    }
}

/// The first position at or after `i` that ends a line is not before `i`
/// and not beyond the source.
pub proof fn lemma_line_end_bounds(s: Seq<char>, i: int)
    requires
        0 <= i <= s.len(),
    ensures
        i <= line_end(s, i) <= s.len(),
    decreases s.len() - i,
{
    if i < s.len() && s[i] != '\n' && s[i] != '\0' {
        lemma_line_end_bounds(s, i + 1);
    }
}

/// The first position at or after `i` that ends an identifier between
/// backticks is not before `i` and not beyond the source.
pub proof fn lemma_wrapped_end_bounds(s: Seq<char>, i: int)
    requires
        0 <= i <= s.len(),
    ensures
        i <= wrapped_end(s, i) <= s.len(),
    decreases s.len() - i,
{
    if i < s.len() && s[i] != '\0' && (alphanumeric(s[i]) || s[i] == '_') {
        lemma_wrapped_end_bounds(s, i + 1);
    }
}

/// The hexadecimal digits that are counted from position `i` on stand
/// within the source.
pub proof fn lemma_hex_prefix_bounds(s: Seq<char>, i: int, n: int)
    requires
        0 <= i <= s.len(),
    ensures
        0 <= hex_prefix(s, i, n),
        i + hex_prefix(s, i, n) <= s.len(),
        n >= 0 ==> hex_prefix(s, i, n) <= n,
    decreases n,
{
    if n > 0 && hex_digit(char_at(s, i)) {
        lemma_hex_prefix_bounds(s, i + 1, n - 1);
    }
}

/// Decoding the escape sequence whose backslash stands at position `i`
/// goes on after the backslash and not beyond the source.
pub proof fn lemma_escape_bounds(s: Seq<char>, i: int)
    requires
        0 <= i < s.len(),
    ensures
        match escape(s, i) {
            EscapeScan::Char { value, next } => i < next <= s.len(),
            EscapeScan::Error { kind, at, next } => i < next <= s.len(),
        },
{
    if i + 3 <= s.len() {
        lemma_hex_prefix_bounds(s, i + 3, 2);
        lemma_hex_prefix_bounds(s, i + 3, 4);
        lemma_hex_prefix_bounds(s, i + 3, 8);
    }
}

/// What is left of a string literal ends after its opening quote: the
/// token that it gives spans at least one byte, and scanning goes on after
/// the opening quote and not beyond the source.
pub proof fn lemma_string_rest_span(s: Seq<char>, open: int, i: int, text: Seq<char>)
    requires
        0 <= open < i <= s.len(),
    ensures
        string_rest(s, open, i, text).start < string_rest(s, open, i, text).end,
        open < string_rest(s, open, i, text).next <= s.len(),
    decreases s.len() - i,
{
    let c = char_at(s, i);
    lemma_byte_offset_grows(s, open, i);
    if c == '\0' || c == '\n' {
    } else if c == '"' {
        lemma_byte_offset_grows(s, i, i + 1);
    } else if c == '\\' {
        lemma_escape_bounds(s, i);
        match escape(s, i) {
            EscapeScan::Char { value, next } => {
                lemma_string_rest_span(s, open, next, text.push(value));
            },
            EscapeScan::Error { .. } => {},
        }
    } else {
        lemma_string_rest_span(s, open, i + 1, text.push(c));
    }
}

/// What is left of a character literal ends after its opening quote: the
/// token that it gives spans at least one byte, and scanning goes on after
/// the opening quote and not beyond the source.
pub proof fn lemma_char_rest_span(s: Seq<char>, open: int, i: int, count: int, last: char)
    requires
        0 <= open < i <= s.len(),
    ensures
        char_rest(s, open, i, count, last).start < char_rest(s, open, i, count, last).end,
        open < char_rest(s, open, i, count, last).next <= s.len(),
    decreases s.len() - i,
{
    let c = char_at(s, i);
    lemma_byte_offset_grows(s, open, i);
    if c == '\'' {
        lemma_byte_offset_grows(s, i, i + 1);
    } else if c == '\0' || c == '\n' {
    } else if c == '\\' {
        lemma_escape_bounds(s, i);
        match escape(s, i) {
            EscapeScan::Char { value, next } => {
                lemma_char_rest_span(s, open, next, count + 1, value);
            },
            EscapeScan::Error { .. } => {},
        }
    } else {
        lemma_char_rest_span(s, open, i + 1, count + 1, c);
    }
}

/// The span of every token ends after its start, and scanning never goes
/// back: the token that is scanned from position `from`, which holds no
/// whitespace, spans at least one byte, and scanning goes on at a position
/// that is not before `from` and not beyond the source.
pub proof fn lemma_token_span_is_ordered(s: Seq<char>, from: int)
    requires
        0 <= from <= s.len(),
    ensures
        scan_at(s, from).start < scan_at(s, from).end,
        from <= scan_at(s, from).next <= s.len(),
{
    let c = char_at(s, from);
    let n = char_at(s, from + 1);
    if c == '\0' {
    } else if c == '"' {
        lemma_string_rest_span(s, from, from + 1, Seq::empty());
    } else if c == '\'' {
        lemma_char_rest_span(s, from, from + 1, 0, '\0');
    } else if c == '`' {
        let e = wrapped_end(s, from + 1);
        lemma_wrapped_end_bounds(s, from + 1);
        lemma_byte_offset_grows(s, from, e);
        if e < s.len() {
            lemma_byte_offset_grows(s, from, e + 1);
        }
    } else if c == '/' && n == '/' {
        let third = char_at(s, from + 2);
        if third == '!' || third == '/' {
            lemma_line_end_bounds(s, from + 3);
            lemma_byte_offset_grows(s, from, line_end(s, from + 3));
        } else {
            lemma_line_end_bounds(s, from + 2);
            lemma_byte_offset_grows(s, from, line_end(s, from + 2));
        }
    } else if punctuator_at(c, n) is Some {
    } else if decimal_digit(c) || (c == '.' && decimal_digit(n)) {
        let whole = digits_end(s, from);
        lemma_digits_end_bounds(s, from);
        if from + 1 <= s.len() {
            lemma_digits_end_bounds(s, from + 1);
        }
        let mantissa = fraction_end(s, whole);
        if whole + 1 <= s.len() {
            lemma_digits_end_bounds(s, whole + 1);
        }
        let e = exponent_end(s, mantissa);
        if mantissa + 1 <= s.len() {
            lemma_digits_end_bounds(s, mantissa + 1);
        }
        if mantissa + 2 <= s.len() {
            lemma_digits_end_bounds(s, mantissa + 2);
        }
        lemma_byte_offset_grows(s, from, e);
        if e < s.len() {
            lemma_byte_offset_grows(s, from, e + 1);
        }
    } else if id_start(c) {
        lemma_name_end_bounds(s, from + 1);
        lemma_byte_offset_grows(s, from, name_end(s, from + 1));
    } else {
    }
}

/// The text of a module depends on the module and on the texts of its
/// symbols alone: writing equal modules with equal tables of texts at equal
/// indentations gives equal texts.
pub proof fn lemma_same_module_same_text(
    first: ModuleModel,
    second: ModuleModel,
    names: Seq<Seq<char>>,
    other_names: Seq<Seq<char>>,
    indent: int,
)
    requires
        first == second,
        names == other_names,
    ensures
        module_text(first, names, indent) == module_text(second, other_names, indent),
{
}

} // verus!
