//! Operators and how tightly they bind.

use crate::span::Span;
use crate::token::{Keyword, Punctuator, RawToken};
use vstd::prelude::*;

verus! {

/// An operator between two operands.
#[derive(Debug, PartialEq, Copy, Clone, Eq, Hash, Structural)]
pub enum RawBinaryOperator {
    PlusEq,
    Plus,
    MinusEq,
    Minus,
    StarStar,
    StarEq,
    Star,
    SlashEq,
    Slash,
    NotEq,
    Bang,
    RightShift,
    LeftShift,
    LessEq,
    Less,
    GreaterEq,
    Greater,
    EqEq,
    Eq,
    Or,
    And,
    OrOr,
    AndAnd,
    OrEq,
    AndEq,
    Percent,
    PercentEq,
}

/// A binary operator and its place.
#[derive(Debug, PartialEq, Copy, Clone, Eq, Hash, Structural)]
pub struct BinaryOperator {
    pub span: Span,
    pub raw: RawBinaryOperator,
}

/// The binary operator that a punctuator stands for, if it stands for one.
pub open spec fn binary_operator_of(p: Punctuator) -> Option<RawBinaryOperator> {
    match p {
        Punctuator::PlusEq => Some(RawBinaryOperator::PlusEq),
        Punctuator::Plus => Some(RawBinaryOperator::Plus),
        Punctuator::MinusEq => Some(RawBinaryOperator::MinusEq),
        Punctuator::Minus => Some(RawBinaryOperator::Minus),
        Punctuator::StarStar => Some(RawBinaryOperator::StarStar),
        Punctuator::StarEq => Some(RawBinaryOperator::StarEq),
        Punctuator::Star => Some(RawBinaryOperator::Star),
        Punctuator::SlashEq => Some(RawBinaryOperator::SlashEq),
        Punctuator::Slash => Some(RawBinaryOperator::Slash),
        Punctuator::NotEq => Some(RawBinaryOperator::NotEq),
        Punctuator::Bang => Some(RawBinaryOperator::Bang),
        Punctuator::RightShift => Some(RawBinaryOperator::RightShift),
        Punctuator::LeftShift => Some(RawBinaryOperator::LeftShift),
        Punctuator::LessEq => Some(RawBinaryOperator::LessEq),
        Punctuator::Less => Some(RawBinaryOperator::Less),
        Punctuator::GreaterEq => Some(RawBinaryOperator::GreaterEq),
        Punctuator::Greater => Some(RawBinaryOperator::Greater),
        Punctuator::EqEq => Some(RawBinaryOperator::EqEq),
        Punctuator::Eq => Some(RawBinaryOperator::Eq),
        Punctuator::Or => Some(RawBinaryOperator::Or),
        Punctuator::And => Some(RawBinaryOperator::And),
        Punctuator::OrOr => Some(RawBinaryOperator::OrOr),
        Punctuator::AndAnd => Some(RawBinaryOperator::AndAnd),
        Punctuator::OrEq => Some(RawBinaryOperator::OrEq),
        Punctuator::AndEq => Some(RawBinaryOperator::AndEq),
        Punctuator::Percent => Some(RawBinaryOperator::Percent),
        Punctuator::PercentEq => Some(RawBinaryOperator::PercentEq),
        _ => None,
    }
}

impl RawBinaryOperator {
    /// The punctuator that spells the operator.
    pub open spec fn punctuator(self) -> Punctuator {
        match self {
            RawBinaryOperator::PlusEq => Punctuator::PlusEq,
            RawBinaryOperator::Plus => Punctuator::Plus,
            RawBinaryOperator::MinusEq => Punctuator::MinusEq,
            RawBinaryOperator::Minus => Punctuator::Minus,
            RawBinaryOperator::StarStar => Punctuator::StarStar,
            RawBinaryOperator::StarEq => Punctuator::StarEq,
            RawBinaryOperator::Star => Punctuator::Star,
            RawBinaryOperator::SlashEq => Punctuator::SlashEq,
            RawBinaryOperator::Slash => Punctuator::Slash,
            RawBinaryOperator::NotEq => Punctuator::NotEq,
            RawBinaryOperator::Bang => Punctuator::Bang,
            RawBinaryOperator::RightShift => Punctuator::RightShift,
            RawBinaryOperator::LeftShift => Punctuator::LeftShift,
            RawBinaryOperator::LessEq => Punctuator::LessEq,
            RawBinaryOperator::Less => Punctuator::Less,
            RawBinaryOperator::GreaterEq => Punctuator::GreaterEq,
            RawBinaryOperator::Greater => Punctuator::Greater,
            RawBinaryOperator::EqEq => Punctuator::EqEq,
            RawBinaryOperator::Eq => Punctuator::Eq,
            RawBinaryOperator::Or => Punctuator::Or,
            RawBinaryOperator::And => Punctuator::And,
            RawBinaryOperator::OrOr => Punctuator::OrOr,
            RawBinaryOperator::AndAnd => Punctuator::AndAnd,
            RawBinaryOperator::OrEq => Punctuator::OrEq,
            RawBinaryOperator::AndEq => Punctuator::AndEq,
            RawBinaryOperator::Percent => Punctuator::Percent,
            RawBinaryOperator::PercentEq => Punctuator::PercentEq,
        }
    }

    /// The operator that the token stands for, if it stands for one.
    pub fn from_token(token: RawToken) -> (r: Option<Self>)
        ensures
            r == match token {
                RawToken::Punctuator(p) => binary_operator_of(p),
                _ => None,
            },
    {
        match token {
            RawToken::Punctuator(Punctuator::PlusEq) => Some(RawBinaryOperator::PlusEq),
            RawToken::Punctuator(Punctuator::Plus) => Some(RawBinaryOperator::Plus),
            RawToken::Punctuator(Punctuator::MinusEq) => Some(RawBinaryOperator::MinusEq),
            RawToken::Punctuator(Punctuator::Minus) => Some(RawBinaryOperator::Minus),
            RawToken::Punctuator(Punctuator::StarStar) => Some(RawBinaryOperator::StarStar),
            RawToken::Punctuator(Punctuator::StarEq) => Some(RawBinaryOperator::StarEq),
            RawToken::Punctuator(Punctuator::Star) => Some(RawBinaryOperator::Star),
            RawToken::Punctuator(Punctuator::SlashEq) => Some(RawBinaryOperator::SlashEq),
            RawToken::Punctuator(Punctuator::Slash) => Some(RawBinaryOperator::Slash),
            RawToken::Punctuator(Punctuator::NotEq) => Some(RawBinaryOperator::NotEq),
            RawToken::Punctuator(Punctuator::Bang) => Some(RawBinaryOperator::Bang),
            RawToken::Punctuator(Punctuator::RightShift) => Some(RawBinaryOperator::RightShift),
            RawToken::Punctuator(Punctuator::LeftShift) => Some(RawBinaryOperator::LeftShift),
            RawToken::Punctuator(Punctuator::LessEq) => Some(RawBinaryOperator::LessEq),
            RawToken::Punctuator(Punctuator::Less) => Some(RawBinaryOperator::Less),
            RawToken::Punctuator(Punctuator::GreaterEq) => Some(RawBinaryOperator::GreaterEq),
            RawToken::Punctuator(Punctuator::Greater) => Some(RawBinaryOperator::Greater),
            RawToken::Punctuator(Punctuator::EqEq) => Some(RawBinaryOperator::EqEq),
            RawToken::Punctuator(Punctuator::Eq) => Some(RawBinaryOperator::Eq),
            RawToken::Punctuator(Punctuator::Or) => Some(RawBinaryOperator::Or),
            RawToken::Punctuator(Punctuator::And) => Some(RawBinaryOperator::And),
            RawToken::Punctuator(Punctuator::OrOr) => Some(RawBinaryOperator::OrOr),
            RawToken::Punctuator(Punctuator::AndAnd) => Some(RawBinaryOperator::AndAnd),
            RawToken::Punctuator(Punctuator::OrEq) => Some(RawBinaryOperator::OrEq),
            RawToken::Punctuator(Punctuator::AndEq) => Some(RawBinaryOperator::AndEq),
            RawToken::Punctuator(Punctuator::Percent) => Some(RawBinaryOperator::Percent),
            RawToken::Punctuator(Punctuator::PercentEq) => Some(RawBinaryOperator::PercentEq),
            _ => None,
        }
    }

    /// The operator that the token stands for. The token must stand for one.
    pub fn from(token: RawToken) -> (r: Self)
        requires
            token is Punctuator,
            binary_operator_of(token->Punctuator_0) is Some,
        ensures
            Some(r) == binary_operator_of(token->Punctuator_0),
            RawToken::Punctuator(r.punctuator()) == token,
    {
        match Self::from_token(token) {
            Some(operator) => operator,
            None => RawBinaryOperator::PlusEq,
        }
    }

    /// The token that spells the operator.
    pub fn to_token(self) -> (r: RawToken)
        ensures
            r == RawToken::Punctuator(self.punctuator()),
            binary_operator_of(self.punctuator()) == Some(self),
    {
        match self {
            RawBinaryOperator::PlusEq => RawToken::Punctuator(Punctuator::PlusEq),
            RawBinaryOperator::Plus => RawToken::Punctuator(Punctuator::Plus),
            RawBinaryOperator::MinusEq => RawToken::Punctuator(Punctuator::MinusEq),
            RawBinaryOperator::Minus => RawToken::Punctuator(Punctuator::Minus),
            RawBinaryOperator::StarStar => RawToken::Punctuator(Punctuator::StarStar),
            RawBinaryOperator::StarEq => RawToken::Punctuator(Punctuator::StarEq),
            RawBinaryOperator::Star => RawToken::Punctuator(Punctuator::Star),
            RawBinaryOperator::SlashEq => RawToken::Punctuator(Punctuator::SlashEq),
            RawBinaryOperator::Slash => RawToken::Punctuator(Punctuator::Slash),
            RawBinaryOperator::NotEq => RawToken::Punctuator(Punctuator::NotEq),
            RawBinaryOperator::Bang => RawToken::Punctuator(Punctuator::Bang),
            RawBinaryOperator::RightShift => RawToken::Punctuator(Punctuator::RightShift),
            RawBinaryOperator::LeftShift => RawToken::Punctuator(Punctuator::LeftShift),
            RawBinaryOperator::LessEq => RawToken::Punctuator(Punctuator::LessEq),
            RawBinaryOperator::Less => RawToken::Punctuator(Punctuator::Less),
            RawBinaryOperator::GreaterEq => RawToken::Punctuator(Punctuator::GreaterEq),
            RawBinaryOperator::Greater => RawToken::Punctuator(Punctuator::Greater),
            RawBinaryOperator::EqEq => RawToken::Punctuator(Punctuator::EqEq),
            RawBinaryOperator::Eq => RawToken::Punctuator(Punctuator::Eq),
            RawBinaryOperator::Or => RawToken::Punctuator(Punctuator::Or),
            RawBinaryOperator::And => RawToken::Punctuator(Punctuator::And),
            RawBinaryOperator::OrOr => RawToken::Punctuator(Punctuator::OrOr),
            RawBinaryOperator::AndAnd => RawToken::Punctuator(Punctuator::AndAnd),
            RawBinaryOperator::OrEq => RawToken::Punctuator(Punctuator::OrEq),
            RawBinaryOperator::AndEq => RawToken::Punctuator(Punctuator::AndEq),
            RawBinaryOperator::Percent => RawToken::Punctuator(Punctuator::Percent),
            RawBinaryOperator::PercentEq => RawToken::Punctuator(Punctuator::PercentEq),
        }
    }

    /// The characters that spell the operator.
    pub fn as_str(self) -> (r: &'static str)
        ensures
            r@ == self.punctuator().text(),
    {
        match self.to_token() {
            RawToken::Punctuator(p) => p.as_str(),
            _ => "",
        }
    }
}

impl From<RawBinaryOperator> for RawToken {
    fn from(operator: RawBinaryOperator) -> (r: RawToken) {
        operator.to_token()
    }
}

impl vstd::std_specs::convert::FromSpecImpl<RawBinaryOperator> for RawToken {
    open spec fn obeys_from_spec() -> bool {
        true
    }

    open spec fn from_spec(operator: RawBinaryOperator) -> RawToken {
        RawToken::Punctuator(operator.punctuator())
    }
}

/// An operator before its operand.
#[derive(Debug, PartialEq, Copy, Clone, Eq, Hash, Structural)]
pub enum RawPrefixOperator {
    Bang,
    Not,
    PlusPlus,
    MinusMinus,
    Plus,
    Minus,
}

/// A prefix operator and its place.
#[derive(Debug, PartialEq, Copy, Clone, Eq, Hash, Structural)]
pub struct PrefixOperator {
    pub span: Span,
    pub raw: RawPrefixOperator,
}

/// The prefix operator that a punctuator stands for, if it stands for one.
pub open spec fn prefix_operator_of(p: Punctuator) -> Option<RawPrefixOperator> {
    match p {
        Punctuator::Bang => Some(RawPrefixOperator::Bang),
        Punctuator::Not => Some(RawPrefixOperator::Not),
        Punctuator::PlusPlus => Some(RawPrefixOperator::PlusPlus),
        Punctuator::MinusMinus => Some(RawPrefixOperator::MinusMinus),
        Punctuator::Plus => Some(RawPrefixOperator::Plus),
        Punctuator::Minus => Some(RawPrefixOperator::Minus),
        _ => None,
    }
}

impl RawPrefixOperator {
    /// The punctuator that spells the operator.
    pub open spec fn punctuator(self) -> Punctuator {
        match self {
            RawPrefixOperator::Bang => Punctuator::Bang,
            RawPrefixOperator::Not => Punctuator::Not,
            RawPrefixOperator::PlusPlus => Punctuator::PlusPlus,
            RawPrefixOperator::MinusMinus => Punctuator::MinusMinus,
            RawPrefixOperator::Plus => Punctuator::Plus,
            RawPrefixOperator::Minus => Punctuator::Minus,
        }
    }

    /// The operator that the token stands for, if it stands for one.
    pub fn from_token(token: RawToken) -> (r: Option<Self>)
        ensures
            r == match token {
                RawToken::Punctuator(p) => prefix_operator_of(p),
                _ => None,
            },
    {
        match token {
            RawToken::Punctuator(Punctuator::Bang) => Some(RawPrefixOperator::Bang),
            RawToken::Punctuator(Punctuator::Not) => Some(RawPrefixOperator::Not),
            RawToken::Punctuator(Punctuator::PlusPlus) => Some(RawPrefixOperator::PlusPlus),
            RawToken::Punctuator(Punctuator::MinusMinus) => Some(RawPrefixOperator::MinusMinus),
            RawToken::Punctuator(Punctuator::Plus) => Some(RawPrefixOperator::Plus),
            RawToken::Punctuator(Punctuator::Minus) => Some(RawPrefixOperator::Minus),
            _ => None,
        }
    }

    /// The operator that the token stands for. The token must stand for one.
    pub fn from(token: RawToken) -> (r: Self)
        requires
            token is Punctuator,
            prefix_operator_of(token->Punctuator_0) is Some,
        ensures
            Some(r) == prefix_operator_of(token->Punctuator_0),
            RawToken::Punctuator(r.punctuator()) == token,
    {
        match Self::from_token(token) {
            Some(operator) => operator,
            None => RawPrefixOperator::Bang,
        }
    }

    /// The token that spells the operator.
    pub fn to_token(self) -> (r: RawToken)
        ensures
            r == RawToken::Punctuator(self.punctuator()),
            prefix_operator_of(self.punctuator()) == Some(self),
    {
        match self {
            RawPrefixOperator::Bang => RawToken::Punctuator(Punctuator::Bang),
            RawPrefixOperator::Not => RawToken::Punctuator(Punctuator::Not),
            RawPrefixOperator::PlusPlus => RawToken::Punctuator(Punctuator::PlusPlus),
            RawPrefixOperator::MinusMinus => RawToken::Punctuator(Punctuator::MinusMinus),
            RawPrefixOperator::Plus => RawToken::Punctuator(Punctuator::Plus),
            RawPrefixOperator::Minus => RawToken::Punctuator(Punctuator::Minus),
        }
    }

    /// The characters that spell the operator.
    pub fn as_str(self) -> (r: &'static str)
        ensures
            r@ == self.punctuator().text(),
    {
        match self.to_token() {
            RawToken::Punctuator(p) => p.as_str(),
            _ => "",
        }
    }
}

impl From<RawPrefixOperator> for RawToken {
    fn from(operator: RawPrefixOperator) -> (r: RawToken) {
        operator.to_token()
    }
}

impl vstd::std_specs::convert::FromSpecImpl<RawPrefixOperator> for RawToken {
    open spec fn obeys_from_spec() -> bool {
        true
    }

    open spec fn from_spec(operator: RawPrefixOperator) -> RawToken {
        RawToken::Punctuator(operator.punctuator())
    }
}

/// An operator after its operand.
#[derive(Debug, PartialEq, Copy, Clone, Eq, Hash, Structural)]
pub enum RawPostfixOperator {
    QuestionMark,
    PlusPlus,
    MinusMinus,
}

/// A postfix operator and its place.
#[derive(Debug, PartialEq, Copy, Clone, Eq, Hash, Structural)]
pub struct PostfixOperator {
    pub span: Span,
    pub raw: RawPostfixOperator,
}

/// The postfix operator that a punctuator stands for, if it stands for one.
pub open spec fn postfix_operator_of(p: Punctuator) -> Option<RawPostfixOperator> {
    match p {
        Punctuator::QuestionMark => Some(RawPostfixOperator::QuestionMark),
        Punctuator::PlusPlus => Some(RawPostfixOperator::PlusPlus),
        Punctuator::MinusMinus => Some(RawPostfixOperator::MinusMinus),
        _ => None,
    }
}

impl RawPostfixOperator {
    /// The punctuator that spells the operator.
    pub open spec fn punctuator(self) -> Punctuator {
        match self {
            RawPostfixOperator::QuestionMark => Punctuator::QuestionMark,
            RawPostfixOperator::PlusPlus => Punctuator::PlusPlus,
            RawPostfixOperator::MinusMinus => Punctuator::MinusMinus,
        }
    }

    /// The operator that the token stands for, if it stands for one.
    pub fn from_token(token: RawToken) -> (r: Option<Self>)
        ensures
            r == match token {
                RawToken::Punctuator(p) => postfix_operator_of(p),
                _ => None,
            },
    {
        match token {
            RawToken::Punctuator(Punctuator::QuestionMark) => Some(
                RawPostfixOperator::QuestionMark
            ),
            RawToken::Punctuator(Punctuator::PlusPlus) => Some(RawPostfixOperator::PlusPlus),
            RawToken::Punctuator(Punctuator::MinusMinus) => Some(RawPostfixOperator::MinusMinus),
            _ => None,
        }
    }

    /// The operator that the token stands for. The token must stand for one.
    pub fn from(token: RawToken) -> (r: Self)
        requires
            token is Punctuator,
            postfix_operator_of(token->Punctuator_0) is Some,
        ensures
            Some(r) == postfix_operator_of(token->Punctuator_0),
            RawToken::Punctuator(r.punctuator()) == token,
    {
        match Self::from_token(token) {
            Some(operator) => operator,
            None => RawPostfixOperator::QuestionMark,
        }
    }

    /// The token that spells the operator.
    pub fn to_token(self) -> (r: RawToken)
        ensures
            r == RawToken::Punctuator(self.punctuator()),
            postfix_operator_of(self.punctuator()) == Some(self),
    {
        match self {
            RawPostfixOperator::QuestionMark => RawToken::Punctuator(Punctuator::QuestionMark),
            RawPostfixOperator::PlusPlus => RawToken::Punctuator(Punctuator::PlusPlus),
            RawPostfixOperator::MinusMinus => RawToken::Punctuator(Punctuator::MinusMinus),
        }
    }

    /// The characters that spell the operator.
    pub fn as_str(self) -> (r: &'static str)
        ensures
            r@ == self.punctuator().text(),
    {
        match self.to_token() {
            RawToken::Punctuator(p) => p.as_str(),
            _ => "",
        }
    }
}

impl From<RawPostfixOperator> for RawToken {
    fn from(operator: RawPostfixOperator) -> (r: RawToken) {
        operator.to_token()
    }
}

impl vstd::std_specs::convert::FromSpecImpl<RawPostfixOperator> for RawToken {
    open spec fn obeys_from_spec() -> bool {
        true
    }

    open spec fn from_spec(operator: RawPostfixOperator) -> RawToken {
        RawToken::Punctuator(operator.punctuator())
    }
}

/// How tightly a token binds the expression before it to what follows.
/// A token with a higher level binds more tightly.
#[derive(Debug, PartialEq, Copy, Clone, Eq, Hash, Structural)]
pub enum Precedence {
    /// A token that continues no expression.
    Lowest,
    /// `=`, `+=`, `-=`, `*=`, `/=`, `%=`, `|=`, `&=`
    Assign,
    /// `||`
    OrOr,
    /// `&&`
    AndAnd,
    /// `|`
    Or,
    /// `&`
    And,
    /// `==`, `!=`
    Equality,
    /// `<`, `<=`, `>`, `>=`
    Comparison,
    /// `<<`, `>>`
    Shift,
    /// `+`, `-`
    Sum,
    /// `*`, `/`, `%`
    Product,
    /// `**`
    Power,
    /// `as`
    Cast,
    /// An operator before its operand.
    Prefix,
    /// `?`, `++`, `--` after their operand.
    Postfix,
    /// `(`, `[` and `{` after an expression.
    Call,
    /// `.`
    FieldAccess,
}

impl Precedence {
    /// The level as a number: `Lowest` is 0 and each following variant one more.
    pub open spec fn spec_level(self) -> u8 {
        match self {
            Precedence::Lowest => 0,
            Precedence::Assign => 1,
            Precedence::OrOr => 2,
            Precedence::AndAnd => 3,
            Precedence::Or => 4,
            Precedence::And => 5,
            Precedence::Equality => 6,
            Precedence::Comparison => 7,
            Precedence::Shift => 8,
            Precedence::Sum => 9,
            Precedence::Product => 10,
            Precedence::Power => 11,
            Precedence::Cast => 12,
            Precedence::Prefix => 13,
            Precedence::Postfix => 14,
            Precedence::Call => 15,
            Precedence::FieldAccess => 16,
        }
    }

    /// The level as a number.
    #[verifier::when_used_as_spec(spec_level)]
    pub fn level(self) -> (r: u8)
        ensures
            r == self.spec_level(),
    {
        match self {
            Precedence::Lowest => 0,
            Precedence::Assign => 1,
            Precedence::OrOr => 2,
            Precedence::AndAnd => 3,
            Precedence::Or => 4,
            Precedence::And => 5,
            Precedence::Equality => 6,
            Precedence::Comparison => 7,
            Precedence::Shift => 8,
            Precedence::Sum => 9,
            Precedence::Product => 10,
            Precedence::Power => 11,
            Precedence::Cast => 12,
            Precedence::Prefix => 13,
            Precedence::Postfix => 14,
            Precedence::Call => 15,
            Precedence::FieldAccess => 16,
        }
    }
}

/// How tightly a token binds when it follows an expression.
pub open spec fn precedence_of(token: RawToken) -> Precedence {
    match token {
        RawToken::Punctuator(p) => match p {
            Punctuator::Eq | Punctuator::PlusEq | Punctuator::MinusEq | Punctuator::StarEq
            | Punctuator::SlashEq | Punctuator::PercentEq | Punctuator::OrEq
            | Punctuator::AndEq => Precedence::Assign,
            Punctuator::OrOr => Precedence::OrOr,
            Punctuator::AndAnd => Precedence::AndAnd,
            Punctuator::Or => Precedence::Or,
            Punctuator::And => Precedence::And,
            Punctuator::EqEq | Punctuator::NotEq => Precedence::Equality,
            Punctuator::Less | Punctuator::LessEq | Punctuator::Greater
            | Punctuator::GreaterEq => Precedence::Comparison,
            Punctuator::LeftShift | Punctuator::RightShift => Precedence::Shift,
            Punctuator::Plus | Punctuator::Minus => Precedence::Sum,
            Punctuator::Star | Punctuator::Slash | Punctuator::Percent => Precedence::Product,
            Punctuator::StarStar => Precedence::Power,
            Punctuator::QuestionMark | Punctuator::PlusPlus
            | Punctuator::MinusMinus => Precedence::Postfix,
            Punctuator::OpenParent | Punctuator::OpenBracket
            | Punctuator::OpenBrace => Precedence::Call,
            Punctuator::Dot => Precedence::FieldAccess,
            _ => Precedence::Lowest,
        },
        RawToken::Keyword(Keyword::As) => Precedence::Cast,
        _ => Precedence::Lowest,
    }
}

/// Whether a token is an operator that stands between two operands of an
/// expression: one of the binary operators that binds at a level from
/// `Assign` to `Power`.
pub open spec fn infix_operator(token: RawToken) -> bool {
    let level = precedence_of(token).spec_level();
    Precedence::Assign.spec_level() <= level <= Precedence::Power.spec_level()
}

impl RawToken {
    /// How tightly the token binds when it follows an expression.
    pub fn to_precedence(self) -> (r: Precedence)
        ensures
            r == precedence_of(self),
    {
        match self {
            RawToken::Punctuator(p) => match p {
                Punctuator::Eq | Punctuator::PlusEq | Punctuator::MinusEq | Punctuator::StarEq
                | Punctuator::SlashEq | Punctuator::PercentEq | Punctuator::OrEq
                | Punctuator::AndEq => Precedence::Assign,
                Punctuator::OrOr => Precedence::OrOr,
                Punctuator::AndAnd => Precedence::AndAnd,
                Punctuator::Or => Precedence::Or,
                Punctuator::And => Precedence::And,
                Punctuator::EqEq | Punctuator::NotEq => Precedence::Equality,
                Punctuator::Less | Punctuator::LessEq | Punctuator::Greater
                | Punctuator::GreaterEq => Precedence::Comparison,
                Punctuator::LeftShift | Punctuator::RightShift => Precedence::Shift,
                Punctuator::Plus | Punctuator::Minus => Precedence::Sum,
                Punctuator::Star | Punctuator::Slash | Punctuator::Percent => Precedence::Product,
                Punctuator::StarStar => Precedence::Power,
                Punctuator::QuestionMark | Punctuator::PlusPlus
                | Punctuator::MinusMinus => Precedence::Postfix,
                Punctuator::OpenParent | Punctuator::OpenBracket
                | Punctuator::OpenBrace => Precedence::Call,
                Punctuator::Dot => Precedence::FieldAccess,
                _ => Precedence::Lowest,
            },
            RawToken::Keyword(Keyword::As) => Precedence::Cast,
            _ => Precedence::Lowest,
        }
    }
}

/// Every token that stands between two operands is a binary operator.
pub proof fn lemma_infix_is_binary(token: RawToken)
    requires
        infix_operator(token),
    ensures
        token is Punctuator,
        binary_operator_of(token->Punctuator_0) is Some,
{
}

} // verus!
