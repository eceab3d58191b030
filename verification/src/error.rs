//! Errors of the annotation parser.
//!
//! Every error carries the position — a token index — at which it was
//! raised, and a kind. A parse propagates the first error unchanged; an
//! error raised inside a speculative trial is discarded by trying the next
//! alternative instead.

use vstd::prelude::*;
use crate::token::Delim;

verus! {

/// What went wrong at one position of the token stream.
#[derive(Clone, Copy, Debug, PartialEq, Eq, Structural)]
pub enum ErrorKind {
    /// An identifier was required.
    ExpectedIdent,
    /// The keyword `case` was required, another identifier stood there.
    ExpectedTestCase,
    /// The arrow `=>` of a value list was required.
    ExpectedArrow,
    /// An opening delimiter of the given kind was required.
    ExpectedGroup(Delim),
    /// An opened group has no matching closing delimiter.
    UnclosedGroup,
    /// An opening angle bracket has no matching `>`.
    UnclosedAngle,
    /// The token run cannot be read as a host-language expression.
    CannotParseExpression,
    /// The token run cannot be read as a host-language type.
    CannotParseType,
    /// A literal stood where a modifier was required.
    UnexpectedLiteral,
    /// Something other than a bare identifier stood inside a tagged group.
    ShouldBeIdent,
    /// A `name = value` shape stood where a modifier was required.
    InvalidAttribute,
    /// No alternative of the parametrize grammar matched the slot.
    CannotParseParametrizeItem,
    /// No alternative of the matrix grammar matched the slot.
    CannotParseMatrixItem,
    /// A value list's bracketed contents were empty.
    EmptyValueList,
    /// A token stood where a separator or the end of input was required.
    UnexpectedToken,
}

/// A positioned parse error.
#[derive(Clone, Copy, Debug, PartialEq, Eq, Structural)]
pub struct ParseError {
    /// Index of the token at which the error was raised.
    pub pos: usize,
    /// What went wrong there.
    pub kind: ErrorKind,
}

/// Mathematical value of a parse error.
pub struct SpecError {
    pub pos: int,
    pub kind: ErrorKind,
}

impl View for ParseError {
    type V = SpecError;

    open spec fn view(&self) -> SpecError {
        SpecError { pos: self.pos as int, kind: self.kind }
    }
}

/// Short-hand used throughout the grammar.
pub open spec fn err_at(pos: int, kind: ErrorKind) -> SpecError {
    SpecError { pos, kind }
}

/// The message of each error kind, as a diagnostic backend would print it.
pub open spec fn kind_text(k: ErrorKind) -> Seq<char> {
    match k {
        ErrorKind::ExpectedIdent => "expected an identifier"@,
        ErrorKind::ExpectedTestCase => "expected a test case"@,
        ErrorKind::ExpectedArrow => "expected `=>`"@,
        ErrorKind::ExpectedGroup(d) => match d {
            Delim::Paren => "expected parentheses"@,
            Delim::Bracket => "expected square brackets"@,
            Delim::Brace => "expected curly braces"@,
        },
        ErrorKind::UnclosedGroup => "unclosed group"@,
        ErrorKind::UnclosedAngle => "expected `>`"@,
        ErrorKind::CannotParseExpression => "cannot parse as an expression"@,
        ErrorKind::CannotParseType => "cannot parse as a type"@,
        ErrorKind::UnexpectedLiteral => "unexpected literal"@,
        ErrorKind::ShouldBeIdent => "should be an ident"@,
        ErrorKind::InvalidAttribute => "invalid attribute"@,
        ErrorKind::CannotParseParametrizeItem => "cannot parse parametrize info"@,
        ErrorKind::CannotParseMatrixItem => "cannot parse matrix info"@,
        ErrorKind::EmptyValueList => "values list should not be empty"@,
        ErrorKind::UnexpectedToken => "unexpected token"@,
    }
}

impl ParseError {
    /// The error's message.
    pub fn message(&self) -> (r: &'static str)
        ensures
            r@ == kind_text(self.kind),
    {
        match self.kind {
            ErrorKind::ExpectedIdent => "expected an identifier",
            ErrorKind::ExpectedTestCase => "expected a test case",
            ErrorKind::ExpectedArrow => "expected `=>`",
            ErrorKind::ExpectedGroup(d) => match d {
                Delim::Paren => "expected parentheses",
                Delim::Bracket => "expected square brackets",
                Delim::Brace => "expected curly braces",
            },
            ErrorKind::UnclosedGroup => "unclosed group",
            ErrorKind::UnclosedAngle => "expected `>`",
            ErrorKind::CannotParseExpression => "cannot parse as an expression",
            ErrorKind::CannotParseType => "cannot parse as a type",
            ErrorKind::UnexpectedLiteral => "unexpected literal",
            ErrorKind::ShouldBeIdent => "should be an ident",
            ErrorKind::InvalidAttribute => "invalid attribute",
            ErrorKind::CannotParseParametrizeItem => "cannot parse parametrize info",
            ErrorKind::CannotParseMatrixItem => "cannot parse matrix info",
            ErrorKind::EmptyValueList => "values list should not be empty",
            ErrorKind::UnexpectedToken => "unexpected token",
        }
    }
}

} // verus!
