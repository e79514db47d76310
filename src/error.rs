use vstd::prelude::*;
use crate::token::Span;

verus! {

/// What went wrong at a syntax error.
#[derive(Clone, Copy, Debug, PartialEq, Eq, Structural)]
pub enum ErrorKind {
    /// A body block where a declaration allows none.
    Implementation,
    ExpectedBracket,
    ExpectedFunction,
    ExpectedIdent,
    ExpectedParens,
    ExpectedComma,
    ExpectedSemi,
    UnexpectedToken,
}

/// A syntax error with the location it was found at.
#[derive(Clone, Copy, Debug, PartialEq, Eq, Structural)]
pub struct SyntaxError {
    pub kind: ErrorKind,
    pub span: Span,
}

/// The message of each kind of error.
pub open spec fn message_of(kind: ErrorKind) -> Seq<char> {
    match kind {
        ErrorKind::Implementation => "declaration cannot have an implementation"@,
        ErrorKind::ExpectedBracket => "expected `[`"@,
        ErrorKind::ExpectedFunction => "expected `function`"@,
        ErrorKind::ExpectedIdent => "expected identifier"@,
        ErrorKind::ExpectedParens => "expected parentheses"@,
        ErrorKind::ExpectedComma => "expected `,`"@,
        ErrorKind::ExpectedSemi => "expected `;`"@,
        ErrorKind::UnexpectedToken => "unexpected token"@,
    }
}

impl SyntaxError {
    /// The human-readable message of this error.
    pub fn message(&self) -> (r: String)
        ensures
            r@ == message_of(self.kind),
    {
        let m: &str = match self.kind {
            ErrorKind::Implementation => "declaration cannot have an implementation",
            ErrorKind::ExpectedBracket => "expected `[`",
            ErrorKind::ExpectedFunction => "expected `function`",
            ErrorKind::ExpectedIdent => "expected identifier",
            ErrorKind::ExpectedParens => "expected parentheses",
            ErrorKind::ExpectedComma => "expected `,`",
            ErrorKind::ExpectedSemi => "expected `;`",
            ErrorKind::UnexpectedToken => "unexpected token",
        };
        m.to_owned()
    }
}

} // verus!
