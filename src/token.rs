use vstd::prelude::*;

verus! {

/// A byte range `lo..hi` in the source text.
#[derive(Clone, Copy, Debug, PartialEq, Eq, Structural)]
pub struct Span {
    pub lo: usize,
    pub hi: usize,
}

/// The delimiter of a token group.
#[derive(Clone, Copy, Debug, PartialEq, Eq, Structural)]
pub enum Delimiter {
    Parenthesis,
    Brace,
    Bracket,
    Invisible,
}

/// A token tree: a word, a single punctuation character, a literal, or a delimited group.
#[derive(Debug)]
pub enum Token {
    Ident { text: String, span: Span },
    Punct { ch: char, span: Span },
    Literal { text: String, span: Span },
    Group { delim: Delimiter, inner: Vec<Token>, open: Span, close: Span },
}

/// The location reported for a token: a group is located at its opening delimiter.
pub open spec fn tok_span(t: Token) -> Span {
    match t {
        Token::Ident { span, .. } => span,
        Token::Punct { span, .. } => span,
        Token::Literal { span, .. } => span,
        Token::Group { open, .. } => open,
    }
}

pub open spec fn is_ident(t: Token) -> bool {
    t is Ident
}

/// `t` is the word `w`.
pub open spec fn is_word(t: Token, w: Seq<char>) -> bool {
    match t {
        Token::Ident { text, .. } => text@ == w,
        _ => false,
    }
}

pub open spec fn is_punct(t: Token, c: char) -> bool {
    match t {
        Token::Punct { ch, .. } => ch == c,
        _ => false,
    }
}

pub open spec fn is_group(t: Token, d: Delimiter) -> bool {
    match t {
        Token::Group { delim, .. } => delim == d,
        _ => false,
    }
}

/// The location of the first token of `s`, or `end` where `s` is empty.
pub open spec fn first_span(s: Seq<Token>, end: Span) -> Span {
    if s.len() > 0 {
        tok_span(s[0])
    } else {
        end
    }
}

impl Token {
    pub fn span(&self) -> (r: Span)
        ensures
            r == tok_span(*self),
    {
        match self {
            Token::Ident { span, .. } => *span,
            Token::Punct { span, .. } => *span,
            Token::Literal { span, .. } => *span,
            Token::Group { open, .. } => *open,
        }
    }

    pub fn is_ident(&self) -> (r: bool)
        ensures
            r == is_ident(*self),
    {
        match self {
            Token::Ident { .. } => true,
            _ => false,
        }
    }

    pub fn is_word(&self, w: &str) -> (r: bool)
        ensures
            r == is_word(*self, w@),
    {
        match self {
            Token::Ident { text, .. } => {
                let ws: String = w.to_owned();
                text.eq(&ws)
            },
            _ => false,
        }
    }

    pub fn is_punct(&self, c: char) -> (r: bool)
        ensures
            r == is_punct(*self, c),
    {
        match self {
            Token::Punct { ch, .. } => *ch == c,
            _ => false,
        }
    }

    pub fn is_group(&self, d: Delimiter) -> (r: bool)
        ensures
            r == is_group(*self, d),
    {
        match self {
            Token::Group { delim, .. } => *delim == d,
            _ => false,
        }
    }
}

} // verus!
