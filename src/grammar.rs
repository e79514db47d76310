use vstd::prelude::*;
use crate::error::{ErrorKind, SyntaxError};
use crate::token::{
    first_span, is_group, is_ident, is_punct, is_word, tok_span, Delimiter, Span, Token,
};

verus! {

/// An identifier as written: its text and location.
pub struct IdentView {
    pub text: Seq<char>,
    pub span: Span,
}

/// A parameter: its type, an optional storage location and an optional name.
pub struct ParamView {
    pub ty: IdentView,
    pub storage: Option<IdentView>,
    pub name: Option<IdentView>,
}

/// A parenthesized, comma-separated parameter list.
pub struct ListView {
    pub open: Span,
    pub close: Span,
    pub params: Seq<ParamView>,
    pub trailing: bool,
}

/// An identifier in the modifier position, with its arguments if any.
pub struct ModifierView {
    pub name: IdentView,
    pub args: Option<Seq<Token>>,
}

/// A leading `#[...]` attribute.
pub struct AttrView {
    pub pound: Span,
    pub open: Span,
    pub close: Span,
    pub body: Seq<Token>,
}

/// A `returns (...)` clause.
pub struct ReturnsView {
    pub keyword: Span,
    pub list: ListView,
}

/// An identifier.
#[derive(Debug)]
pub struct SolIdent {
    pub text: String,
    pub span: Span,
}

impl View for SolIdent {
    type V = IdentView;

    open spec fn view(&self) -> IdentView {
        IdentView { text: self.text@, span: self.span }
    }
}

pub open spec fn opt_ident_view(o: Option<SolIdent>) -> Option<IdentView> {
    match o {
        Some(i) => Some(i@),
        None => None,
    }
}

/// A parameter of a function or of a `returns` clause.
#[derive(Debug)]
pub struct Parameter {
    pub ty: SolIdent,
    pub storage: Option<SolIdent>,
    pub name: Option<SolIdent>,
}

impl View for Parameter {
    type V = ParamView;

    open spec fn view(&self) -> ParamView {
        ParamView {
            ty: self.ty@,
            storage: opt_ident_view(self.storage),
            name: opt_ident_view(self.name),
        }
    }
}

pub open spec fn params_view(v: Seq<Parameter>) -> Seq<ParamView> {
    v.map_values(|p: Parameter| p@)
}

/// A parenthesized parameter list.
#[derive(Debug)]
pub struct Parameters {
    pub open: Span,
    pub close: Span,
    pub list: Vec<Parameter>,
    /// Whether the list ends with a comma.
    pub trailing: bool,
}

impl View for Parameters {
    type V = ListView;

    open spec fn view(&self) -> ListView {
        ListView {
            open: self.open,
            close: self.close,
            params: params_view(self.list@),
            trailing: self.trailing,
        }
    }
}

/// A modifier: visibility, mutability, `virtual`, `override(...)` or a named modifier call.
#[derive(Debug)]
pub struct Modifier {
    pub name: SolIdent,
    pub args: Option<Vec<Token>>,
}

impl View for Modifier {
    type V = ModifierView;

    open spec fn view(&self) -> ModifierView {
        ModifierView {
            name: self.name@,
            args: match self.args {
                Some(a) => Some(a@),
                None => None,
            },
        }
    }
}

pub open spec fn modifiers_view(v: Seq<Modifier>) -> Seq<ModifierView> {
    v.map_values(|m: Modifier| m@)
}

/// A leading `#[...]` attribute.
#[derive(Debug)]
pub struct Attribute {
    pub pound: Span,
    pub open: Span,
    pub close: Span,
    pub body: Vec<Token>,
}

impl View for Attribute {
    type V = AttrView;

    open spec fn view(&self) -> AttrView {
        AttrView { pound: self.pound, open: self.open, close: self.close, body: self.body@ }
    }
}

pub open spec fn attrs_view(v: Seq<Attribute>) -> Seq<AttrView> {
    v.map_values(|a: Attribute| a@)
}

/// A `returns (...)` clause.
#[derive(Debug)]
pub struct Returns {
    pub keyword: Span,
    pub list: Parameters,
}

impl View for Returns {
    type V = ReturnsView;

    open spec fn view(&self) -> ReturnsView {
        ReturnsView { keyword: self.keyword, list: self.list@ }
    }
}

pub open spec fn opt_returns_view(o: Option<Returns>) -> Option<ReturnsView> {
    match o {
        Some(x) => Some(x@),
        None => None,
    }
}

pub open spec fn err<T>(kind: ErrorKind, span: Span) -> Result<T, SyntaxError> {
    Err(SyntaxError { kind, span })
}

pub open spec fn ident_view_of(t: Token) -> IdentView {
    match t {
        Token::Ident { text, span } => IdentView { text: text@, span },
        _ => IdentView { text: seq![], span: tok_span(t) },
    }
}

pub open spec fn group_inner(t: Token) -> Seq<Token> {
    match t {
        Token::Group { inner, .. } => inner@,
        _ => seq![],
    }
}

pub open spec fn group_close(t: Token) -> Span {
    match t {
        Token::Group { close, .. } => close,
        _ => tok_span(t),
    }
}

pub open spec fn is_storage(t: Token) -> bool {
    is_word(t, "memory"@) || is_word(t, "storage"@) || is_word(t, "calldata"@)
}

/// An identifier.
pub open spec fn spec_ident(s: Seq<Token>, end: Span) -> Result<(IdentView, Seq<Token>), SyntaxError> {
    if s.len() > 0 && is_ident(s[0]) {
        Ok((ident_view_of(s[0]), s.drop_first()))
    } else {
        err(ErrorKind::ExpectedIdent, first_span(s, end))
    }
}

/// A parameter: a type, then an optional storage location, then an optional name.
pub open spec fn spec_param(s: Seq<Token>, end: Span) -> Result<(ParamView, Seq<Token>), SyntaxError> {
    if s.len() > 0 && is_ident(s[0]) {
        let r1 = s.drop_first();
        let has_storage = r1.len() > 0 && is_storage(r1[0]);
        let r2 = if has_storage { r1.drop_first() } else { r1 };
        let has_name = r2.len() > 0 && is_ident(r2[0]);
        let r3 = if has_name { r2.drop_first() } else { r2 };
        Ok((ParamView {
            ty: ident_view_of(s[0]),
            storage: if has_storage { Some(ident_view_of(r1[0])) } else { None },
            name: if has_name { Some(ident_view_of(r2[0])) } else { None },
        }, r3))
    } else {
        err(ErrorKind::ExpectedIdent, first_span(s, end))
    }
}

/// The whole content of a parameter list: parameters separated by commas, with an
/// optional trailing comma. The result tells whether that trailing comma is there.
pub open spec fn spec_params(s: Seq<Token>, end: Span) -> Result<(Seq<ParamView>, bool), SyntaxError>
    decreases s.len(),
{
    if s.len() == 0 {
        Ok((seq![], false))
    } else {
        match spec_param(s, end) {
            Err(e) => Err(e),
            Ok((p, r)) => if r.len() == 0 {
                Ok((seq![p], false))
            } else if is_punct(r[0], ',') {
                match spec_params(r.drop_first(), end) {
                    Err(e) => Err(e),
                    Ok((ps, t)) => Ok((seq![p] + ps, ps.len() == 0 || t)),
                }
            } else {
                err(ErrorKind::ExpectedComma, tok_span(r[0]))
            },
        }
    }
}

/// A parenthesized parameter list at the front of `s`.
pub open spec fn spec_list(s: Seq<Token>, end: Span) -> Result<(ListView, Seq<Token>), SyntaxError> {
    if s.len() > 0 && is_group(s[0], Delimiter::Parenthesis) {
        match spec_params(group_inner(s[0]), group_close(s[0])) {
            Err(e) => Err(e),
            Ok((ps, t)) => Ok((
                ListView { open: tok_span(s[0]), close: group_close(s[0]), params: ps, trailing: t },
                s.drop_first(),
            )),
        }
    } else {
        err(ErrorKind::ExpectedParens, first_span(s, end))
    }
}

/// Where an error at the front of `toks` is reported.
pub fn front_span(toks: &Vec<Token>, end: Span) -> (r: Span)
    ensures
        r == first_span(toks@, end),
{
    if toks.len() > 0 {
        toks[0].span()
    } else {
        end
    }
}

fn is_storage_token(t: &Token) -> (r: bool)
    ensures
        r == is_storage(*t),
{
    t.is_word("memory") || t.is_word("storage") || t.is_word("calldata")
}

/// Takes the identifier at the front of `toks`.
fn take_ident(toks: &mut Vec<Token>) -> (r: SolIdent)
    requires
        old(toks)@.len() > 0,
        is_ident(old(toks)@[0]),
    ensures
        r@ == ident_view_of(old(toks)@[0]),
        final(toks)@ == old(toks)@.drop_first(),
{
    match toks.remove(0) {
        Token::Ident { text, span } => SolIdent { text, span },
        t => SolIdent { text: String::new(), span: t.span() },
    }
}

/// Parses the identifier at the front of `toks`.
pub fn parse_ident(toks: &mut Vec<Token>, end: Span) -> (r: Result<SolIdent, SyntaxError>)
    ensures
        match spec_ident(old(toks)@, end) {
            Ok((v, rest)) => r matches Ok(i) && i@ == v && final(toks)@ == rest,
            Err(e) => r == Err::<SolIdent, SyntaxError>(e),
        },
{
    if toks.len() > 0 && toks[0].is_ident() {
        Ok(take_ident(toks))
    } else {
        Err(SyntaxError { kind: ErrorKind::ExpectedIdent, span: front_span(toks, end) })
    }
}

/// Parses one parameter at the front of `toks`.
pub fn parse_param(toks: &mut Vec<Token>, end: Span) -> (r: Result<Parameter, SyntaxError>)
    ensures
        match spec_param(old(toks)@, end) {
            Ok((v, rest)) => r matches Ok(p) && p@ == v && final(toks)@ == rest,
            Err(e) => r == Err::<Parameter, SyntaxError>(e),
        },
{
    let ty = match parse_ident(toks, end) {
        Ok(i) => i,
        Err(e) => return Err(e),
    };
    let storage = if toks.len() > 0 && is_storage_token(&toks[0]) {
        Some(take_ident(toks))
    } else {
        None
    };
    let name = if toks.len() > 0 && toks[0].is_ident() {
        Some(take_ident(toks))
    } else {
        None
    };
    Ok(Parameter { ty, storage, name })
}

/// Parses the whole content of a parameter list; `end` locates its closing delimiter.
pub fn parse_params(toks: &mut Vec<Token>, end: Span) -> (r: Result<(Vec<Parameter>, bool), SyntaxError>)
    ensures
        match spec_params(old(toks)@, end) {
            Ok((ps, t)) => r matches Ok((v, t2)) && params_view(v@) == ps && t2 == t,
            Err(e) => r == Err::<(Vec<Parameter>, bool), SyntaxError>(e),
        },
    decreases old(toks)@.len(),
{
    if toks.len() == 0 {
        let v: Vec<Parameter> = Vec::new();
        assert(params_view(v@) =~= seq![]);
        return Ok((v, false));
    }
    let p = match parse_param(toks, end) {
        Ok(p) => p,
        Err(e) => return Err(e),
    };
    if toks.len() == 0 {
        let mut v: Vec<Parameter> = Vec::new();
        v.push(p);
        assert(params_view(v@) =~= seq![p@]);
        return Ok((v, false));
    }
    if !toks[0].is_punct(',') {
        return Err(SyntaxError { kind: ErrorKind::ExpectedComma, span: toks[0].span() });
    }
    toks.remove(0);
    let (mut ps, t) = match parse_params(toks, end) {
        Ok(x) => x,
        Err(e) => return Err(e),
    };
    let trailing = ps.len() == 0 || t;
    let ghost rest = ps@;
    ps.insert(0, p);
    assert(params_view(ps@) =~= seq![p@] + params_view(rest));
    Ok((ps, trailing))
}

/// Parses a parenthesized parameter list at the front of `toks`.
pub fn parse_list(toks: &mut Vec<Token>, end: Span) -> (r: Result<Parameters, SyntaxError>)
    ensures
        match spec_list(old(toks)@, end) {
            Ok((v, rest)) => r matches Ok(l) && l@ == v && final(toks)@ == rest,
            Err(e) => r == Err::<Parameters, SyntaxError>(e),
        },
{
    if !(toks.len() > 0 && toks[0].is_group(Delimiter::Parenthesis)) {
        return Err(SyntaxError { kind: ErrorKind::ExpectedParens, span: front_span(toks, end) });
    }
    match toks.remove(0) {
        Token::Group { inner, open, close, .. } => {
            let mut inner = inner;
            match parse_params(&mut inner, close) {
                Ok((list, trailing)) => Ok(Parameters { open, close, list, trailing }),
                Err(e) => Err(e),
            }
        },
        t => Err(SyntaxError { kind: ErrorKind::ExpectedParens, span: t.span() }),
    }
}

/// The modifiers: every identifier up to the `returns` keyword, each with the
/// parenthesized group that follows it, if any. Never fails.
pub open spec fn spec_modifiers(s: Seq<Token>) -> (Seq<ModifierView>, Seq<Token>)
    decreases s.len(),
{
    if s.len() > 0 && is_ident(s[0]) && !is_word(s[0], "returns"@) {
        let r = s.drop_first();
        let has_args = r.len() > 0 && is_group(r[0], Delimiter::Parenthesis);
        let m = ModifierView {
            name: ident_view_of(s[0]),
            args: if has_args { Some(group_inner(r[0])) } else { None },
        };
        let (ms, rest) = spec_modifiers(if has_args { r.drop_first() } else { r });
        (seq![m] + ms, rest)
    } else {
        (seq![], s)
    }
}

/// Leading attributes: each a `#` followed by a bracketed group.
pub open spec fn spec_attrs(s: Seq<Token>, end: Span) -> Result<(Seq<AttrView>, Seq<Token>), SyntaxError>
    decreases s.len(),
{
    if s.len() > 0 && is_punct(s[0], '#') {
        if s.len() > 1 && is_group(s[1], Delimiter::Bracket) {
            let a = AttrView {
                pound: tok_span(s[0]),
                open: tok_span(s[1]),
                close: group_close(s[1]),
                body: group_inner(s[1]),
            };
            match spec_attrs(s.skip(2), end) {
                Ok((rs, rest)) => Ok((seq![a] + rs, rest)),
                Err(e) => Err(e),
            }
        } else {
            err(ErrorKind::ExpectedBracket, first_span(s.drop_first(), end))
        }
    } else {
        Ok((seq![], s))
    }
}

/// An optional `returns (...)` clause.
pub open spec fn spec_returns(s: Seq<Token>, end: Span) -> Result<(Option<ReturnsView>, Seq<Token>), SyntaxError> {
    if s.len() > 0 && is_word(s[0], "returns"@) {
        match spec_list(s.drop_first(), end) {
            Ok((l, rest)) => Ok((Some(ReturnsView { keyword: tok_span(s[0]), list: l }), rest)),
            Err(e) => Err(e),
        }
    } else {
        Ok((None, s))
    }
}

/// Parses the modifiers at the front of `toks`, up to the first token that is not one.
pub fn parse_modifiers(toks: &mut Vec<Token>) -> (r: Vec<Modifier>)
    ensures
        (modifiers_view(r@), final(toks)@) == spec_modifiers(old(toks)@),
    decreases old(toks)@.len(),
{
    if !(toks.len() > 0 && toks[0].is_ident() && !toks[0].is_word("returns")) {
        let v: Vec<Modifier> = Vec::new();
        assert(modifiers_view(v@) =~= seq![]);
        return v;
    }
    let name = take_ident(toks);
    let args = if toks.len() > 0 && toks[0].is_group(Delimiter::Parenthesis) {
        match toks.remove(0) {
            Token::Group { inner, .. } => Some(inner),
            _ => None,
        }
    } else {
        None
    };
    let m = Modifier { name, args };
    let mut ms = parse_modifiers(toks);
    let ghost rest = ms@;
    ms.insert(0, m);
    assert(modifiers_view(ms@) =~= seq![m@] + modifiers_view(rest));
    ms
}

/// Parses the leading attributes at the front of `toks`.
pub fn parse_attrs(toks: &mut Vec<Token>, end: Span) -> (r: Result<Vec<Attribute>, SyntaxError>)
    ensures
        match spec_attrs(old(toks)@, end) {
            Ok((v, rest)) => r matches Ok(a) && attrs_view(a@) == v && final(toks)@ == rest,
            Err(e) => r == Err::<Vec<Attribute>, SyntaxError>(e),
        },
    decreases old(toks)@.len(),
{
    if !(toks.len() > 0 && toks[0].is_punct('#')) {
        let v: Vec<Attribute> = Vec::new();
        assert(attrs_view(v@) =~= seq![]);
        return Ok(v);
    }
    if !(toks.len() > 1 && toks[1].is_group(Delimiter::Bracket)) {
        let span = if toks.len() > 1 { toks[1].span() } else { end };
        assert(old(toks)@.drop_first().len() > 0 ==> old(toks)@.drop_first()[0] == old(toks)@[1]);
        return Err(SyntaxError { kind: ErrorKind::ExpectedBracket, span });
    }
    let ghost s = toks@;
    let pound = toks.remove(0).span();
    let a = match toks.remove(0) {
        Token::Group { inner, open, close, .. } => Attribute { pound, open, close, body: inner },
        t => Attribute { pound, open: t.span(), close: t.span(), body: Vec::new() },
    };
    assert(toks@ =~= s.skip(2));
    let mut rs = match parse_attrs(toks, end) {
        Ok(v) => v,
        Err(e) => return Err(e),
    };
    let ghost rest = rs@;
    rs.insert(0, a);
    assert(attrs_view(rs@) =~= seq![a@] + attrs_view(rest));
    Ok(rs)
}

/// Parses a `returns (...)` clause at the front of `toks`, if there is one.
pub fn parse_returns(toks: &mut Vec<Token>, end: Span) -> (r: Result<Option<Returns>, SyntaxError>)
    ensures
        match spec_returns(old(toks)@, end) {
            Ok((v, rest)) => r matches Ok(o) && opt_returns_view(o) == v && final(toks)@ == rest,
            Err(e) => r == Err::<Option<Returns>, SyntaxError>(e),
        },
{
    if !(toks.len() > 0 && toks[0].is_word("returns")) {
        return Ok(None);
    }
    let keyword = toks.remove(0).span();
    match parse_list(toks, end) {
        Ok(list) => Ok(Some(Returns { keyword, list })),
        Err(e) => Err(e),
    }
}

} // verus!
