use vstd::prelude::*;
use crate::error::{ErrorKind, SyntaxError};
use crate::grammar::{
    attrs_view, err, front_span, ident_view_of, modifiers_view, opt_returns_view, params_view,
    parse_attrs, parse_ident, parse_list, parse_modifiers, parse_returns, spec_attrs, spec_ident,
    spec_list, spec_modifiers, spec_returns, AttrView, Attribute, IdentView, ListView, Modifier,
    ModifierView, ParamView, Parameters, Returns, ReturnsView, SolIdent,
};
use crate::token::{first_span, is_group, is_punct, is_word, tok_span, Delimiter, Span, Token};

verus! {

/// A function declaration: `function helloWorld() external pure returns (string memory);`
///
/// It never has a body: a body block in place of the modifiers or of the
/// terminating semicolon is a syntax error.
#[derive(Debug)]
pub struct ItemFunction {
    /// The leading `#[...]` attributes.
    pub attrs: Vec<Attribute>,
    pub function_token: Span,
    pub name: SolIdent,
    pub arguments: Parameters,
    /// Visibility, mutability, `virtual`, `override` and modifier calls.
    pub attributes: Vec<Modifier>,
    pub returns_clause: Option<Returns>,
    pub semi_token: Span,
}

/// What a parsed function declaration holds.
pub struct FunctionView {
    pub attrs: Seq<AttrView>,
    pub function_token: Span,
    pub name: IdentView,
    pub arguments: ListView,
    pub attributes: Seq<ModifierView>,
    pub returns_clause: Option<ReturnsView>,
    pub semi_token: Span,
}

impl View for ItemFunction {
    type V = FunctionView;

    open spec fn view(&self) -> FunctionView {
        FunctionView {
            attrs: attrs_view(self.attrs@),
            function_token: self.function_token,
            name: self.name@,
            arguments: self.arguments@,
            attributes: modifiers_view(self.attributes@),
            returns_clause: opt_returns_view(self.returns_clause),
            semi_token: self.semi_token,
        }
    }
}

/// A tuple type, written `(T1, T2, ...)`; a one-element tuple carries a trailing comma.
#[derive(Debug)]
pub struct SolTuple {
    pub types: Vec<SolIdent>,
    pub trailing_comma: bool,
}

pub struct TupleView {
    pub types: Seq<IdentView>,
    pub trailing_comma: bool,
}

pub open spec fn idents_view(v: Seq<SolIdent>) -> Seq<IdentView> {
    v.map_values(|i: SolIdent| i@)
}

impl View for SolTuple {
    type V = TupleView;

    open spec fn view(&self) -> TupleView {
        TupleView { types: idents_view(self.types@), trailing_comma: self.trailing_comma }
    }
}

/// `s` does not start with a body block.
pub open spec fn spec_no_body(s: Seq<Token>) -> bool {
    !(s.len() > 0 && is_group(s[0], Delimiter::Brace))
}

/// A function declaration at the front of `s`, and what follows it.
pub open spec fn spec_function(s: Seq<Token>, end: Span) -> Result<(FunctionView, Seq<Token>), SyntaxError> {
    match spec_attrs(s, end) {
        Err(e) => Err(e),
        Ok((attrs, r0)) => if !(r0.len() > 0 && is_word(r0[0], "function"@)) {
            err(ErrorKind::ExpectedFunction, first_span(r0, end))
        } else {
            match spec_ident(r0.drop_first(), end) {
                Err(e) => Err(e),
                Ok((name, r1)) => match spec_list(r1, end) {
                    Err(e) => Err(e),
                    Ok((arguments, r2)) => if !spec_no_body(r2) {
                        err(ErrorKind::Implementation, tok_span(r2[0]))
                    } else {
                        let (attributes, r3) = spec_modifiers(r2);
                        match spec_returns(r3, end) {
                            Err(e) => Err(e),
                            Ok((returns_clause, r4)) => if !spec_no_body(r4) {
                                err(ErrorKind::Implementation, tok_span(r4[0]))
                            } else if r4.len() > 0 && is_punct(r4[0], ';') {
                                Ok((FunctionView {
                                    attrs,
                                    function_token: tok_span(r0[0]),
                                    name,
                                    arguments,
                                    attributes,
                                    returns_clause,
                                    semi_token: tok_span(r4[0]),
                                }, r4.drop_first()))
                            } else {
                                err(ErrorKind::ExpectedSemi, first_span(r4, end))
                            },
                        }
                    },
                },
            }
        },
    }
}

/// A function declaration that makes up all of `s`.
pub open spec fn spec_function_all(s: Seq<Token>, end: Span) -> Result<FunctionView, SyntaxError> {
    match spec_function(s, end) {
        Err(e) => Err(e),
        Ok((v, rest)) => if rest.len() == 0 {
            Ok(v)
        } else {
            err(ErrorKind::UnexpectedToken, tok_span(rest[0]))
        },
    }
}

pub open spec fn is_void_spec(v: FunctionView) -> bool {
    match v.returns_clause {
        None => true,
        Some(r) => r.list.params.len() == 0,
    }
}

/// The canonical name of a type in a signature.
pub open spec fn canonical_type(t: Seq<char>) -> Seq<char> {
    if t == "uint"@ {
        "uint256"@
    } else if t == "int"@ {
        "int256"@
    } else {
        t
    }
}

/// The canonical parameter types, separated by commas.
pub open spec fn join_types(ps: Seq<ParamView>) -> Seq<char>
    decreases ps.len(),
{
    if ps.len() == 0 {
        seq![]
    } else if ps.len() == 1 {
        canonical_type(ps[0].ty.text)
    } else {
        join_types(ps.drop_last()) + ","@ + canonical_type(ps.last().ty.text)
    }
}

/// `name(T1,T2,...)`.
pub open spec fn signature_of(v: FunctionView) -> Seq<char> {
    v.name.text + "("@ + join_types(v.arguments.params) + ")"@
}

pub open spec fn call_type_of(v: FunctionView) -> TupleView {
    TupleView {
        types: v.arguments.params.map_values(|p: ParamView| p.ty),
        trailing_comma: v.arguments.params.len() == 1,
    }
}

/// `v` with its name moved to `s`.
pub open spec fn relocated(v: FunctionView, s: Span) -> FunctionView {
    FunctionView { name: IdentView { text: v.name.text, span: s }, ..v }
}

fn check_no_body(toks: &Vec<Token>) -> (r: Result<(), SyntaxError>)
    ensures
        spec_no_body(toks@) ==> r is Ok,
        !spec_no_body(toks@) ==> r == Err::<(), SyntaxError>(
            SyntaxError { kind: ErrorKind::Implementation, span: tok_span(toks@[0]) },
        ),
{
    if toks.len() > 0 && toks[0].is_group(Delimiter::Brace) {
        Err(SyntaxError { kind: ErrorKind::Implementation, span: toks[0].span() })
    } else {
        Ok(())
    }
}

fn append_canonical(s: &mut String, t: &String)
    ensures
        final(s)@ == old(s)@ + canonical_type(t@),
{
    if t.eq(&"uint".to_owned()) {
        s.append("uint256");
    } else if t.eq(&"int".to_owned()) {
        s.append("int256");
    } else {
        s.append(t.as_str());
    }
}

impl SolIdent {
    pub fn copy(&self) -> (r: SolIdent)
        ensures
            r@ == self@,
    {
        SolIdent { text: self.text.clone(), span: self.span }
    }
}

impl ItemFunction {
    /// Parses a function declaration at the front of `toks`, leaving what follows it.
    /// `end` locates the end of the input, for errors found there.
    pub fn parse(toks: &mut Vec<Token>, end: Span) -> (r: Result<ItemFunction, SyntaxError>)
        ensures
            match spec_function(old(toks)@, end) {
                Ok((v, rest)) => r matches Ok(f) && f@ == v && final(toks)@ == rest,
                Err(e) => r == Err::<ItemFunction, SyntaxError>(e),
            },
    {
        let attrs = match parse_attrs(toks, end) {
            Ok(a) => a,
            Err(e) => return Err(e),
        };
        if !(toks.len() > 0 && toks[0].is_word("function")) {
            return Err(SyntaxError { kind: ErrorKind::ExpectedFunction, span: front_span(toks, end) });
        }
        let function_token = toks.remove(0).span();
        let name = match parse_ident(toks, end) {
            Ok(n) => n,
            Err(e) => return Err(e),
        };
        let arguments = match parse_list(toks, end) {
            Ok(l) => l,
            Err(e) => return Err(e),
        };
        if let Err(e) = check_no_body(toks) {
            return Err(e);
        }
        let attributes = parse_modifiers(toks);
        let returns_clause = match parse_returns(toks, end) {
            Ok(r) => r,
            Err(e) => return Err(e),
        };
        if let Err(e) = check_no_body(toks) {
            return Err(e);
        }
        if !(toks.len() > 0 && toks[0].is_punct(';')) {
            return Err(SyntaxError { kind: ErrorKind::ExpectedSemi, span: front_span(toks, end) });
        }
        let semi_token = toks.remove(0).span();
        Ok(ItemFunction { attrs, function_token, name, arguments, attributes, returns_clause, semi_token })
    }

    /// Parses `toks` as exactly one function declaration.
    pub fn from_tokens(toks: Vec<Token>, end: Span) -> (r: Result<ItemFunction, SyntaxError>)
        ensures
            match spec_function_all(toks@, end) {
                Ok(v) => r matches Ok(f) && f@ == v,
                Err(e) => r == Err::<ItemFunction, SyntaxError>(e),
            },
    {
        let mut toks = toks;
        let f = match ItemFunction::parse(&mut toks, end) {
            Ok(f) => f,
            Err(e) => return Err(e),
        };
        if toks.len() > 0 {
            return Err(SyntaxError { kind: ErrorKind::UnexpectedToken, span: toks[0].span() });
        }
        Ok(f)
    }

    /// The location of the declaration: that of its name.
    pub fn span(&self) -> (r: Span)
        ensures
            r == self.name.span,
    {
        self.name.span
    }

    /// Moves the declaration's name, and with it the declaration, to `span`.
    pub fn set_span(&mut self, span: Span)
        ensures
            final(self)@ == relocated(old(self)@, span),
            final(self).name.span == span,
    {
        self.name.span = span;
    }

    /// Whether the function returns nothing: no `returns` clause, or an empty one.
    pub fn is_void(&self) -> (r: bool)
        ensures
            r == is_void_spec(self@),
    {
        match &self.returns_clause {
            None => true,
            Some(r) => r.list.list.len() == 0,
        }
    }

    /// The signature `name(T1,T2,...)` over the canonical parameter types.
    pub fn signature(&self) -> (r: String)
        ensures
            r@ == signature_of(self@),
    {
        let ghost ps = params_view(self.arguments.list@);
        let mut s = self.name.text.clone();
        s.append("(");
        let n = self.arguments.list.len();
        let mut i: usize = 0;
        while i < n
            invariant
                n == self.arguments.list@.len(),
                ps == params_view(self.arguments.list@),
                i <= n,
                s@ == self.name.text@ + "("@ + join_types(ps.take(i as int)),
            decreases n - i,
        {
            if i > 0 {
                s.append(",");
            }
            append_canonical(&mut s, &self.arguments.list[i].ty.text);
            assert(ps.take(i + 1).drop_last() =~= ps.take(i as int));
            i += 1;
        }
        assert(ps.take(n as int) =~= ps);
        s.append(")");
        s
    }

    /// The tuple of the parameter types, in order; a single type gets a trailing comma.
    pub fn call_type(&self) -> (r: SolTuple)
        ensures
            r@ == call_type_of(self@),
    {
        let ghost ps = params_view(self.arguments.list@);
        let n = self.arguments.list.len();
        let mut types: Vec<SolIdent> = Vec::new();
        let mut i: usize = 0;
        while i < n
            invariant
                n == self.arguments.list@.len(),
                ps == params_view(self.arguments.list@),
                i <= n,
                idents_view(types@) =~= ps.take(i as int).map_values(|p: ParamView| p.ty),
            decreases n - i,
        {
            let t = self.arguments.list[i].ty.copy();
            assert(ps[i as int] == self.arguments.list@[i as int]@);
            assert(t@ == ps[i as int].ty);
            let ghost before = types@;
            types.push(t);
            assert(types@ == before.push(t));
            assert(idents_view(types@) =~= idents_view(before).push(t@));
            assert(idents_view(types@) =~= ps.take(i + 1).map_values(|p: ParamView| p.ty));
            i += 1;
        }
        assert(ps.take(n as int) =~= ps);
        SolTuple { types, trailing_comma: n == 1 }
    }
}

} // verus!
