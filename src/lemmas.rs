use vstd::prelude::*;
use crate::error::{ErrorKind, SyntaxError};
use crate::function::{join_types, signature_of, spec_function, FunctionView};
use crate::grammar::{
    err, group_inner, AttrView, group_close, ident_view_of, spec_attrs, spec_ident, spec_list,
    spec_modifiers, spec_params, spec_returns,
};
use crate::token::{is_group, is_ident, is_punct, is_word, tok_span, Delimiter, Span, Token};

verus! {

/// `t` cannot continue a list of modifiers: it starts with the `returns` keyword, or
/// with a token that is neither an identifier nor a parenthesized group.
pub open spec fn ends_modifiers(t: Seq<Token>) -> bool {
    t.len() > 0 && (is_word(t[0], "returns"@) || !is_ident(t[0])) && !is_group(
        t[0],
        Delimiter::Parenthesis,
    )
}

/// `rets` is empty, or a `returns` keyword followed by a well-formed parameter list.
pub open spec fn valid_returns(rets: Seq<Token>) -> bool {
    rets.len() == 0 || (rets.len() == 2 && is_word(rets[0], "returns"@) && is_group(
        rets[1],
        Delimiter::Parenthesis,
    ) && spec_params(group_inner(rets[1]), group_close(rets[1])) is Ok)
}

/// The tokens `function NAME (PARAMS) MODIFIERS RETURNS LAST REST`.
pub open spec fn declaration(
    kw: Token,
    name: Token,
    args: Token,
    mods: Seq<Token>,
    rets: Seq<Token>,
    last: Token,
    rest: Seq<Token>,
) -> Seq<Token> {
    seq![kw, name, args] + mods + rets + seq![last] + rest
}

/// A list of modifiers that is all of `m` stops where `t` starts.
pub proof fn lemma_modifiers_prefix(m: Seq<Token>, t: Seq<Token>)
    requires
        spec_modifiers(m).1.len() == 0,
        ends_modifiers(t),
    ensures
        spec_modifiers(m + t) == (spec_modifiers(m).0, t),
    decreases m.len(),
{
    if m.len() == 0 {
        assert(m + t =~= t);
    } else {
        let r = m.drop_first();
        let has_args = r.len() > 0 && is_group(r[0], Delimiter::Parenthesis);
        let m2 = if has_args { r.drop_first() } else { r };
        assert((m + t)[0] == m[0]);
        assert((m + t).drop_first() =~= r + t);
        if r.len() > 0 {
            assert((r + t)[0] == r[0]);
        } else {
            assert((r + t)[0] == t[0]);
        }
        if has_args {
            assert((r + t).drop_first() =~= m2 + t);
        }
        lemma_modifiers_prefix(m2, t);
    }
}

/// Every declaration `function NAME(PARAMS) MODIFIERS [returns (RETURNS)];` parses, up to
/// the semicolon, and its signature is `NAME(T1,T2,...)` over the parameter types in order.
pub proof fn lemma_declaration_parses(
    kw: Token,
    name: Token,
    args: Token,
    mods: Seq<Token>,
    rets: Seq<Token>,
    semi: Token,
    rest: Seq<Token>,
    end: Span,
)
    requires
        is_word(kw, "function"@),
        is_ident(name),
        is_group(args, Delimiter::Parenthesis),
        spec_params(group_inner(args), group_close(args)) is Ok,
        spec_modifiers(mods).1.len() == 0,
        valid_returns(rets),
        is_punct(semi, ';'),
    ensures
        spec_function(declaration(kw, name, args, mods, rets, semi, rest), end) matches Ok(
            (v, r),
        ) && r == rest && v.name == ident_view_of(name) && v.arguments.params == spec_params(
            group_inner(args),
            group_close(args),
        )->Ok_0.0 && signature_of(v) == ident_view_of(name).text + "("@ + join_types(
            v.arguments.params,
        ) + ")"@,
{
    lemma_declaration_head(kw, name, args, mods, rets, semi, rest, end);
}

/// A body block in place of the modifiers, or in place of the semicolon after the
/// modifiers and the `returns` clause, fails the parse with an error at the block.
pub proof fn lemma_body_rejected(
    kw: Token,
    name: Token,
    args: Token,
    mods: Seq<Token>,
    rets: Seq<Token>,
    body: Token,
    rest: Seq<Token>,
    end: Span,
)
    requires
        is_word(kw, "function"@),
        is_ident(name),
        is_group(args, Delimiter::Parenthesis),
        spec_params(group_inner(args), group_close(args)) is Ok,
        spec_modifiers(mods).1.len() == 0,
        valid_returns(rets),
        is_group(body, Delimiter::Brace),
    ensures
        spec_function(declaration(kw, name, args, mods, rets, body, rest), end) == err::<
            (FunctionView, Seq<Token>),
        >(ErrorKind::Implementation, tok_span(body)),
{
    lemma_declaration_head(kw, name, args, mods, rets, body, rest, end);
}

/// Unfolds the parse of a declaration up to its last token.
proof fn lemma_declaration_head(
    kw: Token,
    name: Token,
    args: Token,
    mods: Seq<Token>,
    rets: Seq<Token>,
    last: Token,
    rest: Seq<Token>,
    end: Span,
)
    requires
        is_word(kw, "function"@),
        is_ident(name),
        is_group(args, Delimiter::Parenthesis),
        spec_params(group_inner(args), group_close(args)) is Ok,
        spec_modifiers(mods).1.len() == 0,
        valid_returns(rets),
        is_punct(last, ';') || is_group(last, Delimiter::Brace),
    ensures
        ({
            let s = declaration(kw, name, args, mods, rets, last, rest);
            let tail = rets + seq![last] + rest;
            let fin = seq![last] + rest;
            &&& spec_attrs(s, end) == Ok::<_, SyntaxError>((Seq::<AttrView>::empty(), s))
            &&& s[0] == kw
            &&& spec_ident(s.drop_first(), end) == Ok::<_, SyntaxError>((ident_view_of(name), seq![args] + (mods + tail)))
            &&& spec_list(seq![args] + (mods + tail), end) matches Ok((l, r2)) && r2 == mods + tail
                && l.params == spec_params(group_inner(args), group_close(args))->Ok_0.0
            &&& spec_modifiers(mods + tail) == (spec_modifiers(mods).0, tail)
            &&& spec_returns(tail, end) matches Ok((_, r4)) && r4 == fin
        }),
{
    let s = declaration(kw, name, args, mods, rets, last, rest);
    let tail = rets + seq![last] + rest;
    let fin = seq![last] + rest;
    let r2 = mods + tail;
    let r1 = seq![args] + r2;
    assert(s =~= seq![kw] + (seq![name] + r1));
    assert(s.drop_first() =~= seq![name] + r1);
    assert((seq![name] + r1).drop_first() =~= r1);
    assert(r1.drop_first() =~= r2);
    assert(r1[0] == args);
    if rets.len() == 0 {
        assert(tail =~= fin);
    } else {
        assert(tail[0] == rets[0]);
        assert(tail.drop_first() =~= seq![rets[1]] + fin);
        assert((seq![rets[1]] + fin).drop_first() =~= fin);
    }
    lemma_modifiers_prefix(mods, tail);
}

} // verus!
