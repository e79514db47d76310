use proc_macro2::{TokenStream, TokenTree};
use sol_function::error::{ErrorKind, SyntaxError};
use sol_function::function::ItemFunction;
use sol_function::token::{Delimiter, Span, Token};

fn span_of(s: proc_macro2::Span) -> Span {
    let r = s.byte_range();
    Span { lo: r.start, hi: r.end }
}

fn convert(tt: TokenTree) -> Token {
    match tt {
        TokenTree::Group(g) => Token::Group {
            delim: match g.delimiter() {
                proc_macro2::Delimiter::Parenthesis => Delimiter::Parenthesis,
                proc_macro2::Delimiter::Brace => Delimiter::Brace,
                proc_macro2::Delimiter::Bracket => Delimiter::Bracket,
                proc_macro2::Delimiter::None => Delimiter::Invisible,
            },
            inner: g.stream().into_iter().map(convert).collect(),
            open: span_of(g.span_open()),
            close: span_of(g.span_close()),
        },
        TokenTree::Ident(i) => Token::Ident { text: i.to_string(), span: span_of(i.span()) },
        TokenTree::Punct(p) => Token::Punct { ch: p.as_char(), span: span_of(p.span()) },
        TokenTree::Literal(l) => Token::Literal { text: l.to_string(), span: span_of(l.span()) },
    }
}

fn tokens(src: &str) -> Vec<Token> {
    let ts: TokenStream = src.parse().unwrap();
    ts.into_iter().map(convert).collect()
}

fn parse(src: &str) -> Result<ItemFunction, SyntaxError> {
    ItemFunction::from_tokens(tokens(src), Span { lo: src.len(), hi: src.len() })
}

fn type_names(f: &ItemFunction) -> Vec<String> {
    f.call_type().types.iter().map(|t| t.text.clone()).collect()
}

#[test]
fn hello_world_declaration() {
    let f = parse("function helloWorld() external pure returns(string memory);").unwrap();
    assert!(!f.is_void());
    assert_eq!(f.signature(), "helloWorld()");
    let t = f.call_type();
    assert!(t.types.is_empty());
    assert!(!t.trailing_comma);
    assert_eq!(f.name.text, "helloWorld");
    assert_eq!(f.attributes.len(), 2);
    assert_eq!(f.attributes[0].name.text, "external");
    assert_eq!(f.attributes[1].name.text, "pure");
    let r = f.returns_clause.as_ref().unwrap();
    assert_eq!(r.list.list.len(), 1);
    assert_eq!(r.list.list[0].ty.text, "string");
    assert_eq!(r.list.list[0].storage.as_ref().unwrap().text, "memory");
    assert!(r.list.list[0].name.is_none());
}

#[test]
fn one_parameter_gets_trailing_comma() {
    let f = parse("function foo(uint256 a) public;").unwrap();
    assert!(f.is_void());
    assert_eq!(f.signature(), "foo(uint256)");
    let t = f.call_type();
    assert_eq!(type_names(&f), vec!["uint256".to_string()]);
    assert!(t.trailing_comma);
    assert_eq!(f.arguments.list[0].name.as_ref().unwrap().text, "a");
}

#[test]
fn two_parameters_signature() {
    let f = parse("function bar(uint256 a, address b) external returns(bool);").unwrap();
    assert_eq!(f.signature(), "bar(uint256,address)");
    assert!(!f.is_void());
}

#[test]
fn body_is_rejected() {
    let src = "function baz() { }";
    let e = parse(src).unwrap_err();
    assert_eq!(e.kind, ErrorKind::Implementation);
    assert_eq!(e.message(), "declaration cannot have an implementation");
    assert_eq!(e.span, Span { lo: 15, hi: 16 });
}

#[test]
fn two_parameters_call_type() {
    let f = parse("function qux(uint256 a, uint256 b);").unwrap();
    assert!(f.is_void());
    let t = f.call_type();
    assert_eq!(type_names(&f), vec!["uint256".to_string(), "uint256".to_string()]);
    assert!(!t.trailing_comma);
}

#[test]
fn body_after_modifiers_is_rejected() {
    let e = parse("function f() external view {}").unwrap_err();
    assert_eq!(e.kind, ErrorKind::Implementation);
    assert_eq!(e.span, Span { lo: 27, hi: 28 });
}

#[test]
fn body_after_returns_is_rejected() {
    let e = parse("function f() returns (bool) { return true; }").unwrap_err();
    assert_eq!(e.kind, ErrorKind::Implementation);
    assert_eq!(e.span, Span { lo: 28, hi: 29 });
}

#[test]
fn empty_returns_is_void() {
    let f = parse("function f() returns ();").unwrap();
    assert!(f.returns_clause.is_some());
    assert!(f.is_void());
}

#[test]
fn nonempty_returns_is_not_void() {
    let f = parse("function f() view returns (uint256, bool);").unwrap();
    assert!(!f.is_void());
}

#[test]
fn set_span_moves_only_the_name() {
    let mut f = parse("function foo(uint256 a) public;").unwrap();
    assert_eq!(f.span(), Span { lo: 9, hi: 12 });
    let s = Span { lo: 100, hi: 107 };
    f.set_span(s);
    assert_eq!(f.span(), s);
    assert_eq!(f.name.span, s);
    assert_eq!(f.name.text, "foo");
    assert_eq!(f.function_token, Span { lo: 0, hi: 8 });
    assert_eq!(f.arguments.open, Span { lo: 12, hi: 13 });
    assert_eq!(f.arguments.list[0].ty.span, Span { lo: 13, hi: 20 });
    assert_eq!(f.attributes[0].name.span, Span { lo: 24, hi: 30 });
    assert_eq!(f.semi_token, Span { lo: 30, hi: 31 });
}

#[test]
fn signature_uses_canonical_integer_names() {
    let f = parse("function g(uint a, int b, bytes32 c);").unwrap();
    assert_eq!(f.signature(), "g(uint256,int256,bytes32)");
}

#[test]
fn signature_skips_storage_and_names() {
    let f = parse("function h(string memory s, bytes calldata, address);").unwrap();
    assert_eq!(f.signature(), "h(string,bytes,address)");
    assert_eq!(f.arguments.list[1].storage.as_ref().unwrap().text, "calldata");
    assert!(f.arguments.list[1].name.is_none());
    assert!(f.arguments.list[2].storage.is_none());
}

#[test]
fn trailing_comma_in_parameters() {
    let f = parse("function t(uint256 a,);").unwrap();
    assert!(f.arguments.trailing);
    assert_eq!(f.signature(), "t(uint256)");
    let g = parse("function t(uint256 a, bool b);").unwrap();
    assert!(!g.arguments.trailing);
    assert!(!g.call_type().trailing_comma);
}

#[test]
fn attributes_and_modifier_arguments() {
    let f = parse("#[doc = \"x\"] function m() external override(A, B) onlyOwner returns (uint);").unwrap();
    assert_eq!(f.attrs.len(), 1);
    assert_eq!(f.attrs[0].body.len(), 3);
    assert_eq!(f.attributes.len(), 3);
    assert!(f.attributes[0].args.is_none());
    assert_eq!(f.attributes[1].name.text, "override");
    assert_eq!(f.attributes[1].args.as_ref().unwrap().len(), 3);
    assert!(f.attributes[2].args.is_none());
    assert_eq!(f.signature(), "m()");
}

#[test]
fn missing_semicolon() {
    let e = parse("function f() external").unwrap_err();
    assert_eq!(e.kind, ErrorKind::ExpectedSemi);
    assert_eq!(e.span, Span { lo: 21, hi: 21 });
    assert_eq!(e.message(), "expected `;`");
}

#[test]
fn missing_parameter_list() {
    let e = parse("function f;").unwrap_err();
    assert_eq!(e.kind, ErrorKind::ExpectedParens);
    assert_eq!(e.span, Span { lo: 10, hi: 11 });
}

#[test]
fn missing_name() {
    let e = parse("function (uint a);").unwrap_err();
    assert_eq!(e.kind, ErrorKind::ExpectedIdent);
    assert_eq!(e.span, Span { lo: 9, hi: 10 });
}

#[test]
fn not_a_function() {
    let e = parse("event E(uint a);").unwrap_err();
    assert_eq!(e.kind, ErrorKind::ExpectedFunction);
    assert_eq!(e.span, Span { lo: 0, hi: 5 });
}

#[test]
fn pound_without_brackets() {
    let e = parse("# function f();").unwrap_err();
    assert_eq!(e.kind, ErrorKind::ExpectedBracket);
    assert_eq!(e.span, Span { lo: 2, hi: 10 });
}

#[test]
fn missing_comma_between_parameters() {
    let e = parse("function f(uint a b);").unwrap_err();
    assert_eq!(e.kind, ErrorKind::ExpectedComma);
    assert_eq!(e.span, Span { lo: 18, hi: 19 });
}

#[test]
fn parameter_without_type() {
    let e = parse("function f(, uint a);").unwrap_err();
    assert_eq!(e.kind, ErrorKind::ExpectedIdent);
    assert_eq!(e.span, Span { lo: 11, hi: 12 });
}

#[test]
fn tokens_after_declaration() {
    let e = parse("function f(); x").unwrap_err();
    assert_eq!(e.kind, ErrorKind::UnexpectedToken);
    assert_eq!(e.span, Span { lo: 14, hi: 15 });
}

#[test]
fn parse_leaves_what_follows() {
    let mut toks = tokens("function f(); function g();");
    let end = Span { lo: 27, hi: 27 };
    let f = ItemFunction::parse(&mut toks, end).unwrap();
    assert_eq!(f.name.text, "f");
    let g = ItemFunction::parse(&mut toks, end).unwrap();
    assert_eq!(g.name.text, "g");
    assert!(toks.is_empty());
}
