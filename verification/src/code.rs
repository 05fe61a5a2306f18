//! The output of the compiler: tokens, pieces of source text that the
//! compiler of the output scans, and bracketed groups of both.

use crate::cursor::{attr_views, Attribute, AttributeView};
use crate::token::{
    call_site, lemma_group_token_view, views, Delimiter, Ident, Punct, Span, Spacing, Token,
    TokenView,
};
use vstd::prelude::*;
use vstd::string::*;

verus! {

/// One piece of output.
#[derive(Debug, PartialEq, Eq)]
pub enum Code {
    /// A token, carried through from the schema or made here.
    Token(Token),
    /// Source text, to be scanned where the output is compiled.
    Source(String),
    /// A bracketed sequence of pieces.
    Group(Delimiter, Vec<Code>),
}

/// The mathematical value of a [`Code`].
pub ghost enum CodeView {
    Token(TokenView),
    Source(Seq<char>),
    Group(Delimiter, Seq<CodeView>),
}

/// The value of one piece of output.
pub open spec fn code_view(code: Code) -> CodeView
    decreases code,
{
    match code {
        Code::Token(token) => CodeView::Token(token@),
        Code::Source(text) => CodeView::Source(text@),
        Code::Group(delimiter, inner) => CodeView::Group(
            delimiter,
            Seq::new(
                inner@.len(),
                |i: int|
                    if 0 <= i < inner@.len() {
                        code_view(inner@[i])
                    } else {
                        CodeView::Source(Seq::empty())
                    },
            ),
        ),
    }
}

/// The values of a sequence of pieces, element by element.
pub open spec fn code_views(code: Seq<Code>) -> Seq<CodeView> {
    Seq::new(code.len(), |i: int| code_view(code[i]))
}

impl View for Code {
    type V = CodeView;

    open spec fn view(&self) -> CodeView {
        code_view(*self)
    }
}

/// The piece that holds the identifier `name`, made here.
pub open spec fn ident_code(name: Seq<char>) -> CodeView {
    CodeView::Token(TokenView::Ident(name, call_site()))
}

/// The piece that holds the identifier `name` with the span it had in the
/// schema.
pub open spec fn ident_code_at(name: Seq<char>, span: Span) -> CodeView {
    CodeView::Token(TokenView::Ident(name, span))
}

/// The piece that holds the punctuation character `ch`, standing alone.
pub open spec fn punct_code(ch: char) -> CodeView {
    CodeView::Token(TokenView::Punct(Punct { ch, spacing: Spacing::Alone, span: call_site() }))
}

/// The pieces that hold the given tokens.
pub open spec fn tokens_code(tokens: Seq<TokenView>) -> Seq<CodeView> {
    Seq::new(tokens.len(), |i: int| CodeView::Token(tokens[i]))
}

/// The pieces that hold the given attributes: for each its `#` and its group.
pub open spec fn attrs_code(attrs: Seq<AttributeView>) -> Seq<CodeView> {
    Seq::new(
        2 * attrs.len(),
        |i: int|
            if i % 2 == 0 {
                CodeView::Token(TokenView::Punct(attrs[i / 2].punct))
            } else {
                CodeView::Token(TokenView::Group(attrs[i / 2].meta))
            },
    )
}

/// Adding a piece at the end adds its value at the end.
pub proof fn lemma_code_views_push(code: Seq<Code>, piece: Code)
    ensures
        code_views(code.push(piece)) == code_views(code).push(piece@),
{
}

/// The value of a group is the group of the values.
pub proof fn lemma_group_code_view(delimiter: Delimiter, inner: Vec<Code>)
    ensures
        code_view(Code::Group(delimiter, inner)) == CodeView::Group(
            delimiter,
            code_views(inner@),
        ),
{
    assert(code_view(Code::Group(delimiter, inner))->Group_1 =~= code_views(inner@));
}

/// Appends a punctuation character.
pub fn emit_punct(code: &mut Vec<Code>, ch: char)
    ensures
        code_views(final(code)@) == code_views(old(code)@).push(punct_code(ch)),
{
    let piece = Code::Token(Token::punct(ch, Spacing::Alone));
    code.push(piece);
}

/// Appends an identifier.
pub fn emit_ident(code: &mut Vec<Code>, name: &str)
    ensures
        code_views(final(code)@) == code_views(old(code)@).push(ident_code(name@)),
{
    let piece = Code::Token(Token::ident(name));
    code.push(piece);
}

/// Appends an identifier with the span it had in the schema.
pub fn emit_ident_at(code: &mut Vec<Code>, name: &str, span: Span)
    ensures
        code_views(final(code)@) == code_views(old(code)@).push(ident_code_at(name@, span)),
{
    let piece = Code::Token(Token::Ident(Ident { name: String::from_str(name), span }));
    code.push(piece);
}

/// Appends a piece of source text.
pub fn emit_text(code: &mut Vec<Code>, text: &str)
    ensures
        code_views(final(code)@) == code_views(old(code)@).push(CodeView::Source(text@)),
{
    let piece = Code::Source(String::from_str(text));
    code.push(piece);
}

/// Appends the pieces `body` as one group in the brackets `delim`.
pub fn emit_group_f(code: &mut Vec<Code>, delim: Delimiter, body: Vec<Code>)
    ensures
        code_views(final(code)@) == code_views(old(code)@).push(
            CodeView::Group(delim, code_views(body@)),
        ),
{
    proof {
        lemma_group_code_view(delim, body);
    }
    let piece = Code::Group(delim, body);
    code.push(piece);
}

/// Appends copies of the given tokens.
pub fn emit_tokens(code: &mut Vec<Code>, tokens: &[Token])
    ensures
        code_views(final(code)@) == code_views(old(code)@) + tokens_code(views(tokens@)),
{
    let mut i: usize = 0;
    while i < tokens.len()
        invariant
            i <= tokens@.len(),
            code_views(code@) == code_views(old(code)@) + tokens_code(
                views(tokens@).take(i as int),
            ),
        decreases tokens@.len() - i,
    {
        let piece = Code::Token(tokens[i].clone());
        proof {
            lemma_code_views_push(code@, piece);
        }
        code.push(piece);
        i += 1;
    }
}

/// Appends the given attributes as they were written.
pub fn emit_attrs(code: &mut Vec<Code>, attrs: &[Attribute])
    ensures
        code_views(final(code)@) == code_views(old(code)@) + attrs_code(attr_views(attrs@)),
{
    let mut i: usize = 0;
    while i < attrs.len()
        invariant
            i <= attrs@.len(),
            code_views(code@) == code_views(old(code)@) + attrs_code(
                attr_views(attrs@).take(i as int),
            ),
        decreases attrs@.len() - i,
    {
        let attr = &attrs[i];
        let punct = Code::Token(Token::Punct(attr.punct));
        let meta = attr.meta.clone();
        proof {
            lemma_group_token_view(meta);
        }
        let group = Code::Token(Token::Group(meta));
        proof {
            lemma_code_views_push(code@, punct);
            lemma_code_views_push(code@.push(punct), group);
        }
        code.push(punct);
        code.push(group);
        i += 1;
    }
}

/// Appends a visibility as it was written.
pub fn emit_vis(code: &mut Vec<Code>, vis: &[Token])
    ensures
        code_views(final(code)@) == code_views(old(code)@) + tokens_code(views(vis@)),
{
    emit_tokens(code, vis);
}

/// Appends a type as it was written.
pub fn emit_ty(code: &mut Vec<Code>, ty: &[Token])
    ensures
        code_views(final(code)@) == code_views(old(code)@) + tokens_code(views(ty@)),
{
    emit_tokens(code, ty);
}

/// Appends `impl <ident> { <body> }`.
pub fn emit_impl_f(code: &mut Vec<Code>, ident: &str, span: Span, body: Vec<Code>)
    ensures
        code_views(final(code)@) == code_views(old(code)@) + seq![
            ident_code("impl"@),
            ident_code_at(ident@, span),
            CodeView::Group(Delimiter::Brace, code_views(body@)),
        ],
{
    emit_ident(code, "impl");
    emit_ident_at(code, ident, span);
    emit_group_f(code, Delimiter::Brace, body);
}

} // verus!
