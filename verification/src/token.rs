//! Token trees: the already scanned input of the compiler, and the pieces it
//! carries through to its output untouched.

use vstd::prelude::*;
use vstd::string::*;

verus! {

/// The brackets around a group of tokens.
#[derive(Clone, Copy, Debug, PartialEq, Eq, Structural)]
pub enum Delimiter {
    /// `( .. )`
    Parenthesis,
    /// `{ .. }`
    Brace,
    /// `[ .. ]`
    Bracket,
    /// A group without visible brackets.
    Invisible,
}

/// Whether a punctuation character is glued to the one that follows it.
#[derive(Clone, Copy, Debug, PartialEq, Eq, Structural)]
pub enum Spacing {
    /// The next token is separate, as the `+` in `a + b`.
    Alone,
    /// The next token continues this one, as the first `:` in `::`.
    Joint,
}

/// Where a token stood in the source that was scanned: a mark that the
/// caller chooses and that is carried along with the token, never looked at.
/// The mark 0 stands for the place where the compiler was called; tokens
/// that are made here carry it.
#[derive(Clone, Copy, Debug, PartialEq, Eq, Structural)]
pub struct Span {
    pub mark: usize,
}

/// The span of the tokens that are made here.
pub open spec fn call_site() -> Span {
    Span { mark: 0 }
}

impl Span {
    /// The span of the tokens that are made here.
    pub fn call_site() -> (span: Span)
        ensures
            span == call_site(),
    {
        Span { mark: 0 }
    }
}

/// An identifier or keyword.
#[derive(Debug, PartialEq, Eq)]
pub struct Ident {
    pub name: String,
    pub span: Span,
}

/// A single punctuation character.
#[derive(Clone, Copy, Debug, PartialEq, Eq, Structural)]
pub struct Punct {
    pub ch: char,
    pub spacing: Spacing,
    pub span: Span,
}

/// A literal, kept as the text it was written with.
#[derive(Debug, PartialEq, Eq)]
pub struct Literal {
    pub text: String,
    pub span: Span,
}

/// A bracketed sequence of tokens.
#[derive(Debug, PartialEq, Eq)]
pub struct Group {
    pub delimiter: Delimiter,
    pub stream: Vec<Token>,
    pub span: Span,
}

/// One node of a token tree.
#[derive(Debug, PartialEq, Eq)]
pub enum Token {
    Ident(Ident),
    Punct(Punct),
    Literal(Literal),
    Group(Group),
}

/// The mathematical value of a [`Group`].
pub ghost struct GroupView {
    pub delimiter: Delimiter,
    pub stream: Seq<TokenView>,
    pub span: Span,
}

/// The mathematical value of a [`Token`]: identifiers and literals are the
/// characters they are spelled with, and their span.
pub ghost enum TokenView {
    Ident(Seq<char>, Span),
    Punct(Punct),
    Literal(Seq<char>, Span),
    Group(GroupView),
}

/// The value of one token.
pub open spec fn token_view(token: Token) -> TokenView
    decreases token,
{
    match token {
        Token::Ident(ident) => TokenView::Ident(ident.name@, ident.span),
        Token::Punct(punct) => TokenView::Punct(punct),
        Token::Literal(literal) => TokenView::Literal(literal.text@, literal.span),
        Token::Group(group) => TokenView::Group(
            GroupView {
                delimiter: group.delimiter,
                span: group.span,
                stream: Seq::new(
                    group.stream@.len(),
                    |i: int|
                        if 0 <= i < group.stream@.len() {
                            token_view(group.stream@[i])
                        } else {
                            TokenView::Punct(
                                Punct { ch: ' ', spacing: Spacing::Alone, span: group.span },
                            )
                        },
                ),
            },
        ),
    }
}

/// The values of a sequence of tokens, element by element.
pub open spec fn views(tokens: Seq<Token>) -> Seq<TokenView> {
    Seq::new(tokens.len(), |i: int| token_view(tokens[i]))
}

impl View for Ident {
    type V = Seq<char>;

    open spec fn view(&self) -> Seq<char> {
        self.name@
    }
}

impl View for Literal {
    type V = Seq<char>;

    open spec fn view(&self) -> Seq<char> {
        self.text@
    }
}

impl View for Group {
    type V = GroupView;

    open spec fn view(&self) -> GroupView {
        GroupView { delimiter: self.delimiter, stream: views(self.stream@), span: self.span }
    }
}

impl View for Token {
    type V = TokenView;

    open spec fn view(&self) -> TokenView {
        token_view(*self)
    }
}

/// The value of a group token is the value of the group inside it.
pub proof fn lemma_group_token_view(group: Group)
    ensures
        token_view(Token::Group(group)) == TokenView::Group(group@),
{
    assert(token_view(Token::Group(group))->Group_0.stream =~= views(group.stream@));
}

impl Clone for Ident {
    fn clone(&self) -> (res: Self)
        ensures
            res@ == self@,
            res.span == self.span,
    {
        Ident { name: self.name.clone(), span: self.span }
    }
}

impl Clone for Literal {
    fn clone(&self) -> (res: Self)
        ensures
            res@ == self@,
            res.span == self.span,
    {
        Literal { text: self.text.clone(), span: self.span }
    }
}

impl Clone for Group {
    fn clone(&self) -> (res: Self)
        ensures
            res@ == self@,
        decreases self,
    {
        Group {
            delimiter: self.delimiter,
            stream: clone_tokens(self.stream.as_slice()),
            span: self.span,
        }
    }
}

impl Clone for Token {
    fn clone(&self) -> (res: Self)
        ensures
            res@ == self@,
        decreases self,
    {
        match self {
            Token::Ident(ident) => Token::Ident(ident.clone()),
            Token::Punct(punct) => Token::Punct(*punct),
            Token::Literal(literal) => Token::Literal(literal.clone()),
            Token::Group(group) => {
                let copy = group.clone();
                proof {
                    lemma_group_token_view(*group);
                    lemma_group_token_view(copy);
                }
                Token::Group(copy)
            },
        }
    }
}

/// Copies a run of tokens.
pub fn clone_tokens(tokens: &[Token]) -> (res: Vec<Token>)
    ensures
        views(res@) == views(tokens@),
    decreases tokens@,
{
    let mut res: Vec<Token> = Vec::new();
    let mut i: usize = 0;
    while i < tokens.len()
        invariant
            i <= tokens.len(),
            res@.len() == i,
            forall|k: int| 0 <= k < i ==> token_view(res@[k]) == token_view(tokens@[k]),
        decreases tokens.len() - i,
    {
        let copy = tokens[i].clone();
        res.push(copy);
        i += 1;
    }
    res
}

impl Token {
    /// The identifier spelled `name`, made here.
    pub fn ident(name: &str) -> (token: Token)
        ensures
            token@ == TokenView::Ident(name@, call_site()),
    {
        Token::Ident(Ident { name: String::from_str(name), span: Span::call_site() })
    }

    /// The punctuation character `ch` with the given spacing, made here.
    pub fn punct(ch: char, spacing: Spacing) -> (token: Token)
        ensures
            token@ == TokenView::Punct(Punct { ch, spacing, span: call_site() }),
    {
        Token::Punct(Punct { ch, spacing, span: Span::call_site() })
    }

    /// The literal written as `text`, made here.
    pub fn literal(text: &str) -> (token: Token)
        ensures
            token@ == TokenView::Literal(text@, call_site()),
    {
        Token::Literal(Literal { text: String::from_str(text), span: Span::call_site() })
    }

    /// The same token with the span `span`; what is inside a group keeps
    /// its own spans.
    pub fn at(self, span: Span) -> (token: Token)
        ensures
            token@ == match self@ {
                TokenView::Ident(name, _) => TokenView::Ident(name, span),
                TokenView::Punct(punct) => TokenView::Punct(Punct { span, ..punct }),
                TokenView::Literal(text, _) => TokenView::Literal(text, span),
                TokenView::Group(group) => TokenView::Group(GroupView { span, ..group }),
            },
    {
        match self {
            Token::Ident(ident) => Token::Ident(Ident { name: ident.name, span }),
            Token::Punct(punct) => Token::Punct(
                Punct { ch: punct.ch, spacing: punct.spacing, span },
            ),
            Token::Literal(literal) => Token::Literal(Literal { text: literal.text, span }),
            Token::Group(group) => {
                let moved = Group { delimiter: group.delimiter, stream: group.stream, span };
                proof {
                    lemma_group_token_view(group);
                    lemma_group_token_view(moved);
                }
                Token::Group(moved)
            },
        }
    }

    /// The tokens `stream` in the brackets `delimiter`, made here.
    pub fn group(delimiter: Delimiter, stream: Vec<Token>) -> (token: Token)
        ensures
            token@ == TokenView::Group(
                GroupView { delimiter, stream: views(stream@), span: call_site() },
            ),
    {
        let group = Group { delimiter, stream, span: Span::call_site() };
        proof {
            lemma_group_token_view(group);
        }
        Token::Group(group)
    }
}

} // verus!
