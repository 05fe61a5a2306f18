//! Reading a run of tokens from left to right: lookahead queries, a cursor,
//! and the small parsers that the schema parsers are built from.

use crate::error::{plain, ErrorKind, ParseError, ParseErrorView};
use crate::text::same_text;
use crate::token::{
    lemma_group_token_view, token_view, views, Delimiter, Group, GroupView, Ident, Literal, Punct,
    Spacing, Token, TokenView,
};
use vstd::prelude::*;
use vstd::slice::*;

verus! {

/// Whether the first token is an identifier.
pub open spec fn starts_with_ident(s: Seq<TokenView>) -> bool {
    s.len() > 0 && s[0] is Ident
}

/// Whether the first token is the identifier spelled `name`.
pub open spec fn starts_with_keyword(s: Seq<TokenView>, name: Seq<char>) -> bool {
    s.len() > 0 && s[0] is Ident && s[0]->Ident_0 == name
}

/// Whether the first token is the punctuation character `ch`.
pub open spec fn starts_with_punct(s: Seq<TokenView>, ch: char) -> bool {
    s.len() > 0 && s[0] is Punct && s[0]->Punct_0.ch == ch
}

/// Whether the first token is a literal.
pub open spec fn starts_with_literal(s: Seq<TokenView>) -> bool {
    s.len() > 0 && s[0] is Literal
}

/// Whether the first token is a group in the brackets `delimiter`.
pub open spec fn starts_with_group(s: Seq<TokenView>, delimiter: Delimiter) -> bool {
    s.len() > 0 && s[0] is Group && s[0]->Group_0.delimiter == delimiter
}

/// Whether the tokens begin with `name ( .. )`.
pub open spec fn starts_with_meta(s: Seq<TokenView>) -> bool {
    starts_with_ident(s) && starts_with_group(s.skip(1), Delimiter::Parenthesis)
}

/// Whether the tokens begin with `name = literal`.
pub open spec fn starts_with_kv(s: Seq<TokenView>) -> bool {
    starts_with_ident(s) && starts_with_punct(s.skip(1), '=') && starts_with_literal(s.skip(2))
}

/// Whether the tokens begin with `#` and a group.
pub open spec fn starts_with_attr(s: Seq<TokenView>) -> bool {
    starts_with_punct(s, '#') && s.len() > 1 && s[1] is Group
}

/// Whether an entry of a comma separated list may end here: at a comma, or
/// at the end of the tokens.
pub open spec fn at_comma_or_end(s: Seq<TokenView>) -> bool {
    s.len() == 0 || starts_with_punct(s, ',')
}

/// The tokens after the comma that ends an entry, if there is one.
pub open spec fn after_comma(s: Seq<TokenView>) -> Seq<TokenView> {
    if starts_with_punct(s, ',') {
        s.skip(1)
    } else {
        s
    }
}

/// `name = literal`, as read from the tokens.
#[derive(Debug)]
pub struct KeyValue {
    pub ident: Ident,
    pub punct: Punct,
    pub value: Literal,
}

/// `name ( .. )`, as read from the tokens.
#[derive(Debug)]
pub struct MetaV1<'a> {
    pub ident: Ident,
    pub args: &'a Group,
}

/// An attribute: `#` and the group that follows it.
#[derive(Debug, PartialEq, Eq)]
pub struct Attribute {
    pub punct: Punct,
    pub meta: Group,
}

/// The mathematical value of an [`Attribute`].
pub ghost struct AttributeView {
    pub punct: Punct,
    pub meta: GroupView,
}

impl View for Attribute {
    type V = AttributeView;

    open spec fn view(&self) -> AttributeView {
        AttributeView { punct: self.punct, meta: self.meta@ }
    }
}

impl Clone for Attribute {
    fn clone(&self) -> (res: Self)
        ensures
            res@ == self@,
    {
        Attribute { punct: self.punct, meta: self.meta.clone() }
    }
}

/// The values of a sequence of attributes, element by element.
pub open spec fn attr_views(attrs: Seq<Attribute>) -> Seq<AttributeView> {
    Seq::new(attrs.len(), |i: int| attrs[i]@)
}

/// The tokens that an attribute was read from.
pub open spec fn attr_tokens(attr: AttributeView) -> Seq<TokenView> {
    seq![TokenView::Punct(attr.punct), TokenView::Group(attr.meta)]
}

/// Whether the first token is an identifier.
pub fn is_ident(tokens: &[Token]) -> (res: bool)
    ensures
        res == starts_with_ident(views(tokens@)),
{
    if tokens.len() == 0 {
        return false;
    }
    match &tokens[0] {
        Token::Ident(_) => true,
        _ => false,
    }
}

/// Whether the first token is the identifier spelled `name`.
pub fn is_keyword(tokens: &[Token], name: &str) -> (res: bool)
    ensures
        res == starts_with_keyword(views(tokens@), name@),
{
    if tokens.len() == 0 {
        return false;
    }
    match &tokens[0] {
        Token::Ident(ident) => same_text(ident.name.as_str(), name),
        _ => false,
    }
}

/// Whether the first token is the punctuation character `chr`.
pub fn is_punct(tokens: &[Token], chr: char) -> (res: bool)
    ensures
        res == starts_with_punct(views(tokens@), chr),
{
    if tokens.len() == 0 {
        return false;
    }
    match &tokens[0] {
        Token::Punct(punct) => punct.ch == chr,
        _ => false,
    }
}

/// Whether the first token is a literal.
pub fn is_literal(tokens: &[Token]) -> (res: bool)
    ensures
        res == starts_with_literal(views(tokens@)),
{
    if tokens.len() == 0 {
        return false;
    }
    match &tokens[0] {
        Token::Literal(_) => true,
        _ => false,
    }
}

/// Whether the first token is a group in the brackets `delim`.
pub fn is_group(tokens: &[Token], delim: Delimiter) -> (res: bool)
    ensures
        res == starts_with_group(views(tokens@), delim),
{
    if tokens.len() == 0 {
        return false;
    }
    match &tokens[0] {
        Token::Group(group) => {
            group.delimiter == delim
        },
        _ => false,
    }
}

/// Whether no token is left.
pub fn is_end(tokens: &[Token]) -> (res: bool)
    ensures
        res == (views(tokens@).len() == 0),
{
    tokens.len() == 0
}

/// A position in a run of tokens: what is still to be read.
pub struct Cursor<'a> {
    pub rest: &'a [Token],
}

impl<'a> View for Cursor<'a> {
    type V = Seq<TokenView>;

    open spec fn view(&self) -> Seq<TokenView> {
        views(self.rest@)
    }
}

impl<'a> Cursor<'a> {
    /// A cursor at the start of `tokens`.
    pub fn new(tokens: &'a [Token]) -> (cursor: Cursor<'a>)
        ensures
            cursor@ == views(tokens@),
            cursor.rest@ == tokens@,
    {
        Cursor { rest: tokens }
    }

    /// The tokens still to be read.
    pub fn as_slice(&self) -> (rest: &'a [Token])
        ensures
            rest@ == self.rest@,
    {
        self.rest
    }

    /// How many tokens are still to be read.
    pub fn len(&self) -> (n: usize)
        ensures
            n == self@.len(),
    {
        self.rest.len()
    }

    /// The tokens from the `n`-th on.
    pub fn peek_from(&self, n: usize) -> (rest: &'a [Token])
        requires
            n <= self@.len(),
        ensures
            views(rest@) == self@.skip(n as int),
    {
        let rest = slice_subrange(self.rest, n, self.rest.len());
        rest
    }

    /// Takes the next token, if there is one.
    pub fn next(&mut self) -> (token: Option<&'a Token>)
        ensures
            old(self)@.len() == 0 ==> token is None && final(self)@ == old(self)@,
            old(self)@.len() > 0 ==> token is Some && token->0@ == old(self)@[0] && final(self)@
                == old(self)@.skip(1),
    {
        let len = self.rest.len();
        if len == 0 {
            return None;
        }
        let token = &self.rest[0];
        self.rest = slice_subrange(self.rest, 1, len);
        Some(token)
    }
}

/// Takes the next token where it is the punctuation character `punct`.
pub fn parse_punct<'a>(tokens: &mut Cursor<'a>, punct: char) -> (res: Option<Punct>)
    ensures
        match res {
            Some(p) => starts_with_punct(old(tokens)@, punct) && old(tokens)@[0]
                == TokenView::Punct(p) && final(tokens)@ == old(tokens)@.skip(1),
            None => !starts_with_punct(old(tokens)@, punct) && final(tokens)@ == old(tokens)@,
        },
{
    if !is_punct(tokens.as_slice(), punct) {
        return None;
    }
    match tokens.next() {
        Some(Token::Punct(p)) => Some(*p),
        _ => None,
    }
}

/// Takes the next token, whatever it is, and hands back its name where it
/// is an identifier.
pub fn parse_ident<'a>(tokens: &mut Cursor<'a>) -> (res: Option<Ident>)
    ensures
        match res {
            Some(ident) => starts_with_ident(old(tokens)@) && old(tokens)@[0] == TokenView::Ident(
                ident@,
                ident.span,
            ),
            None => !starts_with_ident(old(tokens)@),
        },
        final(tokens)@ == if old(tokens)@.len() > 0 {
            old(tokens)@.skip(1)
        } else {
            old(tokens)@
        },
{
    match tokens.next() {
        Some(Token::Ident(ident)) => Some(ident.clone()),
        _ => None,
    }
}

/// Takes the next token where it is the identifier spelled `keyword`.
pub fn parse_keyword<'a>(tokens: &mut Cursor<'a>, keyword: &str) -> (res: Option<Ident>)
    ensures
        match res {
            Some(ident) => starts_with_keyword(old(tokens)@, keyword@) && old(tokens)@[0]
                == TokenView::Ident(ident@, ident.span) && final(tokens)@ == old(tokens)@.skip(1),
            None => !starts_with_keyword(old(tokens)@, keyword@) && final(tokens)@ == old(
                tokens,
            )@,
        },
{
    if !is_keyword(tokens.as_slice(), keyword) {
        return None;
    }
    match tokens.next() {
        Some(Token::Ident(ident)) => Some(ident.clone()),
        _ => None,
    }
}

/// Takes the next token where it is a group in the brackets `delim`.
pub fn parse_group<'a>(tokens: &mut Cursor<'a>, delim: Delimiter) -> (res: Option<&'a Group>)
    ensures
        match res {
            Some(group) => starts_with_group(old(tokens)@, delim) && old(tokens)@[0]
                == TokenView::Group(group@) && final(tokens)@ == old(tokens)@.skip(1),
            None => !starts_with_group(old(tokens)@, delim) && final(tokens)@ == old(tokens)@,
        },
{
    if !is_group(tokens.as_slice(), delim) {
        return None;
    }
    match tokens.next() {
        Some(Token::Group(group)) => {
            proof {
                lemma_group_token_view(*group);
            }
            Some(group)
        },
        _ => None,
    }
}

/// Accepts the end of the tokens, or takes a comma.
pub fn parse_comma<'a>(tokens: &mut Cursor<'a>) -> (res: Option<()>)
    ensures
        res is Some == at_comma_or_end(old(tokens)@),
        final(tokens)@ == after_comma(old(tokens)@),
{
    if is_end(tokens.as_slice()) {
        Some(())
    } else if is_punct(tokens.as_slice(), ',') {
        let _ = tokens.next();
        Some(())
    } else {
        None
    }
}

/// Accepts the end of the tokens.
pub fn parse_end<'a>(tokens: &mut Cursor<'a>) -> (res: Option<()>)
    ensures
        res is Some == (old(tokens)@.len() == 0),
        final(tokens)@ == old(tokens)@,
{
    if tokens.len() != 0 {
        return None;
    }
    Some(())
}

/// Takes `name ( .. )` where the tokens begin with it.
pub fn parse_meta_v1<'a>(tokens: &mut Cursor<'a>) -> (res: Option<MetaV1<'a>>)
    ensures
        match res {
            Some(meta) => starts_with_meta(old(tokens)@) && old(tokens)@[0] == TokenView::Ident(
                meta.ident@,
                meta.ident.span,
            ) && old(tokens)@[1] == TokenView::Group(meta.args@) && final(tokens)@ == old(
                tokens,
            )@.skip(2),
            None => !starts_with_meta(old(tokens)@) && final(tokens)@ == old(tokens)@,
        },
{
    if !(is_ident(tokens.as_slice()) && is_group(tokens.peek_from(1), Delimiter::Parenthesis)) {
        return None;
    }
    let first = tokens.next();
    let second = tokens.next();
    match (first, second) {
        (Some(Token::Ident(ident)), Some(Token::Group(group))) => {
            proof {
                lemma_group_token_view(*group);
            }
            Some(MetaV1 { ident: ident.clone(), args: group })
        },
        _ => None,
    }
}

/// Takes `name = literal` where the tokens begin with it.
pub fn parse_kv<'a>(tokens: &mut Cursor<'a>) -> (res: Option<KeyValue>)
    ensures
        match res {
            Some(kv) => starts_with_kv(old(tokens)@) && old(tokens)@[0] == TokenView::Ident(
                kv.ident@,
                kv.ident.span,
            ) && old(tokens)@[1] == TokenView::Punct(kv.punct) && old(tokens)@[2]
                == TokenView::Literal(kv.value@, kv.value.span) && final(tokens)@ == old(
                tokens,
            )@.skip(3),
            None => !starts_with_kv(old(tokens)@) && final(tokens)@ == old(tokens)@,
        },
{
    if !(is_ident(tokens.as_slice()) && is_punct(tokens.peek_from(1), '=') && is_literal(
        tokens.peek_from(2),
    )) {
        return None;
    }
    let first = tokens.next();
    let second = tokens.next();
    let third = tokens.next();
    match (first, second, third) {
        (Some(Token::Ident(ident)), Some(Token::Punct(punct)), Some(Token::Literal(value))) => {
            Some(KeyValue { ident: ident.clone(), punct: *punct, value: value.clone() })
        },
        _ => None,
    }
}

/// The attributes at the front of the tokens, added to `acc`, and the
/// tokens after them. A `#` that no group follows is an error.
pub open spec fn attrs_from(s: Seq<TokenView>, acc: Seq<AttributeView>) -> Result<
    (Seq<AttributeView>, Seq<TokenView>),
    ParseErrorView,
>
    decreases s.len(),
{
    if !starts_with_punct(s, '#') {
        Ok((acc, s))
    } else if !starts_with_attr(s) {
        Err(plain(ErrorKind::MalformedAttribute))
    } else {
        attrs_from(
            s.skip(2),
            acc.push(AttributeView { punct: s[0]->Punct_0, meta: s[1]->Group_0 }),
        )
    }
}

/// The attributes at the front of the tokens, and the tokens after them.
pub open spec fn parse_attrs_spec(s: Seq<TokenView>) -> Result<
    (Seq<AttributeView>, Seq<TokenView>),
    ParseErrorView,
> {
    attrs_from(s, Seq::empty())
}

/// How many tokens at the front make up a visibility: `pub`, and the
/// group in parentheses where one follows it, as in `pub(crate)`.
pub open spec fn vis_len(s: Seq<TokenView>) -> int {
    if !starts_with_keyword(s, "pub"@) {
        0
    } else if starts_with_group(s.skip(1), Delimiter::Parenthesis) {
        2
    } else {
        1
    }
}

/// Whether a token is the `-` of an arrow `->`: a `-` that is glued to
/// what follows it.
pub open spec fn is_arrow_start(token: TokenView) -> bool {
    token matches TokenView::Punct(p) && p.ch == '-' && p.spacing == Spacing::Joint
}

/// What a token adds to the depth of angle brackets: a `<` opens one, a
/// `>` closes one, unless it directly follows the `-` of an arrow.
pub open spec fn angle_step(token: TokenView, after_dash: bool) -> int {
    match token {
        TokenView::Punct(p) => if p.ch == '<' {
            1
        } else if p.ch == '>' && !after_dash {
            -1
        } else {
            0
        },
        _ => 0,
    }
}

/// The depth of angle brackets after a run of tokens, of which the first
/// follows the `-` of an arrow or not: how many `<` the run holds, less how
/// many `>` that are not the head of an arrow.
pub open spec fn angle_depth_from(s: Seq<TokenView>, after_dash: bool) -> int
    decreases s.len(),
{
    if s.len() == 0 {
        0
    } else {
        angle_depth_from(s.drop_last(), after_dash) + angle_step(
            s.last(),
            if s.len() >= 2 {
                is_arrow_start(s[s.len() - 2])
            } else {
                after_dash
            },
        )
    }
}

/// The depth of angle brackets after a run of tokens.
pub open spec fn angle_depth(s: Seq<TokenView>) -> int {
    angle_depth_from(s, false)
}

/// Whether the token at `i` is a comma outside all angle brackets, which
/// separates a field from the next.
pub open spec fn is_separator(s: Seq<TokenView>, i: int) -> bool {
    0 <= i < s.len() && starts_with_punct(s.skip(i), ',') && angle_depth(s.take(i)) == 0
}

/// How many tokens at the front belong to a type, read at the given depth
/// of angle brackets, the first after the `-` of an arrow or not: those
/// before the first comma at which the depth is zero.
pub open spec fn type_len_from(s: Seq<TokenView>, depth: int, after_dash: bool) -> int
    decreases s.len(),
{
    if s.len() == 0 {
        0
    } else if starts_with_punct(s, ',') && depth == 0 {
        0
    } else {
        1 + type_len_from(s.skip(1), depth + angle_step(s[0], after_dash), is_arrow_start(s[0]))
    }
}

/// How many tokens at the front belong to a type: those before the first
/// comma outside all angle brackets.
pub open spec fn type_len(s: Seq<TokenView>) -> int {
    type_len_from(s, 0, false)
}

/// The tokens after a type of `n` tokens and the comma that ends it.
pub open spec fn after_type(s: Seq<TokenView>, n: int) -> Seq<TokenView> {
    if n < s.len() {
        s.skip(n + 1)
    } else {
        Seq::empty()
    }
}

/// Takes `#` and the group after it where the tokens begin with `#`.
pub fn parse_attr<'a>(tokens: &mut Cursor<'a>) -> (res: Result<Option<Attribute>, ParseError>)
    ensures
        match res {
            Ok(Some(attr)) => starts_with_attr(old(tokens)@) && attr_tokens(attr@) == old(
                tokens,
            )@.take(2) && final(tokens)@ == old(tokens)@.skip(2),
            Ok(None) => !starts_with_punct(old(tokens)@, '#') && final(tokens)@ == old(tokens)@,
            Err(err) => starts_with_punct(old(tokens)@, '#') && !starts_with_attr(old(tokens)@)
                && err@ == plain(ErrorKind::MalformedAttribute) && final(tokens)@ == old(
                tokens,
            )@,
        },
{
    if !is_punct(tokens.as_slice(), '#') {
        return Ok(None);
    }
    let after = tokens.peek_from(1);
    if after.len() == 0 {
        proof {
            assert(views(after@).len() == 0);
            assert(tokens@.len() == 1);
        }
        return Err(ParseError::new(ErrorKind::MalformedAttribute));
    }
    proof {
        assert(views(after@).len() == after@.len());
        assert(tokens@.len() > 1);
        assert(tokens@.skip(1)[0] == tokens@[1]);
        assert(views(after@)[0] == token_view(after@[0]));
    }
    match (&tokens.as_slice()[0], &after[0]) {
        (Token::Punct(punct), Token::Group(group)) => {
            let attr = Attribute { punct: *punct, meta: group.clone() };
            proof {
                lemma_group_token_view(*group);
                assert(tokens@.skip(1).skip(1) =~= tokens@.skip(2));
                assert(tokens@.skip(1)[0] == tokens@[1]);
                assert(views(after@)[0] == token_view(after@[0]));
                assert(tokens@[0] == token_view(tokens.rest@[0]));
                assert(attr_tokens(attr@) =~= tokens@.take(2));
            }
            let _ = tokens.next();
            let _ = tokens.next();
            Ok(Some(attr))
        },
        _ => Err(ParseError::new(ErrorKind::MalformedAttribute)),
    }
}

/// Takes the attributes at the front of the tokens.
pub fn parse_attrs<'a>(tokens: &mut Cursor<'a>) -> (res: Result<Vec<Attribute>, ParseError>)
    ensures
        match res {
            Ok(attrs) => parse_attrs_spec(old(tokens)@) == Ok::<_, ParseErrorView>(
                (attr_views(attrs@), final(tokens)@),
            ),
            Err(err) => parse_attrs_spec(old(tokens)@) == Err::<
                (Seq<AttributeView>, Seq<TokenView>),
                _,
            >(err@),
        },
{
    let mut attrs: Vec<Attribute> = Vec::new();
    assert(attr_views(attrs@) =~= Seq::empty());
    loop
        invariant
            attrs_from(old(tokens)@, Seq::empty()) == attrs_from(tokens@, attr_views(attrs@)),
        ensures
            attrs_from(old(tokens)@, Seq::empty()) == Ok::<_, ParseErrorView>(
                (attr_views(attrs@), tokens@),
            ),
        decreases tokens@.len(),
    {
        let ghost acc = attr_views(attrs@);
        match parse_attr(tokens) {
            Ok(Some(attr)) => {
                attrs.push(attr);
                proof {
                    assert(attr_views(attrs@) =~= acc.push(attr@));
                }
            },
            Ok(None) => {
                break ;
            },
            Err(err) => {
                return Err(err);
            },
        }
    }
    Ok(attrs)
}

/// Takes the visibility at the front of the tokens: `pub`, and the group
/// in parentheses where one follows it.
pub fn parse_vis<'a>(tokens: &mut Cursor<'a>) -> (vis: Vec<Token>)
    ensures
        views(vis@) == old(tokens)@.take(vis_len(old(tokens)@)),
        final(tokens)@ == old(tokens)@.skip(vis_len(old(tokens)@)),
{
    let mut vis: Vec<Token> = Vec::new();
    if is_keyword(tokens.as_slice(), "pub") {
        match tokens.next() {
            Some(token) => vis.push(token.clone()),
            None => {},
        }
        if is_group(tokens.as_slice(), Delimiter::Parenthesis) {
            match tokens.next() {
                Some(token) => vis.push(token.clone()),
                None => {},
            }
        }
    }
    vis
}

/// Takes the tokens of a type: all up to the next comma outside angle
/// brackets, and that comma. The `>` of an arrow `->` closes no bracket.
pub fn parse_ty<'a>(tokens: &mut Cursor<'a>) -> (ty: Vec<Token>)
    ensures
        views(ty@) == old(tokens)@.take(type_len(old(tokens)@)),
        final(tokens)@ == after_type(old(tokens)@, type_len(old(tokens)@)),
{
    let mut ty: Vec<Token> = Vec::new();
    let mut opens: usize = 0;
    let mut closes: usize = 0;
    let mut after_dash = false;
    let ghost all = tokens@;
    let total = tokens.len();
    loop
        invariant_except_break
            all.len() == total,
            ty@.len() <= all.len(),
            opens <= ty@.len(),
            closes <= ty@.len(),
            tokens@ == all.skip(ty@.len() as int),
            views(ty@) == all.take(ty@.len() as int),
            type_len(all) == ty@.len() + type_len_from(tokens@, opens - closes, after_dash),
        ensures
            views(ty@) == all.take(type_len(all)),
            tokens@ == after_type(all, type_len(all)),
        decreases tokens@.len(),
    {
        match tokens.next() {
            Some(token) => {
                let mut dash = false;
                match token {
                    Token::Punct(punct) => {
                        if punct.ch == ',' && opens == closes {
                            break ;
                        } else if punct.ch == '<' {
                            opens += 1;
                        } else if punct.ch == '>' && !after_dash {
                            closes += 1;
                        }
                        dash = punct.ch == '-' && punct.spacing == Spacing::Joint;
                    },
                    _ => {},
                }
                after_dash = dash;
                ty.push(token.clone());
            },
            None => {
                break ;
            },
        }
    }
    ty
}

/// The depth of angle brackets grows token by token from the left.
pub proof fn lemma_angle_depth_first(s: Seq<TokenView>, after_dash: bool)
    requires
        s.len() > 0,
    ensures
        angle_depth_from(s, after_dash) == angle_step(s[0], after_dash) + angle_depth_from(
            s.skip(1),
            is_arrow_start(s[0]),
        ),
    decreases s.len(),
{
    if s.len() == 1 {
        assert(s.drop_last().len() == 0);
        assert(s.skip(1).len() == 0);
        assert(angle_depth_from(s.drop_last(), after_dash) == 0);
        assert(angle_depth_from(s.skip(1), is_arrow_start(s[0])) == 0);
    } else {
        let tail = s.skip(1);
        lemma_angle_depth_first(s.drop_last(), after_dash);
        assert(s.drop_last().skip(1) =~= tail.drop_last());
        assert(s.drop_last()[0] == s[0]);
        assert(tail.last() == s.last());
        assert(tail.len() >= 2 ==> tail[tail.len() - 2] == s[s.len() - 2]);
        let before_last = is_arrow_start(s[s.len() - 2]);
        assert(angle_depth_from(s, after_dash) == angle_depth_from(s.drop_last(), after_dash)
            + angle_step(s.last(), before_last));
        assert(angle_depth_from(tail, is_arrow_start(s[0])) == angle_depth_from(
            tail.drop_last(),
            is_arrow_start(s[0]),
        ) + angle_step(tail.last(), before_last));
    }
}

/// A type read at the depth `depth` ends at the first comma that brings
/// the depth back to zero, or at the end of the tokens where there is none.
pub proof fn lemma_type_len_from(s: Seq<TokenView>, depth: int, after_dash: bool)
    ensures
        0 <= type_len_from(s, depth, after_dash) <= s.len(),
        forall|i: int|
            0 <= i < type_len_from(s, depth, after_dash) ==> !(starts_with_punct(
                #[trigger] s.skip(i),
                ',',
            ) && depth + angle_depth_from(s.take(i), after_dash) == 0),
        type_len_from(s, depth, after_dash) < s.len() ==> starts_with_punct(
            s.skip(type_len_from(s, depth, after_dash)),
            ',',
        ) && depth + angle_depth_from(s.take(type_len_from(s, depth, after_dash)), after_dash)
            == 0,
    decreases s.len(),
{
    if s.len() > 0 && !(starts_with_punct(s, ',') && depth == 0) {
        let rest = s.skip(1);
        let inner = depth + angle_step(s[0], after_dash);
        let dash = is_arrow_start(s[0]);
        let n = type_len_from(rest, inner, dash);
        lemma_type_len_from(rest, inner, dash);
        assert forall|i: int| 0 <= i < n + 1 implies !(starts_with_punct(
            #[trigger] s.skip(i),
            ',',
        ) && depth + angle_depth_from(s.take(i), after_dash) == 0) by {
            if i > 0 {
                assert(s.skip(i) =~= rest.skip(i - 1));
                assert(s.take(i).skip(1) =~= rest.take(i - 1));
                lemma_angle_depth_first(s.take(i), after_dash);
            } else {
                assert(s.skip(0) =~= s);
                assert(s.take(0) =~= Seq::<TokenView>::empty());
            }
        }
        if n < rest.len() {
            assert(s.skip(n + 1) =~= rest.skip(n));
            assert(s.take(n + 1).skip(1) =~= rest.take(n));
            lemma_angle_depth_first(s.take(n + 1), after_dash);
        }
    } else if s.len() > 0 {
        assert(s.skip(0) =~= s);
        assert(s.take(0) =~= Seq::<TokenView>::empty());
    }
}

/// The type of a field is made of the tokens before the first comma that
/// stands outside all angle brackets; where there is no such comma, of all
/// the tokens. The `>` of an arrow closes no bracket.
pub proof fn lemma_type_ends_at_first_separator(s: Seq<TokenView>)
    ensures
        0 <= type_len(s) <= s.len(),
        forall|i: int| 0 <= i < type_len(s) ==> !#[trigger] is_separator(s, i),
        type_len(s) < s.len() ==> is_separator(s, type_len(s)),
{
    lemma_type_len_from(s, 0, false);
    assert forall|i: int| 0 <= i < type_len(s) implies !#[trigger] is_separator(s, i) by {
        assert(!(starts_with_punct(s.skip(i), ',') && angle_depth_from(s.take(i), false) == 0));
    }
}

/// Whether an attribute is documentation: it begins with the name `doc`.
pub open spec fn is_documentation(attr: AttributeView) -> bool {
    starts_with_keyword(attr.meta.stream, "doc"@)
}

/// The test for documentation, as a function.
pub open spec fn documentation() -> spec_fn(AttributeView) -> bool {
    |attr: AttributeView| is_documentation(attr)
}

/// The documentation among some attributes is that of the first attribute
/// followed by that of the others.
pub proof fn lemma_documentation_first(attrs: Seq<AttributeView>)
    requires
        attrs.len() > 0,
    ensures
        attrs.filter(documentation()) == if is_documentation(attrs[0]) {
            seq![attrs[0]] + attrs.skip(1).filter(documentation())
        } else {
            attrs.skip(1).filter(documentation())
        },
{
    reveal(Seq::filter);
    let first = seq![attrs[0]];
    assert(attrs =~= first + attrs.skip(1));
    assert(first.drop_last().filter(documentation()) =~= Seq::<AttributeView>::empty());
}

} // verus!
