//! The fields of the record: `#[field(offset = <uint>[, get][, set][, ref][, mut])]`
//! in front of each `name: type`.

use crate::cursor::{
    after_comma, after_type, at_comma_or_end, attr_views, attrs_from, documentation, is_keyword,
    lemma_documentation_first, lemma_type_len_from, parse_attrs, parse_attrs_spec, parse_comma, parse_end,
    parse_ident, parse_kv, parse_meta_v1, parse_punct, parse_ty, parse_vis, starts_with_attr,
    starts_with_ident, starts_with_keyword, starts_with_meta, starts_with_punct, type_len,
    vis_len, Attribute, AttributeView, Cursor,
};
use crate::error::{about, plain, ErrorKind, ParseError, ParseErrorView};
use crate::layout::starts_with_key;
use crate::schema::{field_views, AccessorKind, FieldDescriptor, FieldLayout, FieldView};
use crate::text::{decimal_text, lemma_parse_decimal_text, parse_usize, parse_usize_spec, same_text};
use crate::token::{views, Punct, Span, Token, TokenView};
use vstd::prelude::*;

verus! {

/// The accessor kind that a keyword of the field attribute names.
pub open spec fn accessor_kind_of(name: Seq<char>) -> Option<AccessorKind> {
    if name == "get"@ {
        Some(AccessorKind::Read)
    } else if name == "set"@ {
        Some(AccessorKind::Write)
    } else if name == "ref"@ {
        Some(AccessorKind::BorrowImmutable)
    } else if name == "mut"@ {
        Some(AccessorKind::BorrowMutable)
    } else {
        None
    }
}

impl AccessorKind {
    /// The accessor kind that a keyword of the field attribute names.
    pub fn from_keyword(name: &str) -> (res: Option<AccessorKind>)
        ensures
            res == accessor_kind_of(name@),
    {
        if same_text(name, "get") {
            Some(AccessorKind::Read)
        } else if same_text(name, "set") {
            Some(AccessorKind::Write)
        } else if same_text(name, "ref") {
            Some(AccessorKind::BorrowImmutable)
        } else if same_text(name, "mut") {
            Some(AccessorKind::BorrowMutable)
        } else {
            None
        }
    }
}

impl FieldLayout {
    /// A field at `offset` for which no accessor has been requested yet.
    pub open spec fn bare(offset: usize) -> FieldLayout {
        FieldLayout {
            offset,
            method_get: false,
            method_set: false,
            method_ref: false,
            method_mut: false,
        }
    }

    /// The layout with the accessor `kind` requested as well.
    pub open spec fn with(self, kind: AccessorKind) -> FieldLayout {
        match kind {
            AccessorKind::Read => FieldLayout { method_get: true, ..self },
            AccessorKind::Write => FieldLayout { method_set: true, ..self },
            AccessorKind::BorrowImmutable => FieldLayout { method_ref: true, ..self },
            AccessorKind::BorrowMutable => FieldLayout { method_mut: true, ..self },
        }
    }

    /// The layout as it stands where an accessor was requested, and with
    /// all four accessors where none was.
    pub open spec fn or_all(self) -> FieldLayout {
        if self.wf() {
            self
        } else {
            FieldLayout {
                offset: self.offset,
                method_get: true,
                method_set: true,
                method_ref: true,
                method_mut: true,
            }
        }
    }
}

/// The layout that results from `acc` and the comma separated accessor
/// keywords in `s`.
pub open spec fn accessor_list_spec(s: Seq<TokenView>, acc: FieldLayout) -> Result<
    FieldLayout,
    ParseErrorView,
>
    decreases s.len(),
{
    if s.len() == 0 {
        Ok(acc.or_all())
    } else if !(s[0] is Ident) {
        Err(plain(ErrorKind::ExpectedAccessorKind))
    } else {
        match accessor_kind_of(s[0]->Ident_0) {
            None => Err(plain(ErrorKind::UnknownAccessorKind)),
            Some(kind) => if !at_comma_or_end(s.skip(1)) {
                Err(about(ErrorKind::ExpectedCommaAfterAccessorKind, s[0]->Ident_0))
            } else {
                accessor_list_spec(after_comma(s.skip(1)), acc.with(kind))
            },
        }
    }
}

/// The layout that the inside of `field(..)` describes.
pub open spec fn parse_field_layout_spec(s: Seq<TokenView>) -> Result<
    FieldLayout,
    ParseErrorView,
> {
    if !starts_with_key(s, "offset"@) {
        Err(plain(ErrorKind::InvalidOffsetArgument))
    } else {
        match parse_usize_spec(s[2]->Literal_0) {
            Err(fault) => Err(plain(ErrorKind::OffsetNotANumber(fault))),
            Ok(offset) => if !at_comma_or_end(s.skip(3)) {
                Err(plain(ErrorKind::ExpectedAccessorList))
            } else {
                accessor_list_spec(after_comma(s.skip(3)), FieldLayout::bare(offset))
            },
        }
    }
}

/// Reads the inside of `field(..)`: the offset and the accessor keywords.
/// On success every token has been consumed, on an error none.
pub fn parse_field_layout<'a>(tokens: &mut Cursor<'a>) -> (res: Result<FieldLayout, ParseError>)
    ensures
        match res {
            Ok(layout) => parse_field_layout_spec(old(tokens)@) == Ok::<_, ParseErrorView>(layout)
                && layout.wf() && final(tokens)@.len() == 0,
            Err(err) => parse_field_layout_spec(old(tokens)@) == Err::<FieldLayout, _>(err@)
                && final(tokens)@ == old(tokens)@,
        },
{
    let start = tokens.as_slice();
    let offset = match parse_kv(tokens) {
        Some(offset) => offset,
        None => {
            return Err(ParseError::new(ErrorKind::InvalidOffsetArgument));
        },
    };
    if !same_text(offset.ident.name.as_str(), "offset") {
        tokens.rest = start;
        return Err(ParseError::new(ErrorKind::InvalidOffsetArgument));
    }
    let offset = match parse_usize(offset.value.text.as_str()) {
        Ok(offset) => offset,
        Err(fault) => {
            tokens.rest = start;
            return Err(ParseError::new(ErrorKind::OffsetNotANumber(fault)));
        },
    };
    if parse_comma(tokens).is_none() {
        tokens.rest = start;
        return Err(ParseError::new(ErrorKind::ExpectedAccessorList));
    }
    let mut method_get = false;
    let mut method_set = false;
    let mut method_ref = false;
    let mut method_mut = false;
    let ghost list = tokens@;
    while tokens.len() > 0
        invariant
            views(start@) == old(tokens)@,
            parse_field_layout_spec(old(tokens)@) == accessor_list_spec(
                list,
                FieldLayout::bare(offset),
            ),
            accessor_list_spec(list, FieldLayout::bare(offset)) == accessor_list_spec(
                tokens@,
                FieldLayout { offset, method_get, method_set, method_ref, method_mut },
            ),
        decreases tokens@.len(),
    {
        let ident = match parse_ident(tokens) {
            Some(ident) => ident,
            None => {
                tokens.rest = start;
                return Err(ParseError::new(ErrorKind::ExpectedAccessorKind));
            },
        };
        match AccessorKind::from_keyword(ident.name.as_str()) {
            Some(AccessorKind::Read) => method_get = true,
            Some(AccessorKind::Write) => method_set = true,
            Some(AccessorKind::BorrowImmutable) => method_ref = true,
            Some(AccessorKind::BorrowMutable) => method_mut = true,
            None => {
                tokens.rest = start;
                return Err(ParseError::new(ErrorKind::UnknownAccessorKind));
            },
        }
        if parse_comma(tokens).is_none() {
            tokens.rest = start;
            return Err(
                ParseError::with_subject(
                    ErrorKind::ExpectedCommaAfterAccessorKind,
                    ident.name.as_str(),
                ),
            );
        }
    }
    // With no keyword given the field gets all four accessors.
    if !method_get && !method_set && !method_ref && !method_mut {
        method_get = true;
        method_set = true;
        method_ref = true;
        method_mut = true;
    }
    Ok(FieldLayout { offset, method_get, method_set, method_ref, method_mut })
}

/// What an attribute in front of a field is.
#[derive(Clone, Copy, Debug, PartialEq, Eq, Structural)]
pub enum FieldAttribute {
    /// `field(..)`, with the layout it describes.
    Layout(FieldLayout),
    /// Documentation, which is carried through.
    Documentation,
    /// An attribute with nothing inside, which is dropped.
    Empty,
}

/// Whether an attribute begins with the name `field`.
pub open spec fn is_field_attr(attr: AttributeView) -> bool {
    starts_with_keyword(attr.meta.stream, "field"@)
}

/// What an attribute in front of a field is, or what is wrong with it.
pub open spec fn field_attr_spec(attr: AttributeView) -> Result<FieldAttribute, ParseErrorView> {
    let s = attr.meta.stream;
    if s.len() == 0 {
        Ok(FieldAttribute::Empty)
    } else if !(s[0] is Ident) {
        Err(plain(ErrorKind::UnknownFieldAttributeSyntax))
    } else if s[0]->Ident_0 == "field"@ {
        if !starts_with_meta(s) {
            Err(plain(ErrorKind::InvalidFieldAttribute))
        } else if s.len() != 2 {
            Err(plain(ErrorKind::TrailingTokensAfterFieldAttribute))
        } else {
            match parse_field_layout_spec(s[1]->Group_0.stream) {
                Ok(layout) => Ok(FieldAttribute::Layout(layout)),
                Err(err) => Err(err),
            }
        }
    } else if s[0]->Ident_0 == "doc"@ {
        Ok(FieldAttribute::Documentation)
    } else {
        Err(about(ErrorKind::UnsupportedFieldAttribute, s[0]->Ident_0))
    }
}

/// The layout and the attributes to keep, given those found so far and
/// the attributes still to look at. Documentation is kept, the `field`
/// attribute gives the layout and may occur once, an empty attribute is
/// dropped, and anything else is an error.
pub open spec fn field_attrs_from(
    attrs: Seq<AttributeView>,
    kept: Seq<AttributeView>,
    layout: Option<FieldLayout>,
) -> Result<(Option<FieldLayout>, Seq<AttributeView>), ParseErrorView>
    decreases attrs.len(),
{
    if attrs.len() == 0 {
        Ok((layout, kept))
    } else if is_field_attr(attrs[0]) && layout is Some {
        Err(plain(ErrorKind::DuplicateFieldLayout))
    } else {
        match field_attr_spec(attrs[0]) {
            Err(err) => Err(err),
            Ok(FieldAttribute::Layout(found)) => field_attrs_from(
                attrs.skip(1),
                kept,
                Some(found),
            ),
            Ok(FieldAttribute::Documentation) => field_attrs_from(
                attrs.skip(1),
                kept.push(attrs[0]),
                layout,
            ),
            Ok(FieldAttribute::Empty) => field_attrs_from(attrs.skip(1), kept, layout),
        }
    }
}

/// The layout that the attributes of a field give, if any, and the
/// attributes that stay on the field.
pub open spec fn parse_field_attrs_spec(attrs: Seq<AttributeView>) -> Result<
    (Option<FieldLayout>, Seq<AttributeView>),
    ParseErrorView,
> {
    field_attrs_from(attrs, Seq::empty(), None)
}

/// Says what one attribute in front of a field is.
pub fn parse_field_attr(attr: &Attribute) -> (res: Result<FieldAttribute, ParseError>)
    ensures
        match res {
            Ok(found) => field_attr_spec(attr@) == Ok::<_, ParseErrorView>(found),
            Err(err) => field_attr_spec(attr@) == Err::<FieldAttribute, _>(err@),
        },
        res matches Ok(FieldAttribute::Layout(layout)) ==> layout.wf(),
{
    let mut tokens = Cursor::new(attr.meta.stream.as_slice());
    if tokens.len() == 0 {
        return Ok(FieldAttribute::Empty);
    }
    let name = match &tokens.as_slice()[0] {
        Token::Ident(ident) => ident.name.as_str(),
        _ => {
            return Err(ParseError::new(ErrorKind::UnknownFieldAttributeSyntax));
        },
    };
    if same_text(name, "field") {
        let meta_v1 = match parse_meta_v1(&mut tokens) {
            Some(meta_v1) => meta_v1,
            None => {
                return Err(ParseError::new(ErrorKind::InvalidFieldAttribute));
            },
        };
        if parse_end(&mut tokens).is_none() {
            return Err(ParseError::new(ErrorKind::TrailingTokensAfterFieldAttribute));
        }
        let mut tokens = Cursor::new(meta_v1.args.stream.as_slice());
        let layout = parse_field_layout(&mut tokens)?;
        Ok(FieldAttribute::Layout(layout))
    } else if same_text(name, "doc") {
        Ok(FieldAttribute::Documentation)
    } else {
        Err(ParseError::with_subject(ErrorKind::UnsupportedFieldAttribute, name))
    }
}

/// Whether an attribute begins with the name `field`.
pub fn names_field(attr: &Attribute) -> (res: bool)
    ensures
        res == is_field_attr(attr@),
{
    is_keyword(attr.meta.stream.as_slice(), "field")
}

/// Takes the layout out of the attributes of a field and leaves the
/// documentation. On an error the attributes are left as they were.
pub fn parse_field_attrs(attrs: &mut Vec<Attribute>) -> (res: Result<
    Option<FieldLayout>,
    ParseError,
>)
    ensures
        match res {
            Ok(layout) => parse_field_attrs_spec(attr_views(old(attrs)@)) == Ok::<
                _,
                ParseErrorView,
            >((layout, attr_views(final(attrs)@))),
            Err(err) => parse_field_attrs_spec(attr_views(old(attrs)@)) == Err::<
                (Option<FieldLayout>, Seq<AttributeView>),
                _,
            >(err@) && final(attrs)@ == old(attrs)@,
        },
        res matches Ok(Some(layout)) ==> layout.wf(),
{
    let mut result: Option<FieldLayout> = None;
    let mut kept: Vec<Attribute> = Vec::new();
    let mut i: usize = 0;
    let ghost all = attr_views(attrs@);
    proof {
        assert(all.skip(0) =~= all);
        assert(attr_views(kept@) =~= Seq::empty());
    }
    while i < attrs.len()
        invariant
            i <= attrs@.len(),
            attrs@ == old(attrs)@,
            all == attr_views(attrs@),
            result matches Some(layout) ==> layout.wf(),
            field_attrs_from(all, Seq::empty(), None) == field_attrs_from(
                all.skip(i as int),
                attr_views(kept@),
                result,
            ),
        decreases attrs@.len() - i,
    {
        let attr = &attrs[i];
        let ghost before = attr_views(kept@);
        proof {
            assert(all.skip(i as int).skip(1) =~= all.skip(i + 1));
        }
        if names_field(attr) && result.is_some() {
            return Err(ParseError::new(ErrorKind::DuplicateFieldLayout));
        }
        match parse_field_attr(attr)? {
            FieldAttribute::Layout(layout) => {
                result = Some(layout);
            },
            FieldAttribute::Documentation => {
                kept.push(attr.clone());
                proof {
                    assert(attr_views(kept@) =~= before.push(attr@));
                }
            },
            FieldAttribute::Empty => {},
        }
        i += 1;
    }
    *attrs = kept;
    Ok(result)
}

/// The field at the front of the tokens and the tokens after it: its
/// attributes, visibility, name, a colon, and its type up to the comma that
/// ends it.
pub open spec fn parse_field_spec(s: Seq<TokenView>) -> Result<
    (FieldView, Seq<TokenView>),
    ParseErrorView,
> {
    match parse_attrs_spec(s) {
        Err(err) => Err(err),
        Ok((attrs, after_attrs)) => match parse_field_attrs_spec(attrs) {
            Err(err) => Err(err),
            Ok((None, _)) => Err(plain(ErrorKind::MissingFieldLayout)),
            Ok((Some(layout), kept)) => {
                let vis = after_attrs.take(vis_len(after_attrs));
                let after_vis = after_attrs.skip(vis_len(after_attrs));
                let after_colon = after_vis.skip(2);
                let n = type_len(after_colon);
                if !starts_with_ident(after_vis) {
                    Err(plain(ErrorKind::MissingFieldName))
                } else if !starts_with_punct(after_vis.skip(1), ':') {
                    Err(plain(ErrorKind::MissingFieldColon))
                } else {
                    Ok(
                        (
                            FieldView {
                                attrs: kept,
                                layout,
                                vis,
                                name: after_vis[0]->Ident_0,
                                name_span: after_vis[0]->Ident_1,
                                ty: after_colon.take(n),
                            },
                            after_type(after_colon, n),
                        ),
                    )
                }
            },
        },
    }
}

/// Attributes are read from the front, two tokens each.
pub proof fn lemma_attrs_from_len(s: Seq<TokenView>, acc: Seq<AttributeView>)
    ensures
        attrs_from(s, acc) matches Ok((attrs, rest)) ==> attrs.len() >= acc.len() && rest.len()
            + 2 * (attrs.len() - acc.len()) == s.len(),
    decreases s.len(),
{
    if starts_with_punct(s, '#') && starts_with_attr(s) {
        lemma_attrs_from_len(
            s.skip(2),
            acc.push(AttributeView { punct: s[0]->Punct_0, meta: s[1]->Group_0 }),
        );
    }
}

/// Reading a field consumes at least one token.
pub proof fn lemma_parse_field_progress(s: Seq<TokenView>)
    ensures
        parse_field_spec(s) matches Ok((_, rest)) ==> rest.len() < s.len(),
{
    lemma_attrs_from_len(s, Seq::empty());
    if let Ok((attrs, after_attrs)) = parse_attrs_spec(s) {
        let after_vis = after_attrs.skip(vis_len(after_attrs));
        if starts_with_ident(after_vis) && starts_with_punct(after_vis.skip(1), ':') {
            lemma_type_len_from(after_vis.skip(2), 0, false);
        }
    }
}

/// The fields that the tokens hold, added to `acc`.
pub open spec fn fields_from(s: Seq<TokenView>, acc: Seq<FieldView>) -> Result<
    Seq<FieldView>,
    ParseErrorView,
>
    decreases s.len(),
{
    if s.len() == 0 {
        Ok(acc)
    } else {
        match parse_field_spec(s) {
            Err(err) => Err(err),
            Ok((field, rest)) => {
                proof {
                    lemma_parse_field_progress(s);
                }
                fields_from(rest, acc.push(field))
            },
        }
    }
}

/// The fields that the inside of the braces holds, in declaration order.
pub open spec fn parse_fields_spec(s: Seq<TokenView>) -> Result<Seq<FieldView>, ParseErrorView> {
    fields_from(s, Seq::empty())
}

/// Reads one field. On an error nothing is consumed.
pub fn parse_field<'a>(tokens: &mut Cursor<'a>) -> (res: Result<FieldDescriptor, ParseError>)
    ensures
        match res {
            Ok(field) => parse_field_spec(old(tokens)@) == Ok::<_, ParseErrorView>(
                (field@, final(tokens)@),
            ) && field.layout.wf(),
            Err(err) => parse_field_spec(old(tokens)@) == Err::<(FieldView, Seq<TokenView>), _>(
                err@,
            ) && final(tokens)@ == old(tokens)@,
        },
{
    let start = tokens.as_slice();
    let mut attrs = match parse_attrs(tokens) {
        Ok(attrs) => attrs,
        Err(err) => {
            tokens.rest = start;
            return Err(err);
        },
    };
    let layout = match parse_field_attrs(&mut attrs) {
        Ok(Some(layout)) => layout,
        Ok(None) => {
            tokens.rest = start;
            return Err(ParseError::new(ErrorKind::MissingFieldLayout));
        },
        Err(err) => {
            tokens.rest = start;
            return Err(err);
        },
    };
    let vis = parse_vis(tokens);
    let ghost after_vis = tokens@;
    let name = match parse_ident(tokens) {
        Some(ident) => ident,
        None => {
            tokens.rest = start;
            return Err(ParseError::new(ErrorKind::MissingFieldName));
        },
    };
    if parse_punct(tokens, ':').is_none() {
        tokens.rest = start;
        return Err(ParseError::new(ErrorKind::MissingFieldColon));
    }
    proof {
        assert(after_vis.skip(1).skip(1) =~= after_vis.skip(2));
    }
    let ty = parse_ty(tokens);
    Ok(FieldDescriptor { attrs, layout, vis, name: name.name, name_span: name.span, ty })
}

/// Reads the fields inside the braces of the struct.
pub fn parse_fields(tokens: &[Token]) -> (res: Result<Vec<FieldDescriptor>, ParseError>)
    ensures
        match res {
            Ok(fields) => parse_fields_spec(views(tokens@)) == Ok::<_, ParseErrorView>(
                field_views(fields@),
            ) && forall|i: int| 0 <= i < fields@.len() ==> (#[trigger] fields@[i]).layout.wf(),
            Err(err) => parse_fields_spec(views(tokens@)) == Err::<Seq<FieldView>, _>(err@),
        },
{
    let ghost all = views(tokens@);
    let mut cursor = Cursor::new(tokens);
    let mut fields: Vec<FieldDescriptor> = Vec::new();
    proof {
        assert(field_views(fields@) =~= Seq::empty());
    }
    while cursor.len() > 0
        invariant
            all == views(tokens@),
            fields_from(all, Seq::empty()) == fields_from(cursor@, field_views(fields@)),
            forall|i: int| 0 <= i < fields@.len() ==> (#[trigger] fields@[i]).layout.wf(),
        decreases cursor@.len(),
    {
        let ghost before = field_views(fields@);
        let ghost s = cursor@;
        let field = parse_field(&mut cursor)?;
        proof {
            lemma_parse_field_progress(s);
        }
        fields.push(field);
        proof {
            assert(field_views(fields@) =~= before.push(field@));
        }
    }
    Ok(fields)
}

/// The four accessor keywords name the four accessor kinds.
pub proof fn lemma_accessor_keywords()
    ensures
        accessor_kind_of("get"@) == Some(AccessorKind::Read),
        accessor_kind_of("set"@) == Some(AccessorKind::Write),
        accessor_kind_of("ref"@) == Some(AccessorKind::BorrowImmutable),
        accessor_kind_of("mut"@) == Some(AccessorKind::BorrowMutable),
{
    reveal_strlit("get");
    reveal_strlit("set");
    reveal_strlit("ref");
    reveal_strlit("mut");
    assert("get"@[0] == 'g' && "set"@[0] == 's' && "ref"@[0] == 'r' && "mut"@[0] == 'm');
}

/// The four accessor keywords behind commas: `, get, set, ref, mut`.
pub open spec fn all_kinds(comma: Punct, span: Span) -> Seq<TokenView> {
    seq![
        TokenView::Punct(comma),
        TokenView::Ident("get"@, span),
        TokenView::Punct(comma),
        TokenView::Ident("set"@, span),
        TokenView::Punct(comma),
        TokenView::Ident("ref"@, span),
        TokenView::Punct(comma),
        TokenView::Ident("mut"@, span),
    ]
}

/// Leaving out the accessor keywords is the same as writing all four:
/// `offset = n` and `offset = n, get, set, ref, mut` give the same layout,
/// or fail in the same way where `offset = n` is at fault.
pub proof fn lemma_omitted_kinds_mean_all(head: Seq<TokenView>, comma: Punct, span: Span)
    requires
        head.len() == 3,
        comma.ch == ',',
    ensures
        parse_field_layout_spec(head) == parse_field_layout_spec(head + all_kinds(comma, span)),
{
    let list = all_kinds(comma, span);
    let long = head + list;
    lemma_accessor_keywords();
    assert(long.skip(1) =~= head.skip(1) + list);
    assert(long.skip(2) =~= head.skip(2) + list);
    assert(long.skip(3) =~= list);
    assert(head.skip(3) =~= Seq::<TokenView>::empty());
    if starts_with_key(head, "offset"@) {
        if let Ok(offset) = parse_usize_spec(head[2]->Literal_0) {
            let l0 = FieldLayout::bare(offset);
            let s1 = list.skip(1);
            let s2 = s1.skip(2);
            let s3 = s2.skip(2);
            let s4 = s3.skip(2);
            assert(after_comma(list) == s1);
            assert(after_comma(s1.skip(1)) == s2);
            assert(after_comma(s2.skip(1)) == s3);
            assert(after_comma(s3.skip(1)) == s4);
            assert(s4.skip(1).len() == 0);
            assert(after_comma(s4.skip(1)).len() == 0);
            let l1 = l0.with(AccessorKind::Read);
            let l2 = l1.with(AccessorKind::Write);
            let l3 = l2.with(AccessorKind::BorrowImmutable);
            let l4 = l3.with(AccessorKind::BorrowMutable);
            assert(accessor_list_spec(after_comma(s4.skip(1)), l4) == Ok::<_, ParseErrorView>(l4));
            assert(accessor_list_spec(s4, l3) == Ok::<_, ParseErrorView>(l4));
            assert(accessor_list_spec(s3, l2) == Ok::<_, ParseErrorView>(l4));
            assert(accessor_list_spec(s2, l1) == Ok::<_, ParseErrorView>(l4));
            assert(accessor_list_spec(s1, l0) == Ok::<_, ParseErrorView>(l4));
            assert(l0.or_all() == l4);
        }
    }
}

/// The accessor keywords are read the same way whatever the offset is.
pub proof fn lemma_accessor_list_offset(s: Seq<TokenView>, acc: FieldLayout, offset: usize)
    ensures
        accessor_list_spec(s, FieldLayout { offset, ..acc }) == match accessor_list_spec(s, acc) {
            Ok(layout) => Ok(FieldLayout { offset, ..layout }),
            Err(err) => Err(err),
        },
    decreases s.len(),
{
    if s.len() > 0 && s[0] is Ident {
        if let Some(kind) = accessor_kind_of(s[0]->Ident_0) {
            if at_comma_or_end(s.skip(1)) {
                lemma_accessor_list_offset(after_comma(s.skip(1)), acc.with(kind), offset);
            }
        }
    }
}

/// The offset is taken as it is written and never judged here: where a
/// field attribute is accepted, it is accepted with any other offset in
/// its place, and gives the same accessors. Whether the field fits the
/// record is decided where the output is compiled.
pub proof fn lemma_offset_is_not_judged(s: Seq<TokenView>, offset: usize, span: Span)
    requires
        parse_field_layout_spec(s) is Ok,
    ensures
        parse_field_layout_spec(
            s.update(2, TokenView::Literal(decimal_text(offset as nat), span)),
        ) == Ok::<_, ParseErrorView>(
            FieldLayout { offset, ..parse_field_layout_spec(s)->Ok_0 },
        ),
{
    let other = s.update(2, TokenView::Literal(decimal_text(offset as nat), span));
    lemma_parse_decimal_text(offset);
    assert(other.skip(1) =~= s.skip(1).update(1, other[2]));
    assert(other.skip(2) =~= s.skip(2).update(0, other[2]));
    assert(other.skip(3) =~= s.skip(3));
    let found = parse_usize_spec(s[2]->Literal_0)->Ok_0;
    lemma_accessor_list_offset(after_comma(s.skip(3)), FieldLayout::bare(found), offset);
}

/// The attributes that stay on a field are its documentation, as it was
/// written and in the order in which it was written.
pub proof fn lemma_field_attrs_keep_documentation(
    attrs: Seq<AttributeView>,
    kept: Seq<AttributeView>,
    layout: Option<FieldLayout>,
)
    ensures
        field_attrs_from(attrs, kept, layout) matches Ok((_, out)) ==> out == kept + attrs.filter(
            documentation(),
        ),
    decreases attrs.len(),
{
    if attrs.len() > 0 && field_attrs_from(attrs, kept, layout) is Ok {
        lemma_documentation_first(attrs);
        reveal_strlit("doc");
        reveal_strlit("field");
        assert("doc"@.len() != "field"@.len());
        match field_attr_spec(attrs[0]) {
            Ok(FieldAttribute::Documentation) => {
                lemma_field_attrs_keep_documentation(attrs.skip(1), kept.push(attrs[0]), layout);
            },
            Ok(FieldAttribute::Layout(found)) => {
                lemma_field_attrs_keep_documentation(attrs.skip(1), kept, Some(found));
            },
            _ => {
                lemma_field_attrs_keep_documentation(attrs.skip(1), kept, layout);
            },
        }
    }
}

} // verus!
