//! The declaration of the record: attributes, visibility, `struct`, the
//! name, and the fields in braces.

use crate::cursor::{
    after_comma, at_comma_or_end, attr_views, documentation, is_keyword, is_punct,
    lemma_documentation_first, parse_attrs, parse_attrs_spec, parse_comma, parse_end,
    parse_group, parse_ident, parse_keyword, parse_meta_v1, parse_vis, starts_with_group,
    starts_with_ident, starts_with_keyword, starts_with_meta, starts_with_punct, vis_len,
    Attribute, AttributeView, Cursor,
};
use crate::error::{about, plain, ErrorKind, ParseError, ParseErrorView};
use crate::field::{parse_fields, parse_fields_spec};
use crate::schema::{DerivedBehavior, RecordDescriptor, RecordLayout, RecordLayoutView, RecordView};
use crate::text::same_text;
use crate::token::{views, Delimiter, Token, TokenView};
use vstd::prelude::*;

verus! {

/// The behavior that a name inside `derive(..)` asks for.
pub open spec fn derived_behavior_of(name: Seq<char>) -> Option<DerivedBehavior> {
    if name == "Copy"@ {
        Some(DerivedBehavior::BitwiseCopy)
    } else if name == "Clone"@ {
        Some(DerivedBehavior::Clone)
    } else if name == "Debug"@ {
        Some(DerivedBehavior::DebugFormat)
    } else if name == "Default"@ {
        Some(DerivedBehavior::DefaultConstruct)
    } else {
        None
    }
}

impl DerivedBehavior {
    /// The behavior that a name inside `derive(..)` asks for.
    pub fn from_name(name: &str) -> (res: Option<DerivedBehavior>)
        ensures
            res == derived_behavior_of(name@),
    {
        if same_text(name, "Copy") {
            Some(DerivedBehavior::BitwiseCopy)
        } else if same_text(name, "Clone") {
            Some(DerivedBehavior::Clone)
        } else if same_text(name, "Debug") {
            Some(DerivedBehavior::DebugFormat)
        } else if same_text(name, "Default") {
            Some(DerivedBehavior::DefaultConstruct)
        } else {
            None
        }
    }
}

/// The behaviors `list` with `behavior` requested as well: a behavior that
/// is requested again is not added again.
pub open spec fn with_behavior(list: Seq<DerivedBehavior>, behavior: DerivedBehavior) -> Seq<
    DerivedBehavior,
> {
    if list.contains(behavior) {
        list
    } else {
        list.push(behavior)
    }
}

/// The behaviors named by the comma separated list `s`, added to `acc`.
pub open spec fn derive_list_spec(s: Seq<TokenView>, acc: Seq<DerivedBehavior>) -> Result<
    Seq<DerivedBehavior>,
    ParseErrorView,
>
    decreases s.len(),
{
    if s.len() == 0 {
        Ok(acc)
    } else if !(s[0] is Ident) {
        Err(plain(ErrorKind::ExpectedDerivedBehavior))
    } else {
        match derived_behavior_of(s[0]->Ident_0) {
            None => Err(about(ErrorKind::UnsupportedDerivedBehavior, s[0]->Ident_0)),
            Some(behavior) => if !at_comma_or_end(s.skip(1)) {
                Err(about(ErrorKind::ExpectedCommaAfterDerivedBehavior, s[0]->Ident_0))
            } else {
                derive_list_spec(after_comma(s.skip(1)), with_behavior(acc, behavior))
            },
        }
    }
}

/// What an attribute in front of the struct is.
#[derive(Clone, Copy, Debug, PartialEq, Eq, Structural)]
pub enum StructAttribute {
    /// `derive(..)`, whose behaviors are taken and which is dropped.
    Derive,
    /// Documentation, which is carried through.
    Documentation,
    /// An attribute with nothing inside, which is dropped.
    Empty,
}

/// What an attribute in front of the struct is, and the behaviors
/// requested once it has been read, or what is wrong with it.
pub open spec fn structure_attr_spec(attr: AttributeView, derived: Seq<DerivedBehavior>) -> Result<
    (StructAttribute, Seq<DerivedBehavior>),
    ParseErrorView,
> {
    let s = attr.meta.stream;
    if s.len() == 0 {
        Ok((StructAttribute::Empty, derived))
    } else if !(s[0] is Ident) {
        Err(plain(ErrorKind::UnknownAttributeSyntax))
    } else if s[0]->Ident_0 == "derive"@ {
        if !starts_with_meta(s) {
            Err(plain(ErrorKind::InvalidDeriveSyntax))
        } else if s.len() != 2 {
            Err(plain(ErrorKind::TrailingTokensAfterDerive))
        } else {
            match derive_list_spec(s[1]->Group_0.stream, derived) {
                Ok(all) => Ok((StructAttribute::Derive, all)),
                Err(err) => Err(err),
            }
        }
    } else if s[0]->Ident_0 == "doc"@ {
        Ok((StructAttribute::Documentation, derived))
    } else {
        Err(about(ErrorKind::UnsupportedAttribute, s[0]->Ident_0))
    }
}

/// The behaviors requested and the attributes to keep, given those found
/// so far and the attributes still to look at.
pub open spec fn structure_attrs_from(
    attrs: Seq<AttributeView>,
    kept: Seq<AttributeView>,
    derived: Seq<DerivedBehavior>,
) -> Result<(Seq<DerivedBehavior>, Seq<AttributeView>), ParseErrorView>
    decreases attrs.len(),
{
    if attrs.len() == 0 {
        Ok((derived, kept))
    } else {
        match structure_attr_spec(attrs[0], derived) {
            Err(err) => Err(err),
            Ok((StructAttribute::Documentation, all)) => structure_attrs_from(
                attrs.skip(1),
                kept.push(attrs[0]),
                all,
            ),
            Ok((_, all)) => structure_attrs_from(attrs.skip(1), kept, all),
        }
    }
}

/// The behaviors that the attributes of the struct request, each once and
/// in the order in which they are first written, and the attributes that
/// stay on the record.
pub open spec fn parse_structure_attrs_spec(attrs: Seq<AttributeView>) -> Result<
    (Seq<DerivedBehavior>, Seq<AttributeView>),
    ParseErrorView,
> {
    structure_attrs_from(attrs, Seq::empty(), Seq::empty())
}

/// The error for a declaration that does not begin with `struct`.
pub open spec fn wrong_target(s: Seq<TokenView>) -> ErrorKind {
    if starts_with_keyword(s, "enum"@) {
        ErrorKind::EnumNotSupported
    } else if starts_with_keyword(s, "union"@) {
        ErrorKind::UnionNotSupported
    } else {
        ErrorKind::NotAStruct
    }
}

/// The record that the declaration describes, with the given layout.
pub open spec fn parse_structure_spec(s: Seq<TokenView>, layout: RecordLayoutView) -> Result<
    RecordView,
    ParseErrorView,
> {
    match parse_attrs_spec(s) {
        Err(err) => Err(err),
        Ok((attrs, after_attrs)) => match parse_structure_attrs_spec(attrs) {
            Err(err) => Err(err),
            Ok((derived, kept)) => {
                let vis = after_attrs.take(vis_len(after_attrs));
                let after_vis = after_attrs.skip(vis_len(after_attrs));
                let after_name = after_vis.skip(2);
                if !starts_with_keyword(after_vis, "struct"@) {
                    Err(plain(wrong_target(after_vis)))
                } else if !starts_with_ident(after_vis.skip(1)) {
                    Err(plain(ErrorKind::MissingStructName))
                } else if starts_with_punct(after_name, '<') {
                    Err(plain(ErrorKind::GenericsNotSupported))
                } else if starts_with_keyword(after_name, "where"@) {
                    Err(plain(ErrorKind::WhereClauseNotSupported))
                } else if !starts_with_group(after_name, Delimiter::Brace) {
                    Err(plain(ErrorKind::TupleStructNotSupported))
                } else {
                    match parse_fields_spec(after_name[0]->Group_0.stream) {
                        Err(err) => Err(err),
                        Ok(fields) => Ok(
                            RecordView {
                                attrs: kept,
                                derived,
                                layout,
                                vis,
                                struct_span: after_vis[0]->Ident_1,
                                name: after_vis[1]->Ident_0,
                                name_span: after_vis[1]->Ident_1,
                                fields,
                            },
                        ),
                    }
                }
            },
        },
    }
}

/// Whether `behavior` is among `list`.
pub fn requested(list: &Vec<DerivedBehavior>, behavior: DerivedBehavior) -> (res: bool)
    ensures
        res == list@.contains(behavior),
{
    let mut i: usize = 0;
    while i < list.len()
        invariant
            i <= list@.len(),
            forall|k: int| 0 <= k < i ==> list@[k] != behavior,
        decreases list@.len() - i,
    {
        if list[i] == behavior {
            return true;
        }
        i += 1;
    }
    false
}

/// Reads the comma separated names inside `derive(..)` and adds the
/// behaviors they ask for to `result`, each that is not there yet. On an
/// error `result` is left as it was.
pub fn parse_derive_list<'a>(tokens: &mut Cursor<'a>, result: &mut Vec<DerivedBehavior>) -> (res:
    Result<(), ParseError>)
    ensures
        match res {
            Ok(()) => derive_list_spec(old(tokens)@, old(result)@) == Ok::<_, ParseErrorView>(
                final(result)@,
            ) && final(tokens)@.len() == 0,
            Err(err) => derive_list_spec(old(tokens)@, old(result)@) == Err::<
                Seq<DerivedBehavior>,
                _,
            >(err@) && final(result)@ == old(result)@,
        },
{
    let mut found: Vec<DerivedBehavior> = Vec::new();
    while tokens.len() > 0
        invariant
            result@ == old(result)@,
            derive_list_spec(old(tokens)@, old(result)@) == derive_list_spec(
                tokens@,
                old(result)@ + found@,
            ),
        decreases tokens@.len(),
    {
        let ident = match parse_ident(tokens) {
            Some(ident) => ident,
            None => {
                return Err(ParseError::new(ErrorKind::ExpectedDerivedBehavior));
            },
        };
        let tr = ident.name.as_str();
        let behavior = match DerivedBehavior::from_name(tr) {
            Some(behavior) => behavior,
            None => {
                return Err(ParseError::with_subject(ErrorKind::UnsupportedDerivedBehavior, tr));
            },
        };
        let ghost before = old(result)@ + found@;
        let known = requested(result, behavior) || requested(&found, behavior);
        proof {
            if old(result)@.contains(behavior) {
                let k = choose|k: int| 0 <= k < old(result)@.len() && old(result)@[k] == behavior;
                assert(before[k] == behavior);
            }
            if found@.contains(behavior) {
                let k = choose|k: int| 0 <= k < found@.len() && found@[k] == behavior;
                assert(before[old(result)@.len() + k] == behavior);
            }
            if before.contains(behavior) {
                let k = choose|k: int| 0 <= k < before.len() && before[k] == behavior;
                if k >= old(result)@.len() {
                    assert(found@[k - old(result)@.len()] == behavior);
                }
            }
            assert(known == before.contains(behavior));
        }
        if !known {
            found.push(behavior);
        }
        proof {
            assert(old(result)@ + found@ =~= with_behavior(before, behavior));
        }
        if parse_comma(tokens).is_none() {
            return Err(
                ParseError::with_subject(ErrorKind::ExpectedCommaAfterDerivedBehavior, tr),
            );
        }
    }
    result.append(&mut found);
    Ok(())
}

/// Says what one attribute in front of the struct is, and adds the
/// behaviors of a `derive(..)` to `result`. On an error `result` is left as
/// it was.
pub fn parse_structure_attr(attr: &Attribute, result: &mut Vec<DerivedBehavior>) -> (res: Result<
    StructAttribute,
    ParseError,
>)
    ensures
        match res {
            Ok(found) => structure_attr_spec(attr@, old(result)@) == Ok::<_, ParseErrorView>(
                (found, final(result)@),
            ),
            Err(err) => structure_attr_spec(attr@, old(result)@) == Err::<
                (StructAttribute, Seq<DerivedBehavior>),
                _,
            >(err@) && final(result)@ == old(result)@,
        },
{
    let mut tokens = Cursor::new(attr.meta.stream.as_slice());
    if tokens.len() == 0 {
        return Ok(StructAttribute::Empty);
    }
    let name = match &tokens.as_slice()[0] {
        Token::Ident(ident) => ident.name.as_str(),
        _ => {
            return Err(ParseError::new(ErrorKind::UnknownAttributeSyntax));
        },
    };
    if same_text(name, "derive") {
        let meta_v1 = match parse_meta_v1(&mut tokens) {
            Some(meta_v1) => meta_v1,
            None => {
                return Err(ParseError::new(ErrorKind::InvalidDeriveSyntax));
            },
        };
        if parse_end(&mut tokens).is_none() {
            return Err(ParseError::new(ErrorKind::TrailingTokensAfterDerive));
        }
        let mut tokens = Cursor::new(meta_v1.args.stream.as_slice());
        parse_derive_list(&mut tokens, result)?;
        Ok(StructAttribute::Derive)
    } else if same_text(name, "doc") {
        Ok(StructAttribute::Documentation)
    } else {
        Err(ParseError::with_subject(ErrorKind::UnsupportedAttribute, name))
    }
}

/// Takes the requested behaviors out of the attributes of the struct and
/// leaves the documentation. On an error the attributes are left as they were.
pub fn parse_structure_attrs(attrs: &mut Vec<Attribute>) -> (res: Result<
    Vec<DerivedBehavior>,
    ParseError,
>)
    ensures
        match res {
            Ok(derived) => parse_structure_attrs_spec(attr_views(old(attrs)@)) == Ok::<
                _,
                ParseErrorView,
            >((derived@, attr_views(final(attrs)@))),
            Err(err) => parse_structure_attrs_spec(attr_views(old(attrs)@)) == Err::<
                (Seq<DerivedBehavior>, Seq<AttributeView>),
                _,
            >(err@) && final(attrs)@ == old(attrs)@,
        },
{
    let mut result: Vec<DerivedBehavior> = Vec::new();
    let mut kept: Vec<Attribute> = Vec::new();
    let mut i: usize = 0;
    let ghost all = attr_views(attrs@);
    proof {
        assert(all.skip(0) =~= all);
        assert(attr_views(kept@) =~= Seq::empty());
    }
    while i < attrs.len()
        invariant
            i <= attrs@.len(),
            attrs@ == old(attrs)@,
            all == attr_views(attrs@),
            structure_attrs_from(all, Seq::empty(), Seq::empty()) == structure_attrs_from(
                all.skip(i as int),
                attr_views(kept@),
                result@,
            ),
        decreases attrs@.len() - i,
    {
        let attr = &attrs[i];
        let ghost before = attr_views(kept@);
        proof {
            assert(all.skip(i as int).skip(1) =~= all.skip(i + 1));
        }
        match parse_structure_attr(attr, &mut result)? {
            StructAttribute::Documentation => {
                kept.push(attr.clone());
                proof {
                    assert(attr_views(kept@) =~= before.push(attr@));
                }
            },
            // The derive attribute is dropped: its behaviors are generated here.
            StructAttribute::Derive => {},
            StructAttribute::Empty => {},
        }
        i += 1;
    }
    *attrs = kept;
    Ok(result)
}

/// Reads the declaration of the record.
pub fn parse_structure(tokens: &[Token], layout: RecordLayout) -> (res: Result<
    RecordDescriptor,
    ParseError,
>)
    ensures
        match res {
            Ok(record) => parse_structure_spec(views(tokens@), layout@) == Ok::<
                _,
                ParseErrorView,
            >(record@),
            Err(err) => parse_structure_spec(views(tokens@), layout@) == Err::<RecordView, _>(
                err@,
            ),
        },
        res matches Ok(record) ==> record@.wf(),
{
    let mut cursor = Cursor::new(tokens);
    let mut attrs = parse_attrs(&mut cursor)?;
    let ghost found_attrs = attrs@;
    let derived = parse_structure_attrs(&mut attrs)?;
    let vis = parse_vis(&mut cursor);
    let stru = match parse_keyword(&mut cursor, "struct") {
        Some(ident) => ident,
        None => {
            let kind = if is_keyword(cursor.as_slice(), "enum") {
                ErrorKind::EnumNotSupported
            } else if is_keyword(cursor.as_slice(), "union") {
                ErrorKind::UnionNotSupported
            } else {
                ErrorKind::NotAStruct
            };
            return Err(ParseError::new(kind));
        },
    };
    let name = match parse_ident(&mut cursor) {
        Some(ident) => ident,
        None => {
            return Err(ParseError::new(ErrorKind::MissingStructName));
        },
    };
    if is_punct(cursor.as_slice(), '<') {
        return Err(ParseError::new(ErrorKind::GenericsNotSupported));
    }
    if is_keyword(cursor.as_slice(), "where") {
        return Err(ParseError::new(ErrorKind::WhereClauseNotSupported));
    }
    let group = match parse_group(&mut cursor, Delimiter::Brace) {
        Some(group) => group,
        None => {
            return Err(ParseError::new(ErrorKind::TupleStructNotSupported));
        },
    };
    let fields = parse_fields(group.stream.as_slice())?;
    proof {
        lemma_structure_attrs_no_repeat(attr_views(found_attrs), Seq::empty(), Seq::empty());
    }
    Ok(
        RecordDescriptor {
            attrs,
            derived,
            layout,
            vis,
            struct_span: stru.span,
            name: name.name,
            name_span: name.span,
            fields,
        },
    )
}

/// The attributes that stay on the record are its documentation, as it
/// was written and in the order in which it was written.
pub proof fn lemma_structure_attrs_keep_documentation(
    attrs: Seq<AttributeView>,
    kept: Seq<AttributeView>,
    derived: Seq<DerivedBehavior>,
)
    ensures
        structure_attrs_from(attrs, kept, derived) matches Ok((_, out)) ==> out == kept
            + attrs.filter(documentation()),
    decreases attrs.len(),
{
    if attrs.len() > 0 && structure_attrs_from(attrs, kept, derived) is Ok {
        lemma_documentation_first(attrs);
        reveal_strlit("doc");
        reveal_strlit("derive");
        assert("doc"@.len() != "derive"@.len());
        match structure_attr_spec(attrs[0], derived) {
            Ok((StructAttribute::Documentation, all)) => {
                lemma_structure_attrs_keep_documentation(
                    attrs.skip(1),
                    kept.push(attrs[0]),
                    all,
                );
            },
            Ok((_, all)) => {
                lemma_structure_attrs_keep_documentation(attrs.skip(1), kept, all);
            },
            Err(_) => {},
        }
    }
}

/// Requesting a behavior again adds nothing: the list of behaviors stays
/// free of repeats.
pub proof fn lemma_derive_list_no_repeat(s: Seq<TokenView>, acc: Seq<DerivedBehavior>)
    requires
        acc.no_duplicates(),
    ensures
        derive_list_spec(s, acc) matches Ok(all) ==> all.no_duplicates(),
    decreases s.len(),
{
    if s.len() > 0 && s[0] is Ident {
        if let Some(behavior) = derived_behavior_of(s[0]->Ident_0) {
            if at_comma_or_end(s.skip(1)) {
                lemma_derive_list_no_repeat(after_comma(s.skip(1)), with_behavior(acc, behavior));
            }
        }
    }
}

/// No behavior is requested twice, however often and in how many `derive`
/// attributes it is named.
pub proof fn lemma_structure_attrs_no_repeat(
    attrs: Seq<AttributeView>,
    kept: Seq<AttributeView>,
    derived: Seq<DerivedBehavior>,
)
    requires
        derived.no_duplicates(),
    ensures
        structure_attrs_from(attrs, kept, derived) matches Ok((all, _)) ==> all.no_duplicates(),
    decreases attrs.len(),
{
    if attrs.len() > 0 {
        let s = attrs[0].meta.stream;
        if s.len() == 2 {
            lemma_derive_list_no_repeat(s[1]->Group_0.stream, derived);
        }
        match structure_attr_spec(attrs[0], derived) {
            Ok((StructAttribute::Documentation, all)) => {
                lemma_structure_attrs_no_repeat(attrs.skip(1), kept.push(attrs[0]), all);
            },
            Ok((_, all)) => {
                lemma_structure_attrs_no_repeat(attrs.skip(1), kept, all);
            },
            Err(_) => {},
        }
    }
}

} // verus!
