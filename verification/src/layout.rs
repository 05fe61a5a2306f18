//! The arguments of the record as a whole:
//! `size = <uint>, align = <uint>[, check(<bound>)]`.

use crate::cursor::{
    after_comma, at_comma_or_end, parse_comma, parse_end, parse_kv, parse_meta_v1, starts_with_kv,
    starts_with_meta, Cursor,
};
use crate::error::{plain, ErrorKind, ParseError, ParseErrorView};
use crate::schema::{RecordLayout, RecordLayoutView};
use crate::text::{parse_usize, parse_usize_spec, same_text};
use crate::token::{clone_tokens, views, Token, TokenView};
use vstd::prelude::*;

verus! {

/// Whether the tokens begin with `key = literal`.
pub open spec fn starts_with_key(s: Seq<TokenView>, key: Seq<char>) -> bool {
    starts_with_kv(s) && s[0]->Ident_0 == key
}

/// The size read from `size = <uint>` and the tokens after it and its comma.
pub open spec fn parse_layout_size_spec(s: Seq<TokenView>) -> Result<
    (usize, Seq<TokenView>),
    ParseErrorView,
> {
    if !starts_with_key(s, "size"@) || !at_comma_or_end(s.skip(3)) {
        Err(plain(ErrorKind::InvalidSizeArgument))
    } else {
        match parse_usize_spec(s[2]->Literal_0) {
            Ok(size) => Ok((size, after_comma(s.skip(3)))),
            Err(fault) => Err(plain(ErrorKind::SizeNotANumber(fault))),
        }
    }
}

/// The alignment read from `align = <uint>` and the tokens after it and its comma.
pub open spec fn parse_layout_align_spec(s: Seq<TokenView>) -> Result<
    (usize, Seq<TokenView>),
    ParseErrorView,
> {
    if !starts_with_key(s, "align"@) || !at_comma_or_end(s.skip(3)) {
        Err(plain(ErrorKind::InvalidAlignArgument))
    } else {
        match parse_usize_spec(s[2]->Literal_0) {
            Ok(align) => Ok((align, after_comma(s.skip(3)))),
            Err(fault) => Err(plain(ErrorKind::AlignNotANumber(fault))),
        }
    }
}

/// The bound read from `check(..)`, where the tokens begin with a name and
/// a parenthesis, and the tokens after it and its comma.
pub open spec fn parse_layout_check_spec(s: Seq<TokenView>) -> Result<
    (Option<Seq<TokenView>>, Seq<TokenView>),
    ParseErrorView,
> {
    if !starts_with_meta(s) {
        Ok((None, s))
    } else if !at_comma_or_end(s.skip(2)) || s[0]->Ident_0 != "check"@ {
        Err(plain(ErrorKind::InvalidCheckArgument))
    } else {
        Ok((Some(s[1]->Group_0.stream), after_comma(s.skip(2))))
    }
}

/// The record layout that the arguments describe: the size, then the
/// alignment, then the optional bound, and nothing after them.
pub open spec fn parse_explicit_layout_spec(s: Seq<TokenView>) -> Result<
    RecordLayoutView,
    ParseErrorView,
> {
    match parse_layout_size_spec(s) {
        Err(err) => Err(err),
        Ok((size, after_size)) => match parse_layout_align_spec(after_size) {
            Err(err) => Err(err),
            Ok((align, after_align)) => match parse_layout_check_spec(after_align) {
                Err(err) => Err(err),
                Ok((check, after_check)) => if after_check.len() != 0 {
                    Err(plain(ErrorKind::UnexpectedTrailingTokens))
                } else {
                    Ok(RecordLayoutView { size, align, check })
                },
            },
        },
    }
}

/// Reads `size = <uint>` and the comma after it. On an error nothing is consumed.
pub fn parse_layout_size<'a>(tokens: &mut Cursor<'a>) -> (res: Result<usize, ParseError>)
    ensures
        match res {
            Ok(size) => parse_layout_size_spec(old(tokens)@) == Ok::<_, ParseErrorView>(
                (size, final(tokens)@),
            ),
            Err(err) => parse_layout_size_spec(old(tokens)@) == Err::<
                (usize, Seq<TokenView>),
                _,
            >(err@) && final(tokens)@ == old(tokens)@,
        },
{
    let start = tokens.as_slice();
    let attr_value = match parse_kv(tokens) {
        Some(kv) => kv,
        None => {
            return Err(ParseError::new(ErrorKind::InvalidSizeArgument));
        },
    };
    if !same_text(attr_value.ident.name.as_str(), "size") || parse_comma(tokens).is_none() {
        tokens.rest = start;
        return Err(ParseError::new(ErrorKind::InvalidSizeArgument));
    }
    match parse_usize(attr_value.value.text.as_str()) {
        Ok(size) => Ok(size),
        Err(fault) => {
            tokens.rest = start;
            Err(ParseError::new(ErrorKind::SizeNotANumber(fault)))
        },
    }
}

/// Reads `align = <uint>` and the comma after it. On an error nothing is consumed.
pub fn parse_layout_align<'a>(tokens: &mut Cursor<'a>) -> (res: Result<usize, ParseError>)
    ensures
        match res {
            Ok(align) => parse_layout_align_spec(old(tokens)@) == Ok::<_, ParseErrorView>(
                (align, final(tokens)@),
            ),
            Err(err) => parse_layout_align_spec(old(tokens)@) == Err::<
                (usize, Seq<TokenView>),
                _,
            >(err@) && final(tokens)@ == old(tokens)@,
        },
{
    let start = tokens.as_slice();
    let attr_value = match parse_kv(tokens) {
        Some(kv) => kv,
        None => {
            return Err(ParseError::new(ErrorKind::InvalidAlignArgument));
        },
    };
    if !same_text(attr_value.ident.name.as_str(), "align") || parse_comma(tokens).is_none() {
        tokens.rest = start;
        return Err(ParseError::new(ErrorKind::InvalidAlignArgument));
    }
    match parse_usize(attr_value.value.text.as_str()) {
        Ok(align) => Ok(align),
        Err(fault) => {
            tokens.rest = start;
            Err(ParseError::new(ErrorKind::AlignNotANumber(fault)))
        },
    }
}

/// Reads `check(..)` and the comma after it, where the tokens begin with a
/// name and a parenthesis. On an error nothing is consumed.
pub fn parse_layout_check<'a>(tokens: &mut Cursor<'a>) -> (res: Result<
    Option<Vec<Token>>,
    ParseError,
>)
    ensures
        match res {
            Ok(check) => parse_layout_check_spec(old(tokens)@) == Ok::<_, ParseErrorView>(
                (
                    match check {
                        Some(bound) => Some(views(bound@)),
                        None => None,
                    },
                    final(tokens)@,
                ),
            ),
            Err(err) => parse_layout_check_spec(old(tokens)@) == Err::<
                (Option<Seq<TokenView>>, Seq<TokenView>),
                _,
            >(err@) && final(tokens)@ == old(tokens)@,
        },
{
    let start = tokens.as_slice();
    let meta_v1 = match parse_meta_v1(tokens) {
        Some(meta) => meta,
        None => {
            return Ok(None);
        },
    };
    if parse_comma(tokens).is_none() || !same_text(meta_v1.ident.name.as_str(), "check") {
        tokens.rest = start;
        return Err(ParseError::new(ErrorKind::InvalidCheckArgument));
    }
    Ok(Some(clone_tokens(meta_v1.args.stream.as_slice())))
}

/// Accepts the end of the arguments.
pub fn parse_layout_end<'a>(tokens: &mut Cursor<'a>) -> (res: Result<(), ParseError>)
    ensures
        res is Ok == (old(tokens)@.len() == 0),
        res matches Err(err) ==> err@ == plain(ErrorKind::UnexpectedTrailingTokens),
        final(tokens)@ == old(tokens)@,
{
    if parse_end(tokens).is_none() {
        return Err(ParseError::new(ErrorKind::UnexpectedTrailingTokens));
    }
    Ok(())
}

/// Reads the arguments of the record as a whole.
pub fn parse_explicit_layout(tokens: &[Token]) -> (res: Result<RecordLayout, ParseError>)
    ensures
        match res {
            Ok(layout) => parse_explicit_layout_spec(views(tokens@)) == Ok::<
                _,
                ParseErrorView,
            >(layout@),
            Err(err) => parse_explicit_layout_spec(views(tokens@)) == Err::<
                RecordLayoutView,
                _,
            >(err@),
        },
{
    let mut tokens = Cursor::new(tokens);
    let size = parse_layout_size(&mut tokens)?;
    let align = parse_layout_align(&mut tokens)?;
    let check = parse_layout_check(&mut tokens)?;
    parse_layout_end(&mut tokens)?;
    Ok(RecordLayout { size, align, check })
}

} // verus!
