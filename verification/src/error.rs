//! Structural errors: what can be wrong with the shape of a schema.

use crate::text::{concat3, NumberError};
use vstd::prelude::*;
use vstd::string::*;

verus! {

/// What is wrong with a schema.
#[derive(Clone, Copy, Debug, PartialEq, Eq, Structural)]
pub enum ErrorKind {
    /// The first argument is not `size = <literal>` followed by a comma or the end.
    InvalidSizeArgument,
    /// The literal given for `size` is not a number.
    SizeNotANumber(NumberError),
    /// The second argument is not `align = <literal>` followed by a comma or the end.
    InvalidAlignArgument,
    /// The literal given for `align` is not a number.
    AlignNotANumber(NumberError),
    /// The third argument has the shape `name(..)` but is not `check(..)`, or
    /// is followed by something other than a comma or the end.
    InvalidCheckArgument,
    /// Tokens follow the last recognized argument.
    UnexpectedTrailingTokens,
    /// A `#` is not followed by a bracketed group.
    MalformedAttribute,
    /// An attribute on the struct begins with something other than a name.
    UnknownAttributeSyntax,
    /// An attribute on the struct is neither `derive(..)` nor documentation.
    UnsupportedAttribute,
    /// A `derive` attribute is not of the form `derive(..)`.
    InvalidDeriveSyntax,
    /// Tokens follow the parenthesis of `derive(..)`.
    TrailingTokensAfterDerive,
    /// An entry of `derive(..)` is not a name.
    ExpectedDerivedBehavior,
    /// `derive(..)` names something other than `Copy`, `Clone`, `Debug`, `Default`.
    UnsupportedDerivedBehavior,
    /// An entry of `derive(..)` is followed by something other than a comma or the end.
    ExpectedCommaAfterDerivedBehavior,
    /// The declaration is an `enum`.
    EnumNotSupported,
    /// The declaration is a `union`.
    UnionNotSupported,
    /// The declaration does not begin with `struct`.
    NotAStruct,
    /// No name follows `struct`.
    MissingStructName,
    /// The struct has generic parameters.
    GenericsNotSupported,
    /// The struct has a `where` clause.
    WhereClauseNotSupported,
    /// The struct has no brace-delimited field list.
    TupleStructNotSupported,
    /// An attribute on a field begins with something other than a name.
    UnknownFieldAttributeSyntax,
    /// An attribute on a field is neither `field(..)` nor documentation.
    UnsupportedFieldAttribute,
    /// A `field` attribute is not of the form `field(..)`.
    InvalidFieldAttribute,
    /// Tokens follow the parenthesis of `field(..)`.
    TrailingTokensAfterFieldAttribute,
    /// A field has no `field(..)` attribute.
    MissingFieldLayout,
    /// A field has more than one `field(..)` attribute.
    DuplicateFieldLayout,
    /// No name follows the attributes and visibility of a field.
    MissingFieldName,
    /// No colon follows the name of a field.
    MissingFieldColon,
    /// `field(..)` does not begin with `offset = <literal>`.
    InvalidOffsetArgument,
    /// The literal given for `offset` is not a number.
    OffsetNotANumber(NumberError),
    /// `offset = <literal>` is followed by something other than a comma or the end.
    ExpectedAccessorList,
    /// An entry after the offset is not a name.
    ExpectedAccessorKind,
    /// An entry after the offset is a name other than `get`, `set`, `ref`, `mut`.
    UnknownAccessorKind,
    /// An accessor kind is followed by something other than a comma or the end.
    ExpectedCommaAfterAccessorKind,
}

/// A structural error: its kind and, where one name in the schema is to
/// blame, that name.
#[derive(Debug, PartialEq, Eq)]
pub struct ParseError {
    pub kind: ErrorKind,
    pub subject: Option<String>,
}

/// The mathematical value of a [`ParseError`].
pub ghost struct ParseErrorView {
    pub kind: ErrorKind,
    pub subject: Option<Seq<char>>,
}

impl View for ParseError {
    type V = ParseErrorView;

    open spec fn view(&self) -> ParseErrorView {
        ParseErrorView {
            kind: self.kind,
            subject: match self.subject {
                Some(name) => Some(name@),
                None => None,
            },
        }
    }
}

/// The value of an error that blames no name.
pub open spec fn plain(kind: ErrorKind) -> ParseErrorView {
    ParseErrorView { kind, subject: None }
}

/// The value of an error that blames `name`.
pub open spec fn about(kind: ErrorKind, name: Seq<char>) -> ParseErrorView {
    ParseErrorView { kind, subject: Some(name) }
}

impl ParseError {
    /// An error that blames no name.
    pub fn new(kind: ErrorKind) -> (err: ParseError)
        ensures
            err@ == plain(kind),
    {
        ParseError { kind, subject: None }
    }

    /// An error that blames `name`.
    pub fn with_subject(kind: ErrorKind, name: &str) -> (err: ParseError)
        ensures
            err@ == about(kind, name@),
    {
        ParseError { kind, subject: Some(String::from_str(name)) }
    }
}

/// What is wrong with a number, in words.
pub open spec fn number_message(fault: NumberError) -> Seq<char> {
    match fault {
        NumberError::Empty => "cannot parse integer from empty string"@,
        NumberError::InvalidDigit => "invalid digit found in string"@,
        NumberError::TooLarge => "number too large to fit in target type"@,
    }
}

/// The words of a message that stand before the name or number it is about.
pub open spec fn message_head(kind: ErrorKind) -> Seq<char> {
    match kind {
        ErrorKind::InvalidSizeArgument =>
            "parse struct_layout: invalid format for size argument, expecting `size = <usize>`"@,
        ErrorKind::SizeNotANumber(_) => "parse struct_layout: error parsing size argument: "@,
        ErrorKind::InvalidAlignArgument =>
            "parse struct_layout: invalid format for align argument, expecting `align = <usize>`"@,
        ErrorKind::AlignNotANumber(_) => "parse struct_layout: error parsing align argument: "@,
        ErrorKind::InvalidCheckArgument =>
            "parse struct_layout: invalid format for check argument, expecting `check(PodTrait..)`"@,
        ErrorKind::UnexpectedTrailingTokens =>
            "parse struct_layout: unexpected additional tokens found"@,
        ErrorKind::MalformedAttribute => "parse attribute: expecting `#[..]`"@,
        ErrorKind::UnknownAttributeSyntax => "parse struct: unknown attribute syntax"@,
        ErrorKind::UnsupportedAttribute => "parse struct: unsupported attribute `"@,
        ErrorKind::InvalidDeriveSyntax =>
            "parse struct: invalid derive syntax, expecting `#[derive(..)]`"@,
        ErrorKind::TrailingTokensAfterDerive =>
            "parse struct: found extra tokens after derive attribute"@,
        ErrorKind::ExpectedDerivedBehavior =>
            "derive attribute: expecting list of comma separated identifiers"@,
        ErrorKind::UnsupportedDerivedBehavior => "derive attribute: unsupported trait: `"@,
        ErrorKind::ExpectedCommaAfterDerivedBehavior =>
            "derive attribute: expecting comma after "@,
        ErrorKind::EnumNotSupported =>
            "parse struct: struct layout is only allowed on structs, not on enums"@,
        ErrorKind::UnionNotSupported =>
            "parse struct: struct layout is only allowed on structs, not on unions"@,
        ErrorKind::NotAStruct => "parse struct: struct layout is only allowed on structs"@,
        ErrorKind::MissingStructName => "parse struct: struct name identifier not found"@,
        ErrorKind::GenericsNotSupported => "parse struct: generic parameters not supported"@,
        ErrorKind::WhereClauseNotSupported => "parse struct: where clause not supported"@,
        ErrorKind::TupleStructNotSupported =>
            "parse struct: tuple syntax not supported, struct layout requires {} to declare the fields"@,
        ErrorKind::UnknownFieldAttributeSyntax => "parse field: unknown attribute syntax"@,
        ErrorKind::UnsupportedFieldAttribute => "parse field: unsupported attribute `"@,
        ErrorKind::InvalidFieldAttribute =>
            "parse field: invalid field attribute syntax, expecting `#[field(..)]`"@,
        ErrorKind::TrailingTokensAfterFieldAttribute =>
            "parse field: found extra tokens after field attribute"@,
        ErrorKind::MissingFieldLayout =>
            "parse field: every field must have a `#[field(..)]` attribute"@,
        ErrorKind::DuplicateFieldLayout =>
            "parse field: a field must not have more than one `#[field(..)]` attribute"@,
        ErrorKind::MissingFieldName => "parse field: expecting field identifier not found"@,
        ErrorKind::MissingFieldColon => "parse field: colon must follow field identifier"@,
        ErrorKind::InvalidOffsetArgument =>
            "parse field_layout: invalid format for offset argument, expecting `offset = <usize>`"@,
        ErrorKind::OffsetNotANumber(_) => "parse field_layout: error parsing offset argument: "@,
        ErrorKind::ExpectedAccessorList => "parse field_layout: expecting comma separated list"@,
        ErrorKind::ExpectedAccessorKind => "parse field_layout: expecting an identifier"@,
        ErrorKind::UnknownAccessorKind =>
            "parse field_layout: expecting an identifier of `get`, `set`, `ref` or `mut`"@,
        ErrorKind::ExpectedCommaAfterAccessorKind => "parse field_layout: expecting comma after "@,
    }
}

/// The words of a message that stand behind the name it is about.
pub open spec fn message_tail(kind: ErrorKind) -> Seq<char> {
    match kind {
        ErrorKind::UnsupportedAttribute
        | ErrorKind::UnsupportedDerivedBehavior
        | ErrorKind::UnsupportedFieldAttribute => "`"@,
        _ => ""@,
    }
}

/// The name or number that a message is about, where there is one.
pub open spec fn message_detail(err: ParseErrorView) -> Seq<char> {
    match err.kind {
        ErrorKind::SizeNotANumber(fault)
        | ErrorKind::AlignNotANumber(fault)
        | ErrorKind::OffsetNotANumber(fault) => number_message(fault),
        _ => match err.subject {
            Some(name) => name,
            None => ""@,
        },
    }
}

/// The message of an error: it names the form that was expected.
pub open spec fn message_spec(err: ParseErrorView) -> Seq<char> {
    message_head(err.kind) + message_detail(err) + message_tail(err.kind)
}

/// What is wrong with a number, in words.
pub fn number_text(fault: NumberError) -> (text: &'static str)
    ensures
        text@ == number_message(fault),
{
    match fault {
        NumberError::Empty => "cannot parse integer from empty string",
        NumberError::InvalidDigit => "invalid digit found in string",
        NumberError::TooLarge => "number too large to fit in target type",
    }
}

impl ErrorKind {
    /// The words of the message that stand before the name or number it is about.
    pub fn head(self) -> (text: &'static str)
        ensures
            text@ == message_head(self),
    {
        match self {
            ErrorKind::InvalidSizeArgument =>
                "parse struct_layout: invalid format for size argument, expecting `size = <usize>`",
            ErrorKind::SizeNotANumber(_) => "parse struct_layout: error parsing size argument: ",
            ErrorKind::InvalidAlignArgument =>
                "parse struct_layout: invalid format for align argument, expecting `align = <usize>`",
            ErrorKind::AlignNotANumber(_) => "parse struct_layout: error parsing align argument: ",
            ErrorKind::InvalidCheckArgument =>
                "parse struct_layout: invalid format for check argument, expecting `check(PodTrait..)`",
            ErrorKind::UnexpectedTrailingTokens =>
                "parse struct_layout: unexpected additional tokens found",
            ErrorKind::MalformedAttribute => "parse attribute: expecting `#[..]`",
            ErrorKind::UnknownAttributeSyntax => "parse struct: unknown attribute syntax",
            ErrorKind::UnsupportedAttribute => "parse struct: unsupported attribute `",
            ErrorKind::InvalidDeriveSyntax =>
                "parse struct: invalid derive syntax, expecting `#[derive(..)]`",
            ErrorKind::TrailingTokensAfterDerive =>
                "parse struct: found extra tokens after derive attribute",
            ErrorKind::ExpectedDerivedBehavior =>
                "derive attribute: expecting list of comma separated identifiers",
            ErrorKind::UnsupportedDerivedBehavior => "derive attribute: unsupported trait: `",
            ErrorKind::ExpectedCommaAfterDerivedBehavior =>
                "derive attribute: expecting comma after ",
            ErrorKind::EnumNotSupported =>
                "parse struct: struct layout is only allowed on structs, not on enums",
            ErrorKind::UnionNotSupported =>
                "parse struct: struct layout is only allowed on structs, not on unions",
            ErrorKind::NotAStruct => "parse struct: struct layout is only allowed on structs",
            ErrorKind::MissingStructName => "parse struct: struct name identifier not found",
            ErrorKind::GenericsNotSupported => "parse struct: generic parameters not supported",
            ErrorKind::WhereClauseNotSupported => "parse struct: where clause not supported",
            ErrorKind::TupleStructNotSupported =>
                "parse struct: tuple syntax not supported, struct layout requires {} to declare the fields",
            ErrorKind::UnknownFieldAttributeSyntax => "parse field: unknown attribute syntax",
            ErrorKind::UnsupportedFieldAttribute => "parse field: unsupported attribute `",
            ErrorKind::InvalidFieldAttribute =>
                "parse field: invalid field attribute syntax, expecting `#[field(..)]`",
            ErrorKind::TrailingTokensAfterFieldAttribute =>
                "parse field: found extra tokens after field attribute",
            ErrorKind::MissingFieldLayout =>
                "parse field: every field must have a `#[field(..)]` attribute",
            ErrorKind::DuplicateFieldLayout =>
                "parse field: a field must not have more than one `#[field(..)]` attribute",
            ErrorKind::MissingFieldName => "parse field: expecting field identifier not found",
            ErrorKind::MissingFieldColon => "parse field: colon must follow field identifier",
            ErrorKind::InvalidOffsetArgument =>
                "parse field_layout: invalid format for offset argument, expecting `offset = <usize>`",
            ErrorKind::OffsetNotANumber(_) => "parse field_layout: error parsing offset argument: ",
            ErrorKind::ExpectedAccessorList => "parse field_layout: expecting comma separated list",
            ErrorKind::ExpectedAccessorKind => "parse field_layout: expecting an identifier",
            ErrorKind::UnknownAccessorKind =>
                "parse field_layout: expecting an identifier of `get`, `set`, `ref` or `mut`",
            ErrorKind::ExpectedCommaAfterAccessorKind =>
                "parse field_layout: expecting comma after ",
        }
    }

    /// The words of the message that stand behind the name it is about.
    pub fn tail(self) -> (text: &'static str)
        ensures
            text@ == message_tail(self),
    {
        match self {
            ErrorKind::UnsupportedAttribute
            | ErrorKind::UnsupportedDerivedBehavior
            | ErrorKind::UnsupportedFieldAttribute => "`",
            _ => "",
        }
    }
}

impl ParseError {
    /// The message of the error.
    pub fn message(&self) -> (text: String)
        ensures
            text@ == message_spec(self@),
    {
        let detail = match self.kind {
            ErrorKind::SizeNotANumber(fault)
            | ErrorKind::AlignNotANumber(fault)
            | ErrorKind::OffsetNotANumber(fault) => number_text(fault),
            _ => match &self.subject {
                Some(name) => name.as_str(),
                None => "",
            },
        };
        concat3(self.kind.head(), detail, self.kind.tail())
    }
}

} // verus!
