use struct_layout::error::{number_text, ErrorKind, ParseError};
use struct_layout::text::NumberError;

fn message(kind: ErrorKind) -> String {
    ParseError::new(kind).message()
}

#[test]
fn errors_carry_their_kind_and_subject() {
    let plain = ParseError::new(ErrorKind::NotAStruct);
    assert_eq!(plain.kind, ErrorKind::NotAStruct);
    assert_eq!(plain.subject, None);
    let about = ParseError::with_subject(ErrorKind::UnsupportedAttribute, "repr");
    assert_eq!(about.kind, ErrorKind::UnsupportedAttribute);
    assert_eq!(about.subject, Some("repr".to_string()));
}

#[test]
fn messages_of_the_arguments() {
    assert_eq!(
        message(ErrorKind::InvalidSizeArgument),
        "parse struct_layout: invalid format for size argument, expecting `size = <usize>`"
    );
    assert_eq!(
        message(ErrorKind::InvalidAlignArgument),
        "parse struct_layout: invalid format for align argument, expecting `align = <usize>`"
    );
    assert_eq!(
        message(ErrorKind::InvalidCheckArgument),
        "parse struct_layout: invalid format for check argument, expecting `check(PodTrait..)`"
    );
    assert_eq!(
        message(ErrorKind::UnexpectedTrailingTokens),
        "parse struct_layout: unexpected additional tokens found"
    );
}

#[test]
fn messages_of_numbers() {
    assert_eq!(number_text(NumberError::Empty), "cannot parse integer from empty string");
    assert_eq!(number_text(NumberError::InvalidDigit), "invalid digit found in string");
    assert_eq!(number_text(NumberError::TooLarge), "number too large to fit in target type");
    assert_eq!(
        message(ErrorKind::SizeNotANumber(NumberError::InvalidDigit)),
        "parse struct_layout: error parsing size argument: invalid digit found in string"
    );
    assert_eq!(
        message(ErrorKind::AlignNotANumber(NumberError::TooLarge)),
        "parse struct_layout: error parsing align argument: number too large to fit in target type"
    );
    assert_eq!(
        message(ErrorKind::OffsetNotANumber(NumberError::Empty)),
        "parse field_layout: error parsing offset argument: cannot parse integer from empty string"
    );
}

#[test]
fn messages_of_numbers_agree_with_the_standard_library() {
    for (text, fault) in [
        ("", NumberError::Empty),
        ("x", NumberError::InvalidDigit),
        ("99999999999999999999999999", NumberError::TooLarge),
    ] {
        let err = text.parse::<usize>().unwrap_err();
        assert_eq!(number_text(fault), err.to_string());
    }
}

#[test]
fn messages_of_the_declaration() {
    assert_eq!(message(ErrorKind::MalformedAttribute), "parse attribute: expecting `#[..]`");
    assert_eq!(message(ErrorKind::UnknownAttributeSyntax), "parse struct: unknown attribute syntax");
    assert_eq!(
        message(ErrorKind::InvalidDeriveSyntax),
        "parse struct: invalid derive syntax, expecting `#[derive(..)]`"
    );
    assert_eq!(
        message(ErrorKind::TrailingTokensAfterDerive),
        "parse struct: found extra tokens after derive attribute"
    );
    assert_eq!(
        message(ErrorKind::ExpectedDerivedBehavior),
        "derive attribute: expecting list of comma separated identifiers"
    );
    assert_eq!(
        message(ErrorKind::NotAStruct),
        "parse struct: struct layout is only allowed on structs"
    );
    assert_eq!(
        message(ErrorKind::EnumNotSupported),
        "parse struct: struct layout is only allowed on structs, not on enums"
    );
    assert_eq!(
        message(ErrorKind::UnionNotSupported),
        "parse struct: struct layout is only allowed on structs, not on unions"
    );
    assert_eq!(
        message(ErrorKind::MissingStructName),
        "parse struct: struct name identifier not found"
    );
    assert_eq!(
        message(ErrorKind::GenericsNotSupported),
        "parse struct: generic parameters not supported"
    );
    assert_eq!(
        message(ErrorKind::WhereClauseNotSupported),
        "parse struct: where clause not supported"
    );
    assert_eq!(
        message(ErrorKind::TupleStructNotSupported),
        "parse struct: tuple syntax not supported, struct layout requires {} to declare the fields"
    );
}

#[test]
fn messages_of_the_fields() {
    assert_eq!(
        message(ErrorKind::UnknownFieldAttributeSyntax),
        "parse field: unknown attribute syntax"
    );
    assert_eq!(
        message(ErrorKind::InvalidFieldAttribute),
        "parse field: invalid field attribute syntax, expecting `#[field(..)]`"
    );
    assert_eq!(
        message(ErrorKind::TrailingTokensAfterFieldAttribute),
        "parse field: found extra tokens after field attribute"
    );
    assert_eq!(
        message(ErrorKind::MissingFieldLayout),
        "parse field: every field must have a `#[field(..)]` attribute"
    );
    assert_eq!(
        message(ErrorKind::DuplicateFieldLayout),
        "parse field: a field must not have more than one `#[field(..)]` attribute"
    );
    assert_eq!(
        message(ErrorKind::MissingFieldName),
        "parse field: expecting field identifier not found"
    );
    assert_eq!(
        message(ErrorKind::MissingFieldColon),
        "parse field: colon must follow field identifier"
    );
    assert_eq!(
        message(ErrorKind::InvalidOffsetArgument),
        "parse field_layout: invalid format for offset argument, expecting `offset = <usize>`"
    );
    assert_eq!(
        message(ErrorKind::ExpectedAccessorList),
        "parse field_layout: expecting comma separated list"
    );
    assert_eq!(
        message(ErrorKind::ExpectedAccessorKind),
        "parse field_layout: expecting an identifier"
    );
    assert_eq!(
        message(ErrorKind::UnknownAccessorKind),
        "parse field_layout: expecting an identifier of `get`, `set`, `ref` or `mut`"
    );
}

#[test]
fn messages_name_their_subject() {
    assert_eq!(
        ParseError::with_subject(ErrorKind::UnsupportedAttribute, "repr").message(),
        "parse struct: unsupported attribute `repr`"
    );
    assert_eq!(
        ParseError::with_subject(ErrorKind::UnsupportedFieldAttribute, "allow").message(),
        "parse field: unsupported attribute `allow`"
    );
    assert_eq!(
        ParseError::with_subject(ErrorKind::UnsupportedDerivedBehavior, "Hash").message(),
        "derive attribute: unsupported trait: `Hash`"
    );
    assert_eq!(
        ParseError::with_subject(ErrorKind::ExpectedCommaAfterDerivedBehavior, "Copy").message(),
        "derive attribute: expecting comma after Copy"
    );
    assert_eq!(
        ParseError::with_subject(ErrorKind::ExpectedCommaAfterAccessorKind, "get").message(),
        "parse field_layout: expecting comma after get"
    );
}

#[test]
fn heads_and_tails_frame_the_subject() {
    assert_eq!(ErrorKind::UnsupportedAttribute.head(), "parse struct: unsupported attribute `");
    assert_eq!(ErrorKind::UnsupportedAttribute.tail(), "`");
    assert_eq!(ErrorKind::NotAStruct.tail(), "");
}
