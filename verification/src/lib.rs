//! A schema-driven layout compiler.
//!
//! Given the arguments `size = <uint>, align = <uint>[, check(<bound>)]` and a
//! struct declaration whose fields each carry `#[field(offset = <uint>, ..)]`,
//! the library produces the source of a record backed by an opaque byte array
//! together with accessors that read and write the fields at their offsets.
//!
//! Everything works on token trees that the caller has already scanned; the
//! library never reads raw source text. Whether a field fits the record and
//! is aligned cannot be known before the types of the fields are: those
//! conditions travel with the output as constant expressions and are decided
//! where the output is compiled.

use crate::code::{code_views, Code, CodeView};
use crate::emit::{emit_record, record_code};
use crate::error::{plain, ErrorKind, ParseError, ParseErrorView};
use crate::layout::{
    parse_explicit_layout, parse_explicit_layout_spec, parse_layout_size_spec, starts_with_key,
};
use crate::schema::RecordView;
use crate::structure::{parse_structure, parse_structure_spec};
use crate::token::{views, Token, TokenView};
use vstd::prelude::*;

pub mod code;
pub mod cursor;
pub mod emit;
pub mod error;
pub mod field;
pub mod layout;
pub mod record;
pub mod schema;
pub mod structure;
pub mod text;
pub mod token;
pub mod validate;

verus! {

/// The record that the arguments and the declaration describe together.
pub open spec fn parse_record_spec(attributes: Seq<TokenView>, input: Seq<TokenView>) -> Result<
    RecordView,
    ParseErrorView,
> {
    match parse_explicit_layout_spec(attributes) {
        Err(err) => Err(err),
        Ok(layout) => parse_structure_spec(input, layout),
    }
}

/// The output for the arguments `attributes` and the declaration `input`:
/// the rendering of the record they describe, or the first fault in them.
/// The arguments are read first, so a fault in them is reported whatever
/// the declaration holds.
pub open spec fn explicit_spec(attributes: Seq<TokenView>, input: Seq<TokenView>) -> Result<
    Seq<CodeView>,
    ParseErrorView,
> {
    match parse_record_spec(attributes, input) {
        Err(err) => Err(err),
        Ok(record) => Ok(record_code(record)),
    }
}

/// Compiles a struct declaration with explicit field offsets into the
/// record that replaces it. There is no partial output: either the whole
/// record is rendered or an error is returned.
pub fn explicit(attributes: Vec<Token>, input: Vec<Token>) -> (res: Result<Vec<Code>, ParseError>)
    ensures
        match res {
            Ok(code) => explicit_spec(views(attributes@), views(input@)) == Ok::<
                _,
                ParseErrorView,
            >(code_views(code@)),
            Err(err) => explicit_spec(views(attributes@), views(input@)) == Err::<
                Seq<CodeView>,
                _,
            >(err@),
        },
{
    let layout = parse_explicit_layout(attributes.as_slice())?;
    let stru = parse_structure(input.as_slice(), layout)?;
    Ok(emit_record(&stru))
}

/// The arguments are read before the declaration: where they are at fault,
/// the fault is reported whatever the declaration holds, and no field is
/// looked at.
pub proof fn lemma_arguments_are_read_first(attributes: Seq<TokenView>, input: Seq<TokenView>)
    requires
        parse_explicit_layout_spec(attributes) is Err,
    ensures
        explicit_spec(attributes, input) == Err::<Seq<CodeView>, _>(
            parse_explicit_layout_spec(attributes)->Err_0,
        ),
{
}

/// Where `align = <uint>` does not follow the size, the error says that the
/// alignment is missing, whatever the declaration holds.
pub proof fn lemma_missing_align(attributes: Seq<TokenView>, input: Seq<TokenView>)
    requires
        parse_layout_size_spec(attributes) is Ok,
        !starts_with_key(parse_layout_size_spec(attributes)->Ok_0.1, "align"@),
    ensures
        explicit_spec(attributes, input) == Err::<Seq<CodeView>, _>(
            plain(ErrorKind::InvalidAlignArgument),
        ),
{
}

} // verus!
