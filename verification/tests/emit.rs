use struct_layout::code::{
    emit_attrs, emit_group_f, emit_ident, emit_impl_f, emit_punct, emit_text, emit_tokens,
    emit_ty, emit_vis, Code,
};
use struct_layout::cursor::{parse_attrs, Cursor};
use struct_layout::emit::{
    emit_debug_entry, emit_derive_clone, emit_derive_copy, emit_derive_debug,
    emit_derive_default, emit_derives, emit_field, emit_field_check, emit_field_get,
    emit_field_mut, emit_field_obligation, emit_field_ref, emit_field_set, emit_fields,
    emit_record, emit_trait_bounds, emit_trait_impl_f,
};
use struct_layout::explicit;
use struct_layout::layout::parse_explicit_layout;
use struct_layout::schema::{AccessorKind, DerivedBehavior, RecordDescriptor};
use struct_layout::structure::parse_structure;
use struct_layout::token::{Delimiter, Span, Spacing, Token};

fn is_punct_char(c: char) -> bool {
    "#=,:<>;+-*/&|!.?'@$%^~".contains(c)
}

fn lex_until(chars: &[char], pos: &mut usize, close: Option<char>) -> Vec<Token> {
    let mut out = Vec::new();
    while *pos < chars.len() {
        let c = chars[*pos];
        *pos += 1;
        if Some(c) == close {
            return out;
        }
        if c.is_whitespace() {
            continue;
        }
        let next = chars.get(*pos).copied();
        if c == '(' {
            out.push(Token::group(Delimiter::Parenthesis, lex_until(chars, pos, Some(')'))));
        } else if c == '{' {
            out.push(Token::group(Delimiter::Brace, lex_until(chars, pos, Some('}'))));
        } else if c == '[' {
            out.push(Token::group(Delimiter::Bracket, lex_until(chars, pos, Some(']'))));
        } else if c == '"' {
            let start = *pos - 1;
            while chars[*pos] != '"' {
                *pos += 1;
            }
            *pos += 1;
            out.push(Token::literal(&chars[start..*pos].iter().collect::<String>()));
        } else if c.is_alphanumeric() || c == '_' {
            let start = *pos - 1;
            while *pos < chars.len() && (chars[*pos].is_alphanumeric() || chars[*pos] == '_') {
                *pos += 1;
            }
            let word: String = chars[start..*pos].iter().collect();
            if c.is_ascii_digit() {
                out.push(Token::literal(&word));
            } else {
                out.push(Token::ident(&word));
            }
        } else if c == '\'' || next.map_or(false, is_punct_char) {
            out.push(Token::punct(c, Spacing::Joint));
        } else {
            out.push(Token::punct(c, Spacing::Alone));
        }
    }
    out
}

/// Scans `text` into tokens, well enough for the declarations used here.
fn lex(text: &str) -> Vec<Token> {
    let chars: Vec<char> = text.chars().collect();
    let mut pos = 0;
    lex_until(&chars, &mut pos, None)
}

fn render_token(token: &Token, out: &mut String) {
    match token {
        Token::Ident(ident) => {
            out.push_str(&ident.name);
            out.push(' ');
        }
        Token::Punct(punct) => {
            out.push(punct.ch);
            if punct.spacing == Spacing::Alone {
                out.push(' ');
            }
        }
        Token::Literal(literal) => {
            out.push_str(&literal.text);
            out.push(' ');
        }
        Token::Group(group) => {
            let (open, close) = match group.delimiter {
                Delimiter::Parenthesis => ("( ", ") "),
                Delimiter::Brace => ("{ ", "} "),
                Delimiter::Bracket => ("[ ", "] "),
                Delimiter::Invisible => ("", ""),
            };
            out.push_str(open);
            for inner in &group.stream {
                render_token(inner, out);
            }
            out.push_str(close);
        }
    }
}

fn render_into(code: &[Code], out: &mut String) {
    for piece in code {
        match piece {
            Code::Token(token) => render_token(token, out),
            Code::Source(text) => {
                out.push_str(text);
                out.push(' ');
            }
            Code::Group(delimiter, inner) => {
                let (open, close) = match delimiter {
                    Delimiter::Parenthesis => ("( ", ") "),
                    Delimiter::Brace => ("{ ", "} "),
                    Delimiter::Bracket => ("[ ", "] "),
                    Delimiter::Invisible => ("", ""),
                };
                out.push_str(open);
                render_into(inner, out);
                out.push_str(close);
            }
        }
    }
}

/// Writes the output as one line of source text, with single spaces.
fn render(code: &[Code]) -> String {
    let mut out = String::new();
    render_into(code, &mut out);
    out.split_whitespace().collect::<Vec<&str>>().join(" ")
}

const BOUNDS: &str = "let _: [(); (FIELD_OFFSET + mem::size_of::<FieldT>() <= RECORD_SIZE) as usize - 1];";

const BOUNDS_AND_ALIGNMENT: &str = "let _: [(); (FIELD_OFFSET + mem::size_of::<FieldT>() <= RECORD_SIZE && FIELD_OFFSET % mem::align_of::<FieldT>() == 0) as usize - 1];";

const READ: &str = "unsafe { ptr::read_unaligned((self as *const _ as *const u8).offset(FIELD_OFFSET as isize) as *const FieldT) }";

const WRITE: &str = "unsafe { ptr::write_unaligned((self as *mut _ as *mut u8).offset(FIELD_OFFSET as isize) as *mut FieldT, value); }";

const BORROW: &str = "unsafe { &*((self as *const _ as *const u8).offset(FIELD_OFFSET as isize) as *const FieldT) }";

const BORROW_MUT: &str = "unsafe { &mut *((self as *mut _ as *mut u8).offset(FIELD_OFFSET as isize) as *mut FieldT) }";

fn record(attributes: &str, input: &str) -> RecordDescriptor {
    let layout = parse_explicit_layout(&lex(attributes)).unwrap();
    parse_structure(&lex(input), layout).unwrap()
}

fn foo() -> RecordDescriptor {
    record("size = 16, align = 4", "struct Foo { #[field(offset = 4)] field: i32, }")
}

fn getter(check: &str) -> String {
    format!(
        "fn field (&self) -> i32 where i32 : {} {{ const FIELD_OFFSET: usize = 4; const RECORD_SIZE: usize = 16; type FieldT = i32 ; use ::core::{{mem, ptr}}; {} {} }}",
        check, BOUNDS, READ
    )
}

fn setter(check: &str) -> String {
    format!(
        "fn set_field ( &mut self, value: i32 ) -> &mut Self where i32 : {} {{ const FIELD_OFFSET: usize = 4; const RECORD_SIZE: usize = 16; type FieldT = i32 ; use ::core::{{mem, ptr}}; {} {} self }}",
        check, BOUNDS, WRITE
    )
}

fn borrower(check: &str) -> String {
    format!(
        "fn field_ref(&self) -> & i32 where i32 : {} {{ const FIELD_OFFSET: usize = 4; const RECORD_SIZE: usize = 16; type FieldT = i32 ; use ::core::mem; {} {} }}",
        check, BOUNDS_AND_ALIGNMENT, BORROW
    )
}

fn mut_borrower(check: &str) -> String {
    format!(
        "fn field_mut(&mut self) -> &mut i32 where i32 : {} {{ const FIELD_OFFSET: usize = 4; const RECORD_SIZE: usize = 16; type FieldT = i32 ; use ::core::mem; {} {} }}",
        check, BOUNDS_AND_ALIGNMENT, BORROW_MUT
    )
}

// The pieces

#[test]
fn emit_punct_appends_a_character_standing_alone() {
    let mut code = vec![Code::Source("x".to_string())];
    emit_punct(&mut code, ':');
    assert_eq!(
        code,
        vec![Code::Source("x".to_string()), Code::Token(Token::punct(':', Spacing::Alone))]
    );
}

#[test]
fn emit_ident_appends_an_identifier() {
    let mut code = Vec::new();
    emit_ident(&mut code, "where");
    assert_eq!(code, vec![Code::Token(Token::ident("where"))]);
}

#[test]
fn emit_text_appends_source_text() {
    let mut code = Vec::new();
    emit_text(&mut code, " -> &mut Self");
    assert_eq!(code, vec![Code::Source(" -> &mut Self".to_string())]);
}

#[test]
fn emit_group_f_appends_one_group() {
    let mut code = vec![Code::Token(Token::ident("fn"))];
    let mut body = Vec::new();
    emit_text(&mut body, "a");
    emit_ident(&mut body, "b");
    emit_group_f(&mut code, Delimiter::Parenthesis, body);
    assert_eq!(
        code,
        vec![
            Code::Token(Token::ident("fn")),
            Code::Group(
                Delimiter::Parenthesis,
                vec![Code::Source("a".to_string()), Code::Token(Token::ident("b"))]
            ),
        ]
    );
}

#[test]
fn emit_tokens_appends_copies_in_order() {
    let tokens = lex("Option<&'static u8>");
    let mut code = vec![Code::Token(Token::ident("x"))];
    emit_tokens(&mut code, &tokens);
    assert_eq!(code.len(), 1 + tokens.len());
    for (piece, token) in code[1..].iter().zip(tokens.iter()) {
        assert_eq!(piece, &Code::Token(token.clone()));
    }
    let mut vis = Vec::new();
    emit_vis(&mut vis, &lex("pub"));
    assert_eq!(vis, vec![Code::Token(Token::ident("pub"))]);
    let mut ty = Vec::new();
    emit_ty(&mut ty, &lex("[u8; 4]"));
    assert_eq!(render(&ty), "[ u8 ; 4 ]");
}

#[test]
fn emit_attrs_appends_each_hash_and_group() {
    let tokens = lex("#[doc = \"a\"] #[doc = \"b\"]");
    let mut cursor = Cursor::new(&tokens);
    let attrs = parse_attrs(&mut cursor).unwrap();
    let mut code = Vec::new();
    emit_attrs(&mut code, &attrs);
    assert_eq!(code.len(), 4);
    for (piece, token) in code.iter().zip(tokens.iter()) {
        assert_eq!(piece, &Code::Token(token.clone()));
    }
}

#[test]
fn emit_impl_f_wraps_the_body() {
    let mut code = Vec::new();
    let mut body = Vec::new();
    emit_text(&mut body, "fn f() {}");
    emit_impl_f(&mut code, "Foo", Span { mark: 3 }, body);
    assert_eq!(code[1], Code::Token(Token::ident("Foo").at(Span { mark: 3 })));
    assert_eq!(render(&code), "impl Foo { fn f() {} }");
}

// Accessors

#[test]
fn accessor_names_are_distinct() {
    assert_eq!(AccessorKind::Read.method_name("field"), "field");
    assert_eq!(AccessorKind::Write.method_name("field"), "set_field");
    assert_eq!(AccessorKind::BorrowImmutable.method_name("field"), "field_ref");
    assert_eq!(AccessorKind::BorrowMutable.method_name("field"), "field_mut");
}

#[test]
fn emit_field_check_uses_the_default_bound() {
    let stru = foo();
    let mut code = Vec::new();
    emit_field_check(&mut code, &stru, &stru.fields[0]);
    assert_eq!(render(&code), "where i32 : Copy + 'static");
}

#[test]
fn emit_field_check_uses_the_bound_of_the_record() {
    let stru = record(
        "size = 16, align = 4, check(Pod + Send)",
        "struct Foo { #[field(offset = 4)] field: Wrapper<i32> , }",
    );
    let mut code = Vec::new();
    emit_field_check(&mut code, &stru, &stru.fields[0]);
    assert_eq!(render(&code), "where Wrapper < i32 > : Pod + Send");
}

#[test]
fn emit_field_obligation_depends_on_the_kind() {
    let stru = foo();
    let head = "const FIELD_OFFSET: usize = 4; const RECORD_SIZE: usize = 16; type FieldT = i32";
    for kind in [AccessorKind::Read, AccessorKind::Write] {
        let mut body = Vec::new();
        emit_field_obligation(&mut body, &stru, &stru.fields[0], kind);
        assert_eq!(render(&body), format!("{} ; use ::core::{{mem, ptr}}; {}", head, BOUNDS));
    }
    for kind in [AccessorKind::BorrowImmutable, AccessorKind::BorrowMutable] {
        let mut body = Vec::new();
        emit_field_obligation(&mut body, &stru, &stru.fields[0], kind);
        assert_eq!(
            render(&body),
            format!("{} ; use ::core::mem; {}", head, BOUNDS_AND_ALIGNMENT)
        );
    }
}

#[test]
fn emit_field_get_renders_the_reader() {
    let stru = foo();
    let mut code = Vec::new();
    emit_field_get(&mut code, &stru, &stru.fields[0]);
    assert_eq!(render(&code), getter("Copy + 'static"));
}

#[test]
fn emit_field_set_renders_the_writer() {
    let stru = foo();
    let mut code = Vec::new();
    emit_field_set(&mut code, &stru, &stru.fields[0]);
    assert_eq!(render(&code), setter("Copy + 'static"));
}

#[test]
fn emit_field_ref_renders_the_shared_borrow() {
    let stru = foo();
    let mut code = Vec::new();
    emit_field_ref(&mut code, &stru, &stru.fields[0]);
    assert_eq!(render(&code), borrower("Copy + 'static"));
}

#[test]
fn emit_field_mut_renders_the_mutable_borrow() {
    let stru = foo();
    let mut code = Vec::new();
    emit_field_mut(&mut code, &stru, &stru.fields[0]);
    assert_eq!(render(&code), mut_borrower("Copy + 'static"));
}

#[test]
fn emit_field_renders_the_requested_accessors_in_order() {
    let stru = foo();
    let mut code = Vec::new();
    emit_field(&mut code, &stru, &stru.fields[0]);
    let check = "Copy + 'static";
    assert_eq!(
        render(&code),
        [getter(check), setter(check), borrower(check), mut_borrower(check)].join(" ")
    );

    let stru = record(
        "size = 16, align = 4, check(Pod)",
        "struct Foo { #[field(offset = 4, mut, get)] field: i32, }",
    );
    let mut code = Vec::new();
    emit_field(&mut code, &stru, &stru.fields[0]);
    assert_eq!(render(&code), [getter("Pod"), mut_borrower("Pod")].join(" "));
}

#[test]
fn accessors_carry_the_documentation_and_visibility_of_the_field() {
    let stru = record(
        "size = 16, align = 4",
        "struct Foo { #[doc = \"The field.\"] #[field(offset = 4, get, ref)] pub field: i32, }",
    );
    let mut code = Vec::new();
    emit_field(&mut code, &stru, &stru.fields[0]);
    let doc = "# [ doc = \"The field.\" ] pub";
    assert_eq!(
        render(&code),
        format!(
            "{} {} {} {}",
            doc,
            getter("Copy + 'static"),
            doc,
            borrower("Copy + 'static")
        )
    );
}

#[test]
fn emit_fields_keeps_declaration_order() {
    let stru = record(
        "size = 16, align = 4",
        "struct Foo { #[field(offset = 8, get)] b: u8, #[field(offset = 0, get)] a: u8, }",
    );
    let mut code = Vec::new();
    emit_fields(&mut code, &stru);
    let text = render(&code);
    let b = text.find("fn b (&self)").unwrap();
    let a = text.find("fn a (&self)").unwrap();
    assert!(b < a);
    assert!(text.contains("const FIELD_OFFSET: usize = 8;"));
    assert!(text.contains("const FIELD_OFFSET: usize = 0;"));
}

// Spans

/// The same tokens, each with a mark of its own, counted from `first`.
fn marked(tokens: Vec<Token>, next: &mut usize) -> Vec<Token> {
    let mut out = Vec::new();
    for token in tokens {
        let span = Span { mark: *next };
        *next += 1;
        out.push(match token {
            Token::Group(group) => {
                let stream = marked(group.stream, next);
                Token::group(group.delimiter, stream).at(span)
            }
            other => other.at(span),
        });
    }
    out
}

fn marks_of(code: &[Code], out: &mut Vec<(String, usize)>) {
    for piece in code {
        match piece {
            Code::Token(Token::Ident(ident)) => out.push((ident.name.clone(), ident.span.mark)),
            Code::Group(_, inner) => marks_of(inner, out),
            _ => {}
        }
    }
}

#[test]
fn tokens_made_here_stand_at_the_call_site() {
    assert_eq!(Span::call_site(), Span { mark: 0 });
    let mut code = Vec::new();
    emit_ident(&mut code, "fn");
    emit_punct(&mut code, ':');
    let mut found = Vec::new();
    marks_of(&code, &mut found);
    assert_eq!(found, vec![("fn".to_string(), 0)]);
}

#[test]
fn tokens_of_the_schema_keep_their_spans() {
    let mut next = 1;
    // struct=1 Foo=2 {..}=3 #=4 [..]=5 field=6 (..)=7 offset=8 = 9 4=10 ,=11 get=12 ,=13
    // set=14 pub=15 value=16 :=17 Cell=18
    let input = marked(
        lex("struct Foo { #[field(offset = 4, get, set)] pub value: Cell }"),
        &mut next,
    );
    let code = explicit(lex("size = 16, align = 4"), input).unwrap();
    let mut found = Vec::new();
    marks_of(&code, &mut found);
    let of = |name: &str| -> Vec<usize> {
        found.iter().filter(|(n, _)| n == name).map(|(_, mark)| *mark).collect()
    };
    assert_eq!(of("struct"), vec![1]);
    assert_eq!(of("Foo"), vec![2, 2]);
    // The reader is named by the field's own name; the visibility and the
    // type stand in front of and inside each accessor.
    assert_eq!(of("value"), vec![16]);
    assert_eq!(of("set_value"), vec![0]);
    assert_eq!(of("pub"), vec![15, 15]);
    assert!(of("Cell").len() >= 2);
    assert!(of("Cell").iter().all(|mark| *mark == 18));
    assert!(of("fn").iter().all(|mark| *mark == 0));
    assert!(of("impl").iter().all(|mark| *mark == 0));
}

// Behaviors

#[test]
fn emit_trait_bounds_lists_every_field_type() {
    let stru = record(
        "size = 16, align = 4",
        "struct Foo { #[field(offset = 0)] a: u8, #[field(offset = 4, set)] b: Option<u16> , }",
    );
    let mut code = Vec::new();
    emit_trait_bounds(&mut code, &stru, "Clone");
    assert_eq!(render(&code), "where u8 : Clone, Option < u16 > : Clone,");

    let empty = record("size = 16, align = 4", "struct Foo {}");
    let mut code = Vec::new();
    emit_trait_bounds(&mut code, &empty, "Clone");
    assert_eq!(code, Vec::new());
}

#[test]
fn emit_trait_impl_f_wraps_the_body() {
    let stru = foo();
    let mut code = Vec::new();
    let mut body = Vec::new();
    emit_text(&mut body, "fn f() {}");
    emit_trait_impl_f(&mut code, &stru, "Tr", body);
    assert_eq!(render(&code), "impl Tr for Foo where i32 : Tr, { fn f() {} }");
}

#[test]
fn emit_derive_copy_renders_an_empty_impl() {
    let mut code = Vec::new();
    emit_derive_copy(&mut code, &foo());
    assert_eq!(render(&code), "impl Copy for Foo where i32 : Copy, { }");
}

#[test]
fn emit_derive_clone_copies_the_record() {
    let mut code = Vec::new();
    emit_derive_clone(&mut code, &foo());
    assert_eq!(
        render(&code),
        "impl Clone for Foo where i32 : Clone, { fn clone(&self) -> Self { *self } }"
    );
}

#[test]
fn emit_derive_debug_prefers_the_shared_borrow() {
    let mut code = Vec::new();
    emit_derive_debug(&mut code, &foo());
    assert_eq!(
        render(&code),
        "impl ::core::fmt::Debug for Foo where i32 : ::core::fmt::Debug, { fn fmt(&self, f: &mut ::core::fmt::Formatter) -> ::core::fmt::Result { f.debug_struct(\"Foo\") .field(\"field\", self.field_ref()) .finish() } }"
    );
}

#[test]
fn emit_derive_debug_leaves_out_fields_that_cannot_be_read() {
    let stru = record(
        "size = 16, align = 4",
        "struct Foo {
            #[field(offset = 0, set)] a: u8,
            #[field(offset = 1, get)] b: u8,
            #[field(offset = 2, ref, get)] c: u8,
            #[field(offset = 3, mut)] d: u8,
            #[field(offset = 4, set, mut)] e: u8,
        }",
    );
    let sources: Vec<Option<AccessorKind>> =
        stru.fields.iter().map(|f| f.layout.debug_source()).collect();
    assert_eq!(
        sources,
        vec![
            None,
            Some(AccessorKind::Read),
            Some(AccessorKind::BorrowImmutable),
            None,
            None
        ]
    );
    let mut entries = Vec::new();
    for field in &stru.fields {
        emit_debug_entry(&mut entries, field);
    }
    assert_eq!(
        entries,
        vec![
            Code::Source(".field(\"b\", &self.b())".to_string()),
            Code::Source(".field(\"c\", self.c_ref())".to_string()),
        ]
    );
    let mut code = Vec::new();
    emit_derive_debug(&mut code, &stru);
    let text = render(&code);
    assert!(text.contains(
        "{ f.debug_struct(\"Foo\") .field(\"b\", &self.b()) .field(\"c\", self.c_ref()) .finish() }"
    ));
    assert!(!text.contains("\"a\""));
    assert!(!text.contains("\"d\""));
    assert!(!text.contains("\"e\""));
}

#[test]
fn emit_derive_default_writes_every_field() {
    let stru = record(
        "size = 16, align = 4",
        "struct Foo { #[field(offset = 0)] a: u8, #[field(offset = 1, get)] b: u16, }",
    );
    let mut code = Vec::new();
    emit_derive_default(&mut code, &stru);
    assert_eq!(
        render(&code),
        "impl Default for Foo where u8 : Default, u16 : Default, { fn default() -> Self { let mut instance: Self = unsafe { ::core::mem::zeroed() }; instance.set_a(Default::default()); instance.set_b(Default::default()); ; instance } }"
    );
}

#[test]
fn default_construction_needs_every_writer() {
    let all = record(
        "size = 16, align = 4",
        "struct Foo { #[field(offset = 0)] a: u8, #[field(offset = 1, get, set)] b: u8, }",
    );
    let some = record(
        "size = 16, align = 4",
        "struct Foo { #[field(offset = 0)] a: u8, #[field(offset = 1, get)] b: u8, }",
    );
    let none = record("size = 16, align = 4", "struct Foo {}");
    assert!(all.permits(DerivedBehavior::DefaultConstruct));
    assert!(!some.permits(DerivedBehavior::DefaultConstruct));
    assert!(none.permits(DerivedBehavior::DefaultConstruct));
    for behavior in
        [DerivedBehavior::BitwiseCopy, DerivedBehavior::Clone, DerivedBehavior::DebugFormat]
    {
        assert!(some.permits(behavior));
    }
}

#[test]
fn emit_derives_keeps_the_order_of_the_requests() {
    let stru = record(
        "size = 16, align = 4",
        "#[derive(Default, Copy)] #[derive(Copy, Default)] struct Foo {}",
    );
    let mut code = Vec::new();
    emit_derives(&mut code, &stru);
    assert_eq!(
        render(&code),
        "impl Default for Foo { fn default() -> Self { let mut instance: Self = unsafe { ::core::mem::zeroed() }; ; instance } } impl Copy for Foo { }"
    );
}

#[test]
fn accessors_carry_a_restricted_visibility() {
    let stru = record(
        "size = 16, align = 4",
        "pub(crate) struct Foo { #[field(offset = 4, get)] pub(crate) field: i32, }",
    );
    let text = render(&emit_record(&stru));
    assert!(text.starts_with("#[repr(C, align(4))] pub ( crate ) struct Foo ([u8; 16]);"));
    assert!(text.contains("impl Foo { pub ( crate ) fn field (&self) -> i32"));
}

// The record

#[test]
fn emit_record_renders_the_backing_array_and_the_accessors() {
    let code = emit_record(&foo());
    let check = "Copy + 'static";
    assert_eq!(
        render(&code),
        format!(
            "#[repr(C, align(4))] struct Foo ([u8; 16]); impl Foo {{ {} {} {} {} }}",
            getter(check),
            setter(check),
            borrower(check),
            mut_borrower(check)
        )
    );
    assert_eq!(code[0], Code::Source("#[repr(C, align(4))]".to_string()));
    assert_eq!(code[3], Code::Source("([u8; 16]);".to_string()));
}

#[test]
fn explicit_is_parsing_followed_by_rendering() {
    let code = explicit(
        lex("size = 16, align = 4"),
        lex("struct Foo { #[field(offset = 4)] field: i32, }"),
    )
    .unwrap();
    assert_eq!(code, emit_record(&foo()));
}

#[test]
fn explicit_renders_a_record_without_fields() {
    let code = explicit(lex("size = 0, align = 1"), lex("pub struct Unit {}")).unwrap();
    assert_eq!(render(&code), "#[repr(C, align(1))] pub struct Unit ([u8; 0]); impl Unit { }");
}

#[test]
fn explicit_renders_unaligned_fields_with_the_copying_accessors() {
    let code = explicit(
        lex("size = 16, align = 4"),
        lex("struct Foo { #[field(offset = 3, get, set)] field: i64, }"),
    )
    .unwrap();
    let text = render(&code);
    assert!(text.contains("fn field (&self) -> i64"));
    assert!(text.contains("fn set_field ( &mut self, value: i64 ) -> &mut Self"));
    assert!(text.contains("const FIELD_OFFSET: usize = 3; const RECORD_SIZE: usize = 16;"));
    assert!(text.contains(BOUNDS));
    assert!(!text.contains("align_of"));
    assert!(!text.contains("field_ref"));
    assert!(!text.contains("field_mut"));
}
