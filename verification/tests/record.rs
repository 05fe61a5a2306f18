use struct_layout::layout::parse_explicit_layout;
use struct_layout::record::{default_construct, Record};
use struct_layout::schema::{AccessorKind, DerivedBehavior, FieldDescriptor, FieldLayout, RecordDescriptor, RecordLayout};
use struct_layout::token::{Span, Token};
use struct_layout::validate::ProofObligation;

fn field(name: &str, offset: usize, ty: &str) -> FieldDescriptor {
    FieldDescriptor {
        attrs: Vec::new(),
        layout: FieldLayout {
            offset,
            method_get: true,
            method_set: true,
            method_ref: true,
            method_mut: true,
        },
        vis: Vec::new(),
        name: name.to_string(),
        name_span: Span::call_site(),
        ty: vec![Token::ident(ty)],
    }
}

fn record(size: usize, align: usize, fields: Vec<FieldDescriptor>) -> RecordDescriptor {
    RecordDescriptor {
        attrs: Vec::new(),
        derived: vec![DerivedBehavior::DefaultConstruct],
        layout: RecordLayout { size, align, check: None },
        vis: Vec::new(),
        struct_span: Span::call_site(),
        name: "Foo".to_string(),
        name_span: Span::call_site(),
        fields,
    }
}

#[test]
fn obligations_of_the_four_kinds() {
    assert_eq!(AccessorKind::Read.obligation(), ProofObligation::Bounds);
    assert_eq!(AccessorKind::Write.obligation(), ProofObligation::Bounds);
    assert_eq!(AccessorKind::BorrowImmutable.obligation(), ProofObligation::BoundsAndAlignment);
    assert_eq!(AccessorKind::BorrowMutable.obligation(), ProofObligation::BoundsAndAlignment);
}

#[test]
fn bounds_hold_up_to_the_end_of_the_record() {
    let bounds = ProofObligation::Bounds;
    assert!(bounds.check(0, 16, 8, 16));
    assert!(bounds.check(12, 4, 4, 16));
    assert!(!bounds.check(13, 4, 4, 16));
    assert!(bounds.check(16, 0, 1, 16));
    assert!(!bounds.check(17, 0, 1, 16));
    assert!(!bounds.check(0, 17, 1, 16));
    assert!(bounds.check(0, 0, 1, 0));
    // An offset so large that the sum leaves the range of `usize`.
    assert!(!bounds.check(usize::MAX, 2, 1, usize::MAX));
    assert!(bounds.check(usize::MAX - 2, 2, 1, usize::MAX));
}

#[test]
fn alignment_is_asked_of_the_borrows_only() {
    for offset in 0..=12 {
        assert!(ProofObligation::Bounds.check(offset, 4, 4, 16));
        assert_eq!(
            ProofObligation::BoundsAndAlignment.check(offset, 4, 4, 16),
            offset % 4 == 0
        );
        assert!(ProofObligation::BoundsAndAlignment.check(offset, 4, 1, 16));
    }
    assert!(!ProofObligation::BoundsAndAlignment.check(16, 4, 4, 16));
    assert!(!ProofObligation::BoundsAndAlignment.check(4, 4, 0, 16));
}

#[test]
fn a_field_compiles_where_all_its_accessors_do() {
    let copied = FieldLayout {
        offset: 3,
        method_get: true,
        method_set: true,
        method_ref: false,
        method_mut: false,
    };
    let borrowed = FieldLayout { method_ref: true, ..copied };
    let written = FieldLayout { method_get: false, ..copied };
    let none = FieldLayout { method_get: false, method_set: false, ..copied };
    assert!(copied.compiles(8, 8, 16));
    assert!(written.compiles(8, 8, 16));
    assert!(!borrowed.compiles(8, 8, 16));
    assert!(borrowed.compiles(1, 1, 16));
    assert!(!copied.compiles(8, 8, 10));
    assert!(copied.compiles(8, 8, 11));
    assert!(none.compiles(8, 8, 0));
}

#[test]
fn a_four_byte_field_at_offset_four_round_trips() {
    let layout = parse_explicit_layout(&[
        Token::ident("size"),
        Token::punct('=', struct_layout::token::Spacing::Alone),
        Token::literal("16"),
        Token::punct(',', struct_layout::token::Spacing::Alone),
        Token::ident("align"),
        Token::punct('=', struct_layout::token::Spacing::Alone),
        Token::literal("4"),
    ])
    .unwrap();
    for kind in [
        AccessorKind::Read,
        AccessorKind::Write,
        AccessorKind::BorrowImmutable,
        AccessorKind::BorrowMutable,
    ] {
        assert!(kind.obligation().check(4, 4, 4, layout.size));
    }
    let mut foo = Record::zeroed(layout.size);
    assert_eq!(foo.size(), 16);
    foo.set(4, &13i32.to_ne_bytes());
    assert_eq!(i32::from_ne_bytes(foo.get(4, 4).try_into().unwrap()), 13);

    foo.get_mut(4, 4, 4).copy_from_slice(&42i32.to_ne_bytes());
    assert_eq!(foo.get_ref(4, 4, 4), &42i32.to_ne_bytes());
    assert_eq!(i32::from_ne_bytes(foo.get(4, 4).try_into().unwrap()), 42);
}

#[test]
fn a_four_byte_field_at_offset_five_does_not_fit_eight_bytes() {
    // 5 + 4 = 9 > 8
    let layout = FieldLayout {
        offset: 5,
        method_get: true,
        method_set: true,
        method_ref: false,
        method_mut: false,
    };
    assert!(!layout.compiles(4, 4, 8));
    assert!(!AccessorKind::Read.obligation().check(5, 4, 4, 8));
    assert!(!AccessorKind::Write.obligation().check(5, 4, 4, 8));
    assert!(AccessorKind::Read.obligation().check(4, 4, 4, 8));
}

#[test]
fn an_eight_byte_field_at_offset_three_can_be_copied_but_not_borrowed() {
    assert!(AccessorKind::Read.obligation().check(3, 8, 8, 16));
    assert!(AccessorKind::Write.obligation().check(3, 8, 8, 16));
    assert!(!AccessorKind::BorrowImmutable.obligation().check(3, 8, 8, 16));
    assert!(!AccessorKind::BorrowMutable.obligation().check(3, 8, 8, 16));

    let mut foo = Record::zeroed(16);
    let value: i64 = -0x0123_4567_89ab_cdef;
    foo.set(3, &value.to_ne_bytes());
    assert_eq!(i64::from_ne_bytes(foo.get(3, 8).try_into().unwrap()), value);
}

#[test]
fn zeroed_is_all_zero() {
    let foo = Record::zeroed(5);
    assert_eq!(foo.size(), 5);
    assert_eq!(foo.get(0, 5), vec![0, 0, 0, 0, 0]);
    assert_eq!(Record::zeroed(0).size(), 0);
    assert_eq!(Record::zeroed(0).get(0, 0), Vec::<u8>::new());
}

#[test]
fn set_changes_only_the_field() {
    let mut foo = Record::zeroed(8);
    foo.set(0, &[1, 2, 3, 4, 5, 6, 7, 8]);
    foo.set(2, &[0xaa, 0xbb]);
    assert_eq!(foo.get(0, 8), vec![1, 2, 0xaa, 0xbb, 5, 6, 7, 8]);
    assert_eq!(foo.get(2, 2), vec![0xaa, 0xbb]);
    assert_eq!(foo.size(), 8);
    foo.set(8, &[]);
    assert_eq!(foo.get(0, 8), vec![1, 2, 0xaa, 0xbb, 5, 6, 7, 8]);
}

#[test]
fn set_hands_back_the_record_for_chaining() {
    let mut foo = Record::zeroed(4);
    foo.set(0, &[1]).set(1, &[2]).set(3, &[4]);
    assert_eq!(foo.get(0, 4), vec![1, 2, 0, 4]);
}

#[test]
fn get_mut_changes_only_the_field() {
    let mut foo = Record::zeroed(8);
    foo.set(0, &[1, 2, 3, 4, 5, 6, 7, 8]);
    {
        let field = foo.get_mut(4, 2, 2);
        assert_eq!(field, &[5, 6]);
        field[1] = 0xff;
    }
    assert_eq!(foo.get_ref(4, 2, 2), &[5, 0xff]);
    assert_eq!(foo.get_ref(0, 8, 1), &[1, 2, 3, 4, 5, 0xff, 7, 8]);
}

#[test]
fn default_construct_writes_every_default() {
    let stru = record(16, 4, vec![field("a", 0, "u8"), field("b", 4, "u32"), field("c", 2, "u16")]);
    assert!(stru.permits(DerivedBehavior::DefaultConstruct));
    let defaults = vec![vec![7], vec![1, 2, 3, 4], vec![8, 9]];
    let foo = default_construct(&stru, &defaults);
    assert_eq!(foo.size(), 16);
    assert_eq!(foo.get(0, 16), vec![7, 0, 8, 9, 1, 2, 3, 4, 0, 0, 0, 0, 0, 0, 0, 0]);
    for (f, default) in stru.fields.iter().zip(defaults.iter()) {
        assert_eq!(&foo.get(f.layout.offset, default.len()), default);
    }
    let empty = default_construct(&record(3, 1, Vec::new()), &[]);
    assert_eq!(empty, Record::zeroed(3));
}

#[test]
fn default_construct_lets_the_later_of_two_overlapping_fields_win() {
    let stru = record(4, 1, vec![field("a", 0, "u16"), field("b", 1, "u16")]);
    // The defaults agree where the fields overlap: both fields hold their default.
    let foo = default_construct(&stru, &[vec![1, 2], vec![2, 3]]);
    assert_eq!(foo.get(0, 2), vec![1, 2]);
    assert_eq!(foo.get(1, 2), vec![2, 3]);
    // They differ there: the field written first no longer holds its default.
    let foo = default_construct(&stru, &[vec![1, 2], vec![9, 3]]);
    assert_eq!(foo.get(0, 2), vec![1, 9]);
    assert_eq!(foo.get(1, 2), vec![9, 3]);
}
