//! Rendering the record: its declaration, one accessor for each requested
//! kind of each field, and one implementation for each requested behavior.
//! Fields and behaviors come out in the order in which they were declared.

use crate::code::{
    attrs_code, code_views, emit_attrs, emit_group_f, emit_ident, emit_ident_at, emit_impl_f,
    emit_punct, emit_text, emit_tokens, emit_ty, emit_vis, ident_code, ident_code_at, punct_code,
    tokens_code, Code, CodeView,
};
use crate::schema::{
    AccessorKind, DerivedBehavior, FieldDescriptor, FieldView, RecordDescriptor, RecordView,
};
use crate::text::{concat3, decimal_text, usize_to_text};
use crate::token::Delimiter;
use crate::validate::ProofObligation;
use vstd::prelude::*;
use vstd::string::*;

verus! {

/// The bound on a field's type where the schema names none.
pub const DEFAULT_CHECK: &'static str = "Copy + 'static";

/// What the copying accessors import.
pub const USE_MEM_PTR: &'static str = "; use ::core::{mem, ptr};";

/// What the borrowing accessors import.
pub const USE_MEM: &'static str = "; use ::core::mem;";

/// The constant expression that fails to compile unless the field lies
/// inside the record: where the condition is false, the length of the array
/// type is `0 - 1`, which no `usize` is.
pub const ASSERT_BOUNDS: &'static str =
    "let _: [(); (FIELD_OFFSET + mem::size_of::<FieldT>() <= RECORD_SIZE) as usize - 1];";

/// The constant expression that fails to compile unless the field lies
/// inside the record at a multiple of its type's alignment.
pub const ASSERT_BOUNDS_AND_ALIGNMENT: &'static str =
    "let _: [(); (FIELD_OFFSET + mem::size_of::<FieldT>() <= RECORD_SIZE && FIELD_OFFSET % mem::align_of::<FieldT>() == 0) as usize - 1];";

/// The unaligned copy out of the record.
pub const READ_BODY: &'static str =
    "unsafe { ptr::read_unaligned((self as *const _ as *const u8).offset(FIELD_OFFSET as isize) as *const FieldT) }";

/// The unaligned copy into the record.
pub const WRITE_BODY: &'static str =
    "unsafe { ptr::write_unaligned((self as *mut _ as *mut u8).offset(FIELD_OFFSET as isize) as *mut FieldT, value); }";

/// The cast to a shared reference into the record.
pub const BORROW_BODY: &'static str =
    "unsafe { &*((self as *const _ as *const u8).offset(FIELD_OFFSET as isize) as *const FieldT) }";

/// The cast to a mutable reference into the record.
pub const BORROW_MUT_BODY: &'static str =
    "unsafe { &mut *((self as *mut _ as *mut u8).offset(FIELD_OFFSET as isize) as *mut FieldT) }";

/// The source of the declaration of a field's offset.
pub open spec fn offset_source(offset: usize) -> Seq<char> {
    "const FIELD_OFFSET: usize = "@ + decimal_text(offset as nat) + ";"@
}

/// The source of the declaration of the record's size.
pub open spec fn size_source(size: usize) -> Seq<char> {
    "const RECORD_SIZE: usize = "@ + decimal_text(size as nat) + ";"@
}

/// The source of the import that an accessor of the given kind needs.
pub open spec fn import_source(kind: AccessorKind) -> Seq<char> {
    match kind {
        AccessorKind::Read | AccessorKind::Write => USE_MEM_PTR@,
        AccessorKind::BorrowImmutable | AccessorKind::BorrowMutable => USE_MEM@,
    }
}

/// The source of the constant expression that carries an obligation.
pub open spec fn obligation_source(obligation: ProofObligation) -> Seq<char> {
    match obligation {
        ProofObligation::Bounds => ASSERT_BOUNDS@,
        ProofObligation::BoundsAndAlignment => ASSERT_BOUNDS_AND_ALIGNMENT@,
    }
}

/// The source of the expression that performs an access of the given kind.
pub open spec fn access_source(kind: AccessorKind) -> Seq<char> {
    match kind {
        AccessorKind::Read => READ_BODY@,
        AccessorKind::Write => WRITE_BODY@,
        AccessorKind::BorrowImmutable => BORROW_BODY@,
        AccessorKind::BorrowMutable => BORROW_MUT_BODY@,
    }
}

/// The name of the accessor of the given kind for the field `name`.
pub open spec fn accessor_name(kind: AccessorKind, name: Seq<char>) -> Seq<char> {
    match kind {
        AccessorKind::Read => name,
        AccessorKind::Write => "set_"@ + name,
        AccessorKind::BorrowImmutable => name + "_ref"@,
        AccessorKind::BorrowMutable => name + "_mut"@,
    }
}

/// The constraint on an accessor: `where <type> : <bound>`, with the bound
/// of the record, or `Copy + 'static` where it names none.
pub open spec fn field_check_code(record: RecordView, field: FieldView) -> Seq<CodeView> {
    seq![ident_code("where"@)] + tokens_code(field.ty) + seq![punct_code(':')]
        + match record.layout.check {
        Some(bound) => tokens_code(bound),
        None => seq![CodeView::Source(DEFAULT_CHECK@)],
    }
}

/// What every accessor's body begins with: the field's offset, the
/// record's size, the field's type, and the constant expression that
/// carries the accessor's obligation.
pub open spec fn obligation_code(record: RecordView, field: FieldView, kind: AccessorKind) -> Seq<
    CodeView,
> {
    seq![
        CodeView::Source(offset_source(field.layout.offset)),
        CodeView::Source(size_source(record.layout.size)),
        CodeView::Source("type FieldT = "@),
    ] + tokens_code(field.ty) + seq![
        CodeView::Source(import_source(kind)),
        CodeView::Source(obligation_source(kind.obligation())),
    ]
}

/// The body of an accessor.
pub open spec fn accessor_body(record: RecordView, field: FieldView, kind: AccessorKind) -> Seq<
    CodeView,
> {
    obligation_code(record, field, kind) + seq![CodeView::Source(access_source(kind))]
        + match kind {
        AccessorKind::Write => seq![ident_code("self"@)],
        _ => Seq::empty(),
    }
}

/// The accessor that copies the field out of the record.
pub open spec fn field_get_code(record: RecordView, field: FieldView) -> Seq<CodeView> {
    attrs_code(field.attrs) + tokens_code(field.vis) + seq![
        ident_code("fn"@),
        ident_code_at(accessor_name(AccessorKind::Read, field.name), field.name_span),
        CodeView::Source("(&self) -> "@),
    ] + tokens_code(field.ty) + field_check_code(record, field) + seq![
        CodeView::Group(Delimiter::Brace, accessor_body(record, field, AccessorKind::Read)),
    ]
}

/// The accessor that copies a value into the field. It hands back the
/// record so that calls can be chained.
pub open spec fn field_set_code(record: RecordView, field: FieldView) -> Seq<CodeView> {
    attrs_code(field.attrs) + tokens_code(field.vis) + seq![
        ident_code("fn"@),
        ident_code(accessor_name(AccessorKind::Write, field.name)),
        CodeView::Group(
            Delimiter::Parenthesis,
            seq![CodeView::Source("&mut self, value: "@)] + tokens_code(field.ty),
        ),
        CodeView::Source(" -> &mut Self"@),
    ] + field_check_code(record, field) + seq![
        CodeView::Group(Delimiter::Brace, accessor_body(record, field, AccessorKind::Write)),
    ]
}

/// The accessor that hands out a shared reference to the field.
pub open spec fn field_ref_code(record: RecordView, field: FieldView) -> Seq<CodeView> {
    attrs_code(field.attrs) + tokens_code(field.vis) + seq![
        CodeView::Source(
            "fn "@ + accessor_name(AccessorKind::BorrowImmutable, field.name) + "(&self) -> &"@,
        ),
    ] + tokens_code(field.ty) + field_check_code(record, field) + seq![
        CodeView::Group(Delimiter::Brace, accessor_body(record, field, AccessorKind::BorrowImmutable)),
    ]
}

/// The accessor that hands out a mutable reference to the field.
pub open spec fn field_mut_code(record: RecordView, field: FieldView) -> Seq<CodeView> {
    attrs_code(field.attrs) + tokens_code(field.vis) + seq![
        CodeView::Source(
            "fn "@ + accessor_name(AccessorKind::BorrowMutable, field.name)
                + "(&mut self) -> &mut "@,
        ),
    ] + tokens_code(field.ty) + field_check_code(record, field) + seq![
        CodeView::Group(Delimiter::Brace, accessor_body(record, field, AccessorKind::BorrowMutable)),
    ]
}

/// The accessor of the given kind for a field.
pub open spec fn accessor_code(record: RecordView, field: FieldView, kind: AccessorKind) -> Seq<
    CodeView,
> {
    match kind {
        AccessorKind::Read => field_get_code(record, field),
        AccessorKind::Write => field_set_code(record, field),
        AccessorKind::BorrowImmutable => field_ref_code(record, field),
        AccessorKind::BorrowMutable => field_mut_code(record, field),
    }
}

/// The accessor of the given kind where the field has it, nothing where not.
pub open spec fn accessor_if(record: RecordView, field: FieldView, kind: AccessorKind) -> Seq<
    CodeView,
> {
    if field.layout.has(kind) {
        accessor_code(record, field, kind)
    } else {
        Seq::empty()
    }
}

/// The accessors of a field: those of the kinds it has, reader first, then
/// writer, shared borrow and mutable borrow.
pub open spec fn field_code(record: RecordView, field: FieldView) -> Seq<CodeView> {
    accessor_if(record, field, AccessorKind::Read) + accessor_if(
        record,
        field,
        AccessorKind::Write,
    ) + accessor_if(record, field, AccessorKind::BorrowImmutable) + accessor_if(
        record,
        field,
        AccessorKind::BorrowMutable,
    )
}

/// The accessors of the given fields, field by field.
pub open spec fn fields_code(record: RecordView, fields: Seq<FieldView>) -> Seq<CodeView>
    decreases fields.len(),
{
    if fields.len() == 0 {
        Seq::empty()
    } else {
        fields_code(record, fields.drop_last()) + field_code(record, fields.last())
    }
}

impl AccessorKind {
    /// The name of the accessor of this kind for the field `name`: the
    /// reader has the field's own name, the writer the prefix `set_`, the
    /// borrows the suffixes `_ref` and `_mut`.
    pub fn method_name(self, name: &str) -> (res: String)
        ensures
            res@ == accessor_name(self, name@),
    {
        match self {
            AccessorKind::Read => String::from_str(name),
            AccessorKind::Write => String::from_str("set_").concat(name),
            AccessorKind::BorrowImmutable => String::from_str(name).concat("_ref"),
            AccessorKind::BorrowMutable => String::from_str(name).concat("_mut"),
        }
    }
}

/// Appends the constraint on an accessor of `field`.
pub fn emit_field_check(code: &mut Vec<Code>, stru: &RecordDescriptor, field: &FieldDescriptor)
    ensures
        code_views(final(code)@) == code_views(old(code)@) + field_check_code(stru@, field@),
{
    emit_ident(code, "where");
    emit_ty(code, field.ty.as_slice());
    emit_punct(code, ':');
    match &stru.layout.check {
        Some(bound) => emit_tokens(code, bound.as_slice()),
        None => emit_text(code, DEFAULT_CHECK),
    }
}

/// Appends what every accessor's body begins with.
pub fn emit_field_obligation(
    body: &mut Vec<Code>,
    stru: &RecordDescriptor,
    field: &FieldDescriptor,
    kind: AccessorKind,
)
    ensures
        code_views(final(body)@) == code_views(old(body)@) + obligation_code(stru@, field@, kind),
{
    let offset = concat3(
        "const FIELD_OFFSET: usize = ",
        usize_to_text(field.layout.offset).as_str(),
        ";",
    );
    emit_text(body, offset.as_str());
    let size = concat3("const RECORD_SIZE: usize = ", usize_to_text(stru.layout.size).as_str(), ";");
    emit_text(body, size.as_str());
    emit_text(body, "type FieldT = ");
    emit_ty(body, field.ty.as_slice());
    match kind {
        AccessorKind::Read | AccessorKind::Write => emit_text(body, USE_MEM_PTR),
        AccessorKind::BorrowImmutable | AccessorKind::BorrowMutable => emit_text(body, USE_MEM),
    }
    match kind.obligation() {
        ProofObligation::Bounds => emit_text(body, ASSERT_BOUNDS),
        ProofObligation::BoundsAndAlignment => emit_text(body, ASSERT_BOUNDS_AND_ALIGNMENT),
    }
}

/// Appends the accessor that copies the field out of the record.
pub fn emit_field_get(code: &mut Vec<Code>, stru: &RecordDescriptor, field: &FieldDescriptor)
    ensures
        code_views(final(code)@) == code_views(old(code)@) + field_get_code(stru@, field@),
{
    emit_attrs(code, field.attrs.as_slice());
    emit_vis(code, field.vis.as_slice());
    emit_ident(code, "fn");
    emit_ident_at(
        code,
        AccessorKind::Read.method_name(field.name.as_str()).as_str(),
        field.name_span,
    );
    emit_text(code, "(&self) -> ");
    emit_ty(code, field.ty.as_slice());
    emit_field_check(code, stru, field);
    let mut body: Vec<Code> = Vec::new();
    emit_field_obligation(&mut body, stru, field, AccessorKind::Read);
    emit_text(&mut body, READ_BODY);
    proof {
        assert(code_views(body@) =~= accessor_body(stru@, field@, AccessorKind::Read));
    }
    emit_group_f(code, Delimiter::Brace, body);
}

/// Appends the accessor that copies a value into the field.
pub fn emit_field_set(code: &mut Vec<Code>, stru: &RecordDescriptor, field: &FieldDescriptor)
    ensures
        code_views(final(code)@) == code_views(old(code)@) + field_set_code(stru@, field@),
{
    emit_attrs(code, field.attrs.as_slice());
    emit_vis(code, field.vis.as_slice());
    emit_ident(code, "fn");
    emit_ident(code, AccessorKind::Write.method_name(field.name.as_str()).as_str());
    let mut params: Vec<Code> = Vec::new();
    emit_text(&mut params, "&mut self, value: ");
    emit_ty(&mut params, field.ty.as_slice());
    emit_group_f(code, Delimiter::Parenthesis, params);
    emit_text(code, " -> &mut Self");
    emit_field_check(code, stru, field);
    let mut body: Vec<Code> = Vec::new();
    emit_field_obligation(&mut body, stru, field, AccessorKind::Write);
    emit_text(&mut body, WRITE_BODY);
    emit_ident(&mut body, "self");
    proof {
        assert(code_views(params@) =~= seq![CodeView::Source("&mut self, value: "@)]
            + tokens_code(field@.ty));
        assert(code_views(body@) =~= accessor_body(stru@, field@, AccessorKind::Write));
    }
    emit_group_f(code, Delimiter::Brace, body);
}

/// Appends the accessor that hands out a shared reference to the field.
pub fn emit_field_ref(code: &mut Vec<Code>, stru: &RecordDescriptor, field: &FieldDescriptor)
    ensures
        code_views(final(code)@) == code_views(old(code)@) + field_ref_code(stru@, field@),
{
    emit_attrs(code, field.attrs.as_slice());
    emit_vis(code, field.vis.as_slice());
    let name = AccessorKind::BorrowImmutable.method_name(field.name.as_str());
    emit_text(code, concat3("fn ", name.as_str(), "(&self) -> &").as_str());
    emit_ty(code, field.ty.as_slice());
    emit_field_check(code, stru, field);
    let mut body: Vec<Code> = Vec::new();
    emit_field_obligation(&mut body, stru, field, AccessorKind::BorrowImmutable);
    emit_text(&mut body, BORROW_BODY);
    proof {
        assert(code_views(body@) =~= accessor_body(stru@, field@, AccessorKind::BorrowImmutable));
    }
    emit_group_f(code, Delimiter::Brace, body);
}

/// Appends the accessor that hands out a mutable reference to the field.
pub fn emit_field_mut(code: &mut Vec<Code>, stru: &RecordDescriptor, field: &FieldDescriptor)
    ensures
        code_views(final(code)@) == code_views(old(code)@) + field_mut_code(stru@, field@),
{
    emit_attrs(code, field.attrs.as_slice());
    emit_vis(code, field.vis.as_slice());
    let name = AccessorKind::BorrowMutable.method_name(field.name.as_str());
    emit_text(code, concat3("fn ", name.as_str(), "(&mut self) -> &mut ").as_str());
    emit_ty(code, field.ty.as_slice());
    emit_field_check(code, stru, field);
    let mut body: Vec<Code> = Vec::new();
    emit_field_obligation(&mut body, stru, field, AccessorKind::BorrowMutable);
    emit_text(&mut body, BORROW_MUT_BODY);
    proof {
        assert(code_views(body@) =~= accessor_body(stru@, field@, AccessorKind::BorrowMutable));
    }
    emit_group_f(code, Delimiter::Brace, body);
}

/// Appends the accessors of a field.
pub fn emit_field(code: &mut Vec<Code>, stru: &RecordDescriptor, field: &FieldDescriptor)
    ensures
        code_views(final(code)@) == code_views(old(code)@) + field_code(stru@, field@),
{
    if field.layout.method_get {
        emit_field_get(code, stru, field);
    }
    if field.layout.method_set {
        emit_field_set(code, stru, field);
    }
    if field.layout.method_ref {
        emit_field_ref(code, stru, field);
    }
    if field.layout.method_mut {
        emit_field_mut(code, stru, field);
    }
}

/// Appends the accessors of all fields of the record.
pub fn emit_fields(code: &mut Vec<Code>, stru: &RecordDescriptor)
    ensures
        code_views(final(code)@) == code_views(old(code)@) + fields_code(stru@, stru@.fields),
{
    let mut i: usize = 0;
    let ghost fields = stru@.fields;
    while i < stru.fields.len()
        invariant
            i <= stru.fields@.len(),
            fields == stru@.fields,
            code_views(code@) == code_views(old(code)@) + fields_code(
                stru@,
                fields.take(i as int),
            ),
        decreases stru.fields@.len() - i,
    {
        emit_field(code, stru, &stru.fields[i]);
        proof {
            assert(fields.take(i + 1).drop_last() =~= fields.take(i as int));
        }
        i += 1;
    }
    proof {
        assert(fields.take(i as int) =~= fields);
    }
}

/// The body of `clone`: a bitwise copy of the record.
pub const CLONE_BODY: &'static str = "fn clone(&self) -> Self { *self }";

/// The header of `fmt`.
pub const DEBUG_HEADER: &'static str =
    "fn fmt(&self, f: &mut ::core::fmt::Formatter) -> ::core::fmt::Result";

/// The end of the body of `fmt`.
pub const DEBUG_FINISH: &'static str = ".finish()";

/// The header of `default`.
pub const DEFAULT_HEADER: &'static str = "fn default() -> Self";

/// The start of the body of `default`: an instance whose bytes are all zero.
pub const DEFAULT_ZEROED: &'static str =
    "let mut instance: Self = unsafe { ::core::mem::zeroed() };";

/// The end of the body of `default`.
pub const DEFAULT_FINISH: &'static str = "; instance";

/// The bounds on the types of the given fields: for each `<type>: <tr>,`.
pub open spec fn bounds_code(fields: Seq<FieldView>, tr: Seq<char>) -> Seq<CodeView>
    decreases fields.len(),
{
    if fields.len() == 0 {
        Seq::empty()
    } else {
        bounds_code(fields.drop_last(), tr) + tokens_code(fields.last().ty) + seq![
            CodeView::Source(": "@ + tr + ","@),
        ]
    }
}

/// The `where` clause of an implementation of the trait `tr`: every
/// field's type must implement the trait. A record without fields has none.
pub open spec fn trait_bounds_code(record: RecordView, tr: Seq<char>) -> Seq<CodeView> {
    if record.fields.len() > 0 {
        seq![ident_code("where"@)] + bounds_code(record.fields, tr)
    } else {
        Seq::empty()
    }
}

/// `impl <tr> for <name> where .. { <body> }`.
pub open spec fn trait_impl_code(record: RecordView, tr: Seq<char>, body: Seq<CodeView>) -> Seq<
    CodeView,
> {
    seq![
        ident_code("impl"@),
        CodeView::Source(tr),
        ident_code("for"@),
        ident_code_at(record.name, record.name_span),
    ] + trait_bounds_code(record, tr) + seq![CodeView::Group(Delimiter::Brace, body)]
}

/// The implementation of `Copy`.
pub open spec fn derive_copy_code(record: RecordView) -> Seq<CodeView> {
    trait_impl_code(record, "Copy"@, Seq::empty())
}

/// The implementation of `Clone`.
pub open spec fn derive_clone_code(record: RecordView) -> Seq<CodeView> {
    trait_impl_code(record, "Clone"@, seq![CodeView::Source(CLONE_BODY@)])
}

/// The entry of a field in the formatted output: through the shared borrow
/// where the field has one, else through the copy; a field with neither has
/// no entry.
pub open spec fn debug_entry(field: FieldView) -> Seq<CodeView> {
    match field.layout.debug_source() {
        Some(AccessorKind::BorrowImmutable) => seq![
            CodeView::Source(
                ".field(\""@ + field.name + "\", self."@ + accessor_name(
                    AccessorKind::BorrowImmutable,
                    field.name,
                ) + "())"@,
            ),
        ],
        Some(_) => seq![
            CodeView::Source(
                ".field(\""@ + field.name + "\", &self."@ + accessor_name(
                    AccessorKind::Read,
                    field.name,
                ) + "())"@,
            ),
        ],
        None => Seq::empty(),
    }
}

/// The entries of the given fields in the formatted output.
pub open spec fn debug_entries(fields: Seq<FieldView>) -> Seq<CodeView>
    decreases fields.len(),
{
    if fields.len() == 0 {
        Seq::empty()
    } else {
        debug_entries(fields.drop_last()) + debug_entry(fields.last())
    }
}

/// The implementation of `Debug`.
pub open spec fn derive_debug_code(record: RecordView) -> Seq<CodeView> {
    trait_impl_code(
        record,
        "::core::fmt::Debug"@,
        seq![
            CodeView::Source(DEBUG_HEADER@),
            CodeView::Group(
                Delimiter::Brace,
                seq![CodeView::Source("f.debug_struct(\""@ + record.name + "\")"@)]
                    + debug_entries(record.fields) + seq![CodeView::Source(DEBUG_FINISH@)],
            ),
        ],
    )
}

/// The statement that writes a field's default value.
pub open spec fn default_entry(field: FieldView) -> CodeView {
    CodeView::Source(
        "instance."@ + accessor_name(AccessorKind::Write, field.name)
            + "(Default::default());"@,
    )
}

/// The statements that write the default values of the given fields.
pub open spec fn default_entries(fields: Seq<FieldView>) -> Seq<CodeView> {
    Seq::new(fields.len(), |i: int| default_entry(fields[i]))
}

/// The implementation of `Default`: every field is written, whether it has
/// a writer or not.
pub open spec fn derive_default_code(record: RecordView) -> Seq<CodeView> {
    trait_impl_code(
        record,
        "Default"@,
        seq![
            CodeView::Source(DEFAULT_HEADER@),
            CodeView::Group(
                Delimiter::Brace,
                seq![CodeView::Source(DEFAULT_ZEROED@)] + default_entries(record.fields) + seq![
                    CodeView::Source(DEFAULT_FINISH@),
                ],
            ),
        ],
    )
}

/// The implementation of one behavior.
pub open spec fn derive_code(record: RecordView, behavior: DerivedBehavior) -> Seq<CodeView> {
    match behavior {
        DerivedBehavior::BitwiseCopy => derive_copy_code(record),
        DerivedBehavior::Clone => derive_clone_code(record),
        DerivedBehavior::DebugFormat => derive_debug_code(record),
        DerivedBehavior::DefaultConstruct => derive_default_code(record),
    }
}

/// The implementations of the given behaviors, one after the other.
pub open spec fn derives_code(record: RecordView, derived: Seq<DerivedBehavior>) -> Seq<CodeView>
    decreases derived.len(),
{
    if derived.len() == 0 {
        Seq::empty()
    } else {
        derives_code(record, derived.drop_last()) + derive_code(record, derived.last())
    }
}

/// The whole output for a record. What is carried through from the schema
/// keeps its spans: the documentation, the visibility, the keyword, the
/// name of the record, the names of the fields where they name the readers,
/// and the types. It holds the documentation, the backing array of
/// `size` bytes forced to the alignment `align`, the accessors, and the
/// implementations of the requested behaviors.
pub open spec fn record_code(record: RecordView) -> Seq<CodeView> {
    attrs_code(record.attrs) + seq![
        CodeView::Source(
            "#[repr(C, align("@ + decimal_text(record.layout.align as nat) + "))]"@,
        ),
    ] + tokens_code(record.vis) + seq![
        ident_code_at("struct"@, record.struct_span),
        ident_code_at(record.name, record.name_span),
        CodeView::Source("([u8; "@ + decimal_text(record.layout.size as nat) + "]);"@),
        ident_code("impl"@),
        ident_code_at(record.name, record.name_span),
        CodeView::Group(Delimiter::Brace, fields_code(record, record.fields)),
    ] + derives_code(record, record.derived)
}

/// Appends the `where` clause of an implementation of the trait `tr`.
pub fn emit_trait_bounds(code: &mut Vec<Code>, stru: &RecordDescriptor, tr: &str)
    ensures
        code_views(final(code)@) == code_views(old(code)@) + trait_bounds_code(stru@, tr@),
{
    if stru.fields.len() > 0 {
        emit_ident(code, "where");
        let bound = concat3(": ", tr, ",");
        let mut i: usize = 0;
        let ghost fields = stru@.fields;
        let ghost start = code_views(code@);
        while i < stru.fields.len()
            invariant
                i <= stru.fields@.len(),
                fields == stru@.fields,
                bound@ == ": "@ + tr@ + ","@,
                code_views(code@) == start + bounds_code(fields.take(i as int), tr@),
            decreases stru.fields@.len() - i,
        {
            let field = &stru.fields[i];
            emit_ty(code, field.ty.as_slice());
            emit_text(code, bound.as_str());
            proof {
                assert(fields.take(i + 1).drop_last() =~= fields.take(i as int));
            }
            i += 1;
        }
        proof {
            assert(fields.take(i as int) =~= fields);
        }
    }
}

/// Appends `impl <tr> for <name> where .. { <body> }`.
pub fn emit_trait_impl_f(code: &mut Vec<Code>, stru: &RecordDescriptor, tr: &str, body: Vec<Code>)
    ensures
        code_views(final(code)@) == code_views(old(code)@) + trait_impl_code(
            stru@,
            tr@,
            code_views(body@),
        ),
{
    emit_ident(code, "impl");
    emit_text(code, tr);
    emit_ident(code, "for");
    emit_ident_at(code, stru.name.as_str(), stru.name_span);
    emit_trait_bounds(code, stru, tr);
    emit_group_f(code, Delimiter::Brace, body);
}

/// Appends the implementation of `Copy`.
pub fn emit_derive_copy(code: &mut Vec<Code>, stru: &RecordDescriptor)
    ensures
        code_views(final(code)@) == code_views(old(code)@) + derive_copy_code(stru@),
{
    let body: Vec<Code> = Vec::new();
    proof {
        assert(code_views(body@) =~= Seq::empty());
    }
    emit_trait_impl_f(code, stru, "Copy", body);
}

/// Appends the implementation of `Clone`.
pub fn emit_derive_clone(code: &mut Vec<Code>, stru: &RecordDescriptor)
    ensures
        code_views(final(code)@) == code_views(old(code)@) + derive_clone_code(stru@),
{
    let mut body: Vec<Code> = Vec::new();
    emit_text(&mut body, CLONE_BODY);
    proof {
        assert(code_views(body@) =~= seq![CodeView::Source(CLONE_BODY@)]);
    }
    emit_trait_impl_f(code, stru, "Clone", body);
}

/// Appends the entry of a field in the formatted output, if it has one.
pub fn emit_debug_entry(code: &mut Vec<Code>, field: &FieldDescriptor)
    ensures
        code_views(final(code)@) == code_views(old(code)@) + debug_entry(field@),
{
    let name = field.name.as_str();
    match field.layout.debug_source() {
        Some(AccessorKind::BorrowImmutable) => {
            let head = concat3(".field(\"", name, "\", self.");
            let method = AccessorKind::BorrowImmutable.method_name(name);
            emit_text(code, concat3(head.as_str(), method.as_str(), "())").as_str());
        },
        Some(_) => {
            let head = concat3(".field(\"", name, "\", &self.");
            let method = AccessorKind::Read.method_name(name);
            emit_text(code, concat3(head.as_str(), method.as_str(), "())").as_str());
        },
        None => {},
    }
}

/// Appends the implementation of `Debug`.
pub fn emit_derive_debug(code: &mut Vec<Code>, stru: &RecordDescriptor)
    ensures
        code_views(final(code)@) == code_views(old(code)@) + derive_debug_code(stru@),
{
    let mut body: Vec<Code> = Vec::new();
    emit_text(&mut body, DEBUG_HEADER);
    let mut inner: Vec<Code> = Vec::new();
    emit_text(&mut inner, concat3("f.debug_struct(\"", stru.name.as_str(), "\")").as_str());
    let mut i: usize = 0;
    let ghost fields = stru@.fields;
    let ghost start = code_views(inner@);
    while i < stru.fields.len()
        invariant
            i <= stru.fields@.len(),
            fields == stru@.fields,
            code_views(inner@) == start + debug_entries(fields.take(i as int)),
        decreases stru.fields@.len() - i,
    {
        let field = &stru.fields[i];
        emit_debug_entry(&mut inner, field);
        proof {
            assert(fields.take(i + 1).drop_last() =~= fields.take(i as int));
        }
        i += 1;
    }
    emit_text(&mut inner, DEBUG_FINISH);
    proof {
        assert(fields.take(i as int) =~= fields);
        assert(code_views(inner@) =~= seq![
            CodeView::Source("f.debug_struct(\""@ + stru@.name + "\")"@),
        ] + debug_entries(stru@.fields) + seq![CodeView::Source(DEBUG_FINISH@)]);
    }
    emit_group_f(&mut body, Delimiter::Brace, inner);
    proof {
        assert(code_views(body@) =~= seq![
            CodeView::Source(DEBUG_HEADER@),
            CodeView::Group(
                Delimiter::Brace,
                seq![CodeView::Source("f.debug_struct(\""@ + stru@.name + "\")"@)]
                    + debug_entries(stru@.fields) + seq![CodeView::Source(DEBUG_FINISH@)],
            ),
        ]);
    }
    emit_trait_impl_f(code, stru, "::core::fmt::Debug", body);
}

/// Appends the implementation of `Default`.
pub fn emit_derive_default(code: &mut Vec<Code>, stru: &RecordDescriptor)
    ensures
        code_views(final(code)@) == code_views(old(code)@) + derive_default_code(stru@),
{
    let mut body: Vec<Code> = Vec::new();
    emit_text(&mut body, DEFAULT_HEADER);
    let mut inner: Vec<Code> = Vec::new();
    emit_text(&mut inner, DEFAULT_ZEROED);
    let mut i: usize = 0;
    let ghost fields = stru@.fields;
    let ghost start = code_views(inner@);
    while i < stru.fields.len()
        invariant
            i <= stru.fields@.len(),
            fields == stru@.fields,
            code_views(inner@) == start + default_entries(fields.take(i as int)),
        decreases stru.fields@.len() - i,
    {
        let field = &stru.fields[i];
        let method = AccessorKind::Write.method_name(field.name.as_str());
        emit_text(
            &mut inner,
            concat3("instance.", method.as_str(), "(Default::default());").as_str(),
        );
        i += 1;
    }
    emit_text(&mut inner, DEFAULT_FINISH);
    proof {
        assert(code_views(inner@) =~= seq![CodeView::Source(DEFAULT_ZEROED@)] + default_entries(
            stru@.fields,
        ) + seq![CodeView::Source(DEFAULT_FINISH@)]);
    }
    emit_group_f(&mut body, Delimiter::Brace, inner);
    proof {
        assert(code_views(body@) =~= seq![
            CodeView::Source(DEFAULT_HEADER@),
            CodeView::Group(
                Delimiter::Brace,
                seq![CodeView::Source(DEFAULT_ZEROED@)] + default_entries(stru@.fields) + seq![
                    CodeView::Source(DEFAULT_FINISH@),
                ],
            ),
        ]);
    }
    emit_trait_impl_f(code, stru, "Default", body);
}

/// Appends the implementations of the requested behaviors.
pub fn emit_derives(code: &mut Vec<Code>, stru: &RecordDescriptor)
    ensures
        code_views(final(code)@) == code_views(old(code)@) + derives_code(stru@, stru@.derived),
{
    let mut i: usize = 0;
    let ghost derived = stru@.derived;
    while i < stru.derived.len()
        invariant
            i <= stru.derived@.len(),
            derived == stru.derived@,
            code_views(code@) == code_views(old(code)@) + derives_code(
                stru@,
                derived.take(i as int),
            ),
        decreases stru.derived@.len() - i,
    {
        match stru.derived[i] {
            DerivedBehavior::BitwiseCopy => emit_derive_copy(code, stru),
            DerivedBehavior::Clone => emit_derive_clone(code, stru),
            DerivedBehavior::DebugFormat => emit_derive_debug(code, stru),
            DerivedBehavior::DefaultConstruct => emit_derive_default(code, stru),
        }
        proof {
            assert(derived.take(i + 1).drop_last() =~= derived.take(i as int));
        }
        i += 1;
    }
    proof {
        assert(derived.take(i as int) =~= derived);
    }
}

/// Renders the record.
pub fn emit_record(stru: &RecordDescriptor) -> (code: Vec<Code>)
    ensures
        code_views(code@) == record_code(stru@),
{
    let mut code: Vec<Code> = Vec::new();
    emit_attrs(&mut code, stru.attrs.as_slice());
    emit_text(
        &mut code,
        concat3("#[repr(C, align(", usize_to_text(stru.layout.align).as_str(), "))]").as_str(),
    );
    emit_vis(&mut code, stru.vis.as_slice());
    emit_ident_at(&mut code, "struct", stru.struct_span);
    emit_ident_at(&mut code, stru.name.as_str(), stru.name_span);
    emit_text(
        &mut code,
        concat3("([u8; ", usize_to_text(stru.layout.size).as_str(), "]);").as_str(),
    );
    let mut body: Vec<Code> = Vec::new();
    emit_fields(&mut body, stru);
    emit_impl_f(&mut code, stru.name.as_str(), stru.name_span, body);
    emit_derives(&mut code, stru);
    code
}

/// The accessors come out in declaration order: those of the fields `first`,
/// then those of the fields `rest`.
pub proof fn lemma_fields_code_in_order(
    record: RecordView,
    first: Seq<FieldView>,
    rest: Seq<FieldView>,
)
    ensures
        fields_code(record, first + rest) == fields_code(record, first) + fields_code(
            record,
            rest,
        ),
    decreases rest.len(),
{
    if rest.len() > 0 {
        lemma_fields_code_in_order(record, first, rest.drop_last());
        assert((first + rest).drop_last() =~= first + rest.drop_last());
    }
}

/// The implementations come out in the order in which the behaviors were
/// requested: those of `first`, then those of `rest`.
pub proof fn lemma_derives_code_in_order(
    record: RecordView,
    first: Seq<DerivedBehavior>,
    rest: Seq<DerivedBehavior>,
)
    ensures
        derives_code(record, first + rest) == derives_code(record, first) + derives_code(
            record,
            rest,
        ),
    decreases rest.len(),
{
    if rest.len() > 0 {
        lemma_derives_code_in_order(record, first, rest.drop_last());
        assert((first + rest).drop_last() =~= first + rest.drop_last());
    }
}

/// Whether formatting can read a field: through its shared borrow or its reader.
pub open spec fn formatted() -> spec_fn(FieldView) -> bool {
    |field: FieldView| field.layout.method_ref || field.layout.method_get
}

/// The formatted output lists exactly the fields that have a shared borrow
/// or a reader, one entry each and in declaration order: the fields with
/// neither could as well not be there.
pub proof fn lemma_debug_lists_readable_fields(fields: Seq<FieldView>)
    ensures
        debug_entries(fields) == debug_entries(fields.filter(formatted())),
        debug_entries(fields).len() == fields.filter(formatted()).len(),
        forall|i: int|
            0 <= i < fields.len() ==> (debug_entry(#[trigger] fields[i]).len() == 1
                <==> formatted()(fields[i])),
    decreases fields.len(),
{
    reveal(Seq::filter);
    if fields.len() > 0 {
        let init = fields.drop_last();
        let last = fields.last();
        lemma_debug_lists_readable_fields(init);
        if formatted()(last) {
            assert(init.filter(formatted()).push(last).drop_last() =~= init.filter(formatted()));
        }
    }
}

/// Default construction writes every field once, in declaration order,
/// through the field's writer.
pub proof fn lemma_default_writes_every_field(fields: Seq<FieldView>, i: int)
    requires
        0 <= i < fields.len(),
    ensures
        default_entries(fields).len() == fields.len(),
        default_entries(fields)[i] == CodeView::Source(
            "instance."@ + accessor_name(AccessorKind::Write, fields[i].name)
                + "(Default::default());"@,
        ),
{
}

/// Whether a character is one of those of the prefix `set_`.
pub open spec fn in_prefix(c: char) -> bool {
    c == 's' || c == 'e' || c == 't' || c == '_'
}

/// A name that is spelled the same with `set_` in front as with four other
/// characters behind consists of the characters of `set_` only.
proof fn lemma_prefixed_name(name: Seq<char>, suffix: Seq<char>, i: int)
    requires
        suffix.len() == 4,
        "set_"@ + name == name + suffix,
        0 <= i < name.len() + 4,
    ensures
        in_prefix(("set_"@ + name)[i]),
    decreases i,
{
    reveal_strlit("set_");
    if i >= 4 {
        lemma_prefixed_name(name, suffix, i - 4);
    }
}

/// The four accessors of one field have four different names, so they can
/// stand side by side.
pub proof fn lemma_accessor_names_differ(name: Seq<char>, a: AccessorKind, b: AccessorKind)
    requires
        a != b,
    ensures
        accessor_name(a, name) != accessor_name(b, name),
{
    reveal_strlit("set_");
    reveal_strlit("_ref");
    reveal_strlit("_mut");
    let n = name.len() as int;
    let write = accessor_name(AccessorKind::Write, name);
    let borrow = accessor_name(AccessorKind::BorrowImmutable, name);
    let borrow_mut = accessor_name(AccessorKind::BorrowMutable, name);
    assert(borrow[n + 1] == 'r' && borrow_mut[n + 1] == 'm');
    if write == borrow {
        lemma_prefixed_name(name, "_ref"@, n + 1);
    }
    if write == borrow_mut {
        lemma_prefixed_name(name, "_mut"@, n + 1);
    }
}

} // verus!
