//! The schema description: what the parsers produce and the emitters consume.

use crate::cursor::{attr_views, Attribute, AttributeView};
use crate::token::{views, Span, Token, TokenView};
use vstd::prelude::*;

verus! {

/// An operation that can be generated for a field.
#[derive(Clone, Copy, Debug, PartialEq, Eq, Structural)]
pub enum AccessorKind {
    /// Copies the field out of the record; requested with `get`.
    Read,
    /// Copies a value into the field; requested with `set`.
    Write,
    /// Hands out a shared reference to the field; requested with `ref`.
    BorrowImmutable,
    /// Hands out a mutable reference to the field; requested with `mut`.
    BorrowMutable,
}

/// A behavior of the whole record that can be requested with `derive(..)`.
#[derive(Clone, Copy, Debug, PartialEq, Eq, Structural)]
pub enum DerivedBehavior {
    /// `Copy`: the record may be copied bit by bit.
    BitwiseCopy,
    /// `Clone`: cloning is a bitwise copy of the record.
    Clone,
    /// `Debug`: formatting lists the fields that can be read.
    DebugFormat,
    /// `Default`: construction writes each field's default value.
    DefaultConstruct,
}

/// Where a field lies and which accessors it gets.
#[derive(Clone, Copy, Debug, PartialEq, Eq, Structural)]
pub struct FieldLayout {
    /// The field's distance in bytes from the start of the record.
    pub offset: usize,
    /// Whether the field gets a reader.
    pub method_get: bool,
    /// Whether the field gets a writer.
    pub method_set: bool,
    /// Whether the field gets a shared borrow.
    pub method_ref: bool,
    /// Whether the field gets a mutable borrow.
    pub method_mut: bool,
}

impl FieldLayout {
    /// Whether the field gets the accessor `kind`.
    pub open spec fn has(self, kind: AccessorKind) -> bool {
        match kind {
            AccessorKind::Read => self.method_get,
            AccessorKind::Write => self.method_set,
            AccessorKind::BorrowImmutable => self.method_ref,
            AccessorKind::BorrowMutable => self.method_mut,
        }
    }

    /// Whether the field gets at least one accessor. Every layout that is
    /// read from a schema does: where the schema asks for none, the field
    /// gets all four.
    pub open spec fn wf(self) -> bool {
        self.method_get || self.method_set || self.method_ref || self.method_mut
    }

    /// Whether the field gets the accessor `kind`.
    pub fn provides(&self, kind: AccessorKind) -> (res: bool)
        ensures
            res == self.has(kind),
    {
        match kind {
            AccessorKind::Read => self.method_get,
            AccessorKind::Write => self.method_set,
            AccessorKind::BorrowImmutable => self.method_ref,
            AccessorKind::BorrowMutable => self.method_mut,
        }
    }
}

/// The layout of the record as a whole.
#[derive(Debug, PartialEq, Eq)]
pub struct RecordLayout {
    /// The size of the record in bytes.
    pub size: usize,
    /// The alignment of the record in bytes.
    pub align: usize,
    /// The bound that every field's type must meet, as written inside
    /// `check(..)`; `None` stands for `Copy + 'static`.
    pub check: Option<Vec<Token>>,
}

/// The mathematical value of a [`RecordLayout`].
pub ghost struct RecordLayoutView {
    pub size: usize,
    pub align: usize,
    pub check: Option<Seq<TokenView>>,
}

impl View for RecordLayout {
    type V = RecordLayoutView;

    open spec fn view(&self) -> RecordLayoutView {
        RecordLayoutView {
            size: self.size,
            align: self.align,
            check: match self.check {
                Some(tokens) => Some(views(tokens@)),
                None => None,
            },
        }
    }
}

/// One field of the record.
#[derive(Debug, PartialEq, Eq)]
pub struct FieldDescriptor {
    /// The documentation attributes, carried through as written.
    pub attrs: Vec<Attribute>,
    pub layout: FieldLayout,
    /// The visibility, carried through as written.
    pub vis: Vec<Token>,
    pub name: String,
    /// Where the name stood.
    pub name_span: Span,
    /// The type, carried through as written.
    pub ty: Vec<Token>,
}

/// The mathematical value of a [`FieldDescriptor`].
pub ghost struct FieldView {
    pub attrs: Seq<AttributeView>,
    pub layout: FieldLayout,
    pub vis: Seq<TokenView>,
    pub name: Seq<char>,
    pub name_span: Span,
    pub ty: Seq<TokenView>,
}

impl View for FieldDescriptor {
    type V = FieldView;

    open spec fn view(&self) -> FieldView {
        FieldView {
            attrs: attr_views(self.attrs@),
            layout: self.layout,
            vis: views(self.vis@),
            name: self.name@,
            name_span: self.name_span,
            ty: views(self.ty@),
        }
    }
}

/// The values of a sequence of fields, element by element.
pub open spec fn field_views(fields: Seq<FieldDescriptor>) -> Seq<FieldView> {
    Seq::new(fields.len(), |i: int| fields[i]@)
}

/// The whole schema: the record and its fields in declaration order.
#[derive(Debug, PartialEq, Eq)]
pub struct RecordDescriptor {
    /// The documentation attributes, carried through as written.
    pub attrs: Vec<Attribute>,
    /// The requested behaviors, each once, in the order in which they were
    /// first requested.
    pub derived: Vec<DerivedBehavior>,
    pub layout: RecordLayout,
    /// The visibility, carried through as written.
    pub vis: Vec<Token>,
    /// Where the keyword `struct` stood.
    pub struct_span: Span,
    pub name: String,
    /// Where the name stood.
    pub name_span: Span,
    pub fields: Vec<FieldDescriptor>,
}

/// The mathematical value of a [`RecordDescriptor`].
pub ghost struct RecordView {
    pub attrs: Seq<AttributeView>,
    pub derived: Seq<DerivedBehavior>,
    pub layout: RecordLayoutView,
    pub vis: Seq<TokenView>,
    pub struct_span: Span,
    pub name: Seq<char>,
    pub name_span: Span,
    pub fields: Seq<FieldView>,
}

impl RecordView {
    /// What holds of every record that is read from a schema: no behavior
    /// is requested twice, and every field gets at least one accessor.
    pub open spec fn wf(self) -> bool {
        &&& self.derived.no_duplicates()
        &&& forall|i: int| 0 <= i < self.fields.len() ==> (#[trigger] self.fields[i]).layout.wf()
    }
}

impl View for RecordDescriptor {
    type V = RecordView;

    open spec fn view(&self) -> RecordView {
        RecordView {
            attrs: attr_views(self.attrs@),
            derived: self.derived@,
            layout: self.layout@,
            vis: views(self.vis@),
            struct_span: self.struct_span,
            name: self.name@,
            name_span: self.name_span,
            fields: field_views(self.fields@),
        }
    }
}

} // verus!
