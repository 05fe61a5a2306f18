//! What must hold of an accessor, and of a requested behavior, for the
//! output to compile. The sizes and alignments of the field types are not
//! known here, so the conditions are handed on with the output and decided
//! where it is compiled; this module says what they are.

use crate::schema::{
    AccessorKind, DerivedBehavior, FieldLayout, RecordDescriptor, RecordView,
};
use vstd::prelude::*;

verus! {

/// What the compiler of the output must prove of an accessor.
#[derive(Clone, Copy, Debug, PartialEq, Eq, Structural)]
pub enum ProofObligation {
    /// The field lies inside the record.
    Bounds,
    /// The field lies inside the record, at a multiple of its type's alignment.
    BoundsAndAlignment,
}

impl ProofObligation {
    /// Whether the obligation is met by a field at `offset` whose type has
    /// the size `size_of` and the alignment `align_of`, in a record of
    /// `record_size` bytes.
    pub open spec fn holds(self, offset: int, size_of: int, align_of: int, record_size: int) -> bool {
        &&& offset + size_of <= record_size
        &&& self == ProofObligation::BoundsAndAlignment ==> align_of > 0 && offset % align_of == 0
    }

    /// Decides the obligation for given sizes, as the compiler of the output
    /// does once it knows the field's type.
    pub fn check(self, offset: usize, size_of: usize, align_of: usize, record_size: usize) -> (ok:
        bool)
        ensures
            ok == self.holds(offset as int, size_of as int, align_of as int, record_size as int),
    {
        let inside = size_of <= record_size && offset <= record_size - size_of;
        match self {
            ProofObligation::Bounds => inside,
            ProofObligation::BoundsAndAlignment => inside && align_of > 0 && offset % align_of
                == 0,
        }
    }
}

impl AccessorKind {
    /// The obligation that an accessor of this kind carries: the copying
    /// accessors work at any offset inside the record, the borrowing ones
    /// need the field aligned as well.
    pub open spec fn obligation_spec(self) -> ProofObligation {
        match self {
            AccessorKind::Read | AccessorKind::Write => ProofObligation::Bounds,
            AccessorKind::BorrowImmutable
            | AccessorKind::BorrowMutable => ProofObligation::BoundsAndAlignment,
        }
    }

    /// The obligation that an accessor of this kind carries.
    #[verifier::when_used_as_spec(obligation_spec)]
    pub fn obligation(self) -> (res: ProofObligation)
        ensures
            res == self.obligation_spec(),
    {
        match self {
            AccessorKind::Read | AccessorKind::Write => ProofObligation::Bounds,
            AccessorKind::BorrowImmutable
            | AccessorKind::BorrowMutable => ProofObligation::BoundsAndAlignment,
        }
    }
}

impl FieldLayout {
    /// Whether every accessor of the field compiles, for a field type of the
    /// size `size_of` and the alignment `align_of` in a record of
    /// `record_size` bytes.
    pub open spec fn accepted(self, size_of: int, align_of: int, record_size: int) -> bool {
        forall|kind: AccessorKind|
            self.has(kind) ==> (#[trigger] kind.obligation_spec()).holds(
                self.offset as int,
                size_of,
                align_of,
                record_size,
            )
    }

    /// Decides whether every accessor of the field compiles.
    pub fn compiles(&self, size_of: usize, align_of: usize, record_size: usize) -> (ok: bool)
        ensures
            ok == self.accepted(size_of as int, align_of as int, record_size as int),
    {
        let bounds = ProofObligation::Bounds.check(self.offset, size_of, align_of, record_size);
        let aligned = ProofObligation::BoundsAndAlignment.check(
            self.offset,
            size_of,
            align_of,
            record_size,
        );
        proof {
            assert(AccessorKind::Read.obligation_spec() == ProofObligation::Bounds);
            assert(AccessorKind::Write.obligation_spec() == ProofObligation::Bounds);
            assert(AccessorKind::BorrowImmutable.obligation_spec()
                == ProofObligation::BoundsAndAlignment);
            assert(AccessorKind::BorrowMutable.obligation_spec()
                == ProofObligation::BoundsAndAlignment);
        }
        (!(self.method_get || self.method_set) || bounds) && (!(self.method_ref || self.method_mut)
            || aligned)
    }

    /// The accessor through which formatting reads the field: the shared
    /// borrow where the field has one, else the copy, else none.
    pub open spec fn debug_source_spec(&self) -> Option<AccessorKind> {
        if self.method_ref {
            Some(AccessorKind::BorrowImmutable)
        } else if self.method_get {
            Some(AccessorKind::Read)
        } else {
            None
        }
    }

    /// The accessor through which formatting reads the field, if any.
    #[verifier::when_used_as_spec(debug_source_spec)]
    pub fn debug_source(&self) -> (res: Option<AccessorKind>)
        ensures
            res == self.debug_source_spec(),
    {
        if self.method_ref {
            Some(AccessorKind::BorrowImmutable)
        } else if self.method_get {
            Some(AccessorKind::Read)
        } else {
            None
        }
    }
}

impl RecordView {
    /// Whether the output for `behavior` can compile, as far as the accessors
    /// of the fields decide it: default construction writes every field, so
    /// every field needs its writer; the other behaviors need no accessor.
    pub open spec fn permits(self, behavior: DerivedBehavior) -> bool {
        behavior == DerivedBehavior::DefaultConstruct ==> forall|i: int|
            0 <= i < self.fields.len() ==> (#[trigger] self.fields[i]).layout.method_set
    }
}

impl RecordDescriptor {
    /// Whether the output for `behavior` can compile, as far as the accessors
    /// of the fields decide it.
    pub fn permits(&self, behavior: DerivedBehavior) -> (ok: bool)
        ensures
            ok == self@.permits(behavior),
    {
        match behavior {
            DerivedBehavior::DefaultConstruct => {
                let mut i: usize = 0;
                while i < self.fields.len()
                    invariant
                        behavior == DerivedBehavior::DefaultConstruct,
                        i <= self.fields@.len(),
                        forall|k: int| 0 <= k < i ==> (#[trigger] self@.fields[k]).layout.method_set,
                    decreases self.fields@.len() - i,
                {
                    if !self.fields[i].layout.method_set {
                        assert(!self@.fields[i as int].layout.method_set);
                        return false;
                    }
                    i += 1;
                }
                true
            },
            _ => true,
        }
    }
}

/// A field with no accessors but the copying ones compiles exactly where it
/// lies inside the record, whatever its offset is a multiple of.
pub proof fn lemma_copied_field_needs_bounds_only(
    layout: FieldLayout,
    size_of: int,
    align_of: int,
    record_size: int,
)
    requires
        layout.wf(),
        !layout.method_ref,
        !layout.method_mut,
    ensures
        layout.accepted(size_of, align_of, record_size) <==> layout.offset + size_of
            <= record_size,
{
    if layout.method_get {
        assert(AccessorKind::Read.obligation_spec() == ProofObligation::Bounds);
    } else {
        assert(AccessorKind::Write.obligation_spec() == ProofObligation::Bounds);
    }
}

/// A field with a borrowing accessor compiles exactly where it lies inside
/// the record and its offset is a multiple of its type's alignment.
pub proof fn lemma_borrowed_field_needs_alignment(
    layout: FieldLayout,
    size_of: int,
    align_of: int,
    record_size: int,
)
    requires
        layout.method_ref || layout.method_mut,
        align_of > 0,
    ensures
        layout.accepted(size_of, align_of, record_size) <==> (layout.offset + size_of
            <= record_size && (layout.offset as int) % align_of == 0),
{
    if layout.method_ref {
        assert(AccessorKind::BorrowImmutable.obligation_spec()
            == ProofObligation::BoundsAndAlignment);
    } else {
        assert(AccessorKind::BorrowMutable.obligation_spec()
            == ProofObligation::BoundsAndAlignment);
    }
}

/// The copying accessors compile exactly where the field lies inside the
/// record, whatever its alignment.
pub proof fn lemma_copy_needs_bounds_only(
    kind: AccessorKind,
    offset: int,
    size_of: int,
    align_of: int,
    record_size: int,
)
    requires
        kind == AccessorKind::Read || kind == AccessorKind::Write,
    ensures
        kind.obligation().holds(offset, size_of, align_of, record_size) <==> offset + size_of
            <= record_size,
{
}

/// The borrowing accessors compile exactly where the field lies inside the
/// record and its offset is a multiple of its type's alignment.
pub proof fn lemma_borrow_needs_alignment(
    kind: AccessorKind,
    offset: int,
    size_of: int,
    align_of: int,
    record_size: int,
)
    requires
        kind == AccessorKind::BorrowImmutable || kind == AccessorKind::BorrowMutable,
        align_of > 0,
    ensures
        kind.obligation().holds(offset, size_of, align_of, record_size) <==> (offset + size_of
            <= record_size && offset % align_of == 0),
{
}

} // verus!
