//! What the accessors do to an instance of the record: the meaning of the
//! output, stated over the bytes of the backing array. The library renders
//! the accessors and never runs them; here the same four operations and
//! default construction work on a byte vector, so that what holds of reading
//! after writing can be stated and proved. A value of a field is the bytes
//! that represent it.

use crate::schema::{DerivedBehavior, FieldView, RecordDescriptor};
use crate::validate::ProofObligation;
use vstd::prelude::*;
use vstd::slice::*;

verus! {

/// The bytes of the field at `offset` of `size_of` bytes.
pub open spec fn read_spec(bytes: Seq<u8>, offset: int, size_of: int) -> Seq<u8> {
    bytes.subrange(offset, offset + size_of)
}

/// The bytes of the record once the `size_of` bytes at `offset` have been
/// replaced by `value`.
pub open spec fn replace_spec(bytes: Seq<u8>, offset: int, size_of: int, value: Seq<u8>) -> Seq<
    u8,
> {
    bytes.subrange(0, offset) + value + bytes.subrange(offset + size_of, bytes.len() as int)
}

/// The bytes of the record once `value` has been stored at `offset`.
pub open spec fn write_spec(bytes: Seq<u8>, offset: int, value: Seq<u8>) -> Seq<u8> {
    replace_spec(bytes, offset, value.len() as int, value)
}

/// A record of `size` bytes, all zero.
pub open spec fn zeros(size: nat) -> Seq<u8> {
    Seq::new(size, |i: int| 0u8)
}

/// An instance of a record: its backing array.
#[derive(Debug, PartialEq, Eq)]
pub struct Record {
    bytes: Vec<u8>,
}

impl View for Record {
    type V = Seq<u8>;

    closed spec fn view(&self) -> Seq<u8> {
        self.bytes@
    }
}

impl Record {
    /// An instance of `size` bytes, all zero.
    pub fn zeroed(size: usize) -> (record: Record)
        ensures
            record@ == zeros(size as nat),
    {
        let mut bytes: Vec<u8> = Vec::new();
        let mut i: usize = 0;
        while i < size
            invariant
                i <= size,
                bytes@ == zeros(i as nat),
            decreases size - i,
        {
            bytes.push(0);
            i += 1;
            assert(bytes@ =~= zeros(i as nat));
        }
        Record { bytes }
    }

    /// The size of the record in bytes.
    pub fn size(&self) -> (size: usize)
        ensures
            size == self@.len(),
    {
        self.bytes.len()
    }

    /// What the reader does: an unaligned copy of the field out of the record.
    pub fn get(&self, offset: usize, size_of: usize) -> (value: Vec<u8>)
        requires
            ProofObligation::Bounds.holds(offset as int, size_of as int, 1, self@.len() as int),
        ensures
            value@ == read_spec(self@, offset as int, size_of as int),
    {
        let mut value: Vec<u8> = Vec::new();
        let mut i: usize = 0;
        let len = self.bytes.len();
        while i < size_of
            invariant
                i <= size_of,
                len == self.bytes@.len(),
                offset + size_of <= len,
                value@ == self.bytes@.subrange(offset as int, offset + i),
            decreases size_of - i,
        {
            value.push(self.bytes[offset + i]);
            i += 1;
            assert(value@ =~= self.bytes@.subrange(offset as int, offset + i));
        }
        value
    }

    /// What the writer does: an unaligned copy of `value` into the field.
    /// It hands back the record so that calls can be chained.
    pub fn set(&mut self, offset: usize, value: &[u8]) -> (res: &mut Self)
        requires
            ProofObligation::Bounds.holds(
                offset as int,
                value@.len() as int,
                1,
                old(self)@.len() as int,
            ),
        ensures
            res@ == write_spec(old(self)@, offset as int, value@),
            final(self)@ == final(res)@,
    {
        let mut i: usize = 0;
        let len = self.bytes.len();
        proof {
            assert(self.bytes@ =~= write_spec(old(self).bytes@, offset as int, value@.take(0)));
        }
        while i < value.len()
            invariant
                i <= value@.len(),
                len == old(self).bytes@.len(),
                offset + value@.len() <= len,
                self.bytes@ == write_spec(old(self).bytes@, offset as int, value@.take(i as int)),
            decreases value@.len() - i,
        {
            self.bytes.set(offset + i, value[i]);
            i += 1;
            proof {
                assert(self.bytes@ =~= write_spec(
                    old(self).bytes@,
                    offset as int,
                    value@.take(i as int),
                ));
            }
        }
        proof {
            assert(value@.take(i as int) =~= value@);
        }
        self
    }

    /// What the shared borrow does: a reference to the field inside the record.
    pub fn get_ref(&self, offset: usize, size_of: usize, align_of: usize) -> (value: &[u8])
        requires
            ProofObligation::BoundsAndAlignment.holds(
                offset as int,
                size_of as int,
                align_of as int,
                self@.len() as int,
            ),
        ensures
            value@ == read_spec(self@, offset as int, size_of as int),
    {
        let len = self.bytes.len();
        assert(offset + size_of <= len);
        slice_subrange(self.bytes.as_slice(), offset, offset + size_of)
    }

    /// What the mutable borrow does: a reference to the field inside the
    /// record, through which the field can be assigned.
    pub fn get_mut(&mut self, offset: usize, size_of: usize, align_of: usize) -> (value: &mut [
        u8
    ])
        requires
            ProofObligation::BoundsAndAlignment.holds(
                offset as int,
                size_of as int,
                align_of as int,
                old(self)@.len() as int,
            ),
        ensures
            value@ == read_spec(old(self)@, offset as int, size_of as int),
            final(self)@ == replace_spec(
                old(self)@,
                offset as int,
                size_of as int,
                final(value)@,
            ),
    {
        let (_, tail) = self.bytes.as_mut_slice().split_at_mut(offset);
        let (field, _) = tail.split_at_mut(size_of);
        field
    }
}

/// The values behind a sequence of byte vectors.
pub open spec fn byte_views(values: Seq<Vec<u8>>) -> Seq<Seq<u8>> {
    Seq::new(values.len(), |i: int| values[i]@)
}

/// The bytes of the record once each of the given fields has been written
/// with its value, in declaration order. The value at the same place in
/// `values` belongs to a field.
pub open spec fn fields_written(bytes: Seq<u8>, fields: Seq<FieldView>, values: Seq<Seq<u8>>) -> Seq<
    u8,
>
    decreases fields.len(),
{
    if fields.len() == 0 || values.len() == 0 {
        bytes
    } else {
        write_spec(
            fields_written(bytes, fields.drop_last(), values.drop_last()),
            fields.last().layout.offset as int,
            values.last(),
        )
    }
}

/// Whether each of the given fields, with the value at the same place in
/// `values`, lies inside a record of `size` bytes.
pub open spec fn fields_fit(fields: Seq<FieldView>, values: Seq<Seq<u8>>, size: int) -> bool {
    &&& fields.len() == values.len()
    &&& forall|i: int|
        0 <= i < fields.len() ==> ProofObligation::Bounds.holds(
            (#[trigger] fields[i]).layout.offset as int,
            values[i].len() as int,
            1,
            size,
        )
}

/// Whether two values stored at the given offsets hold the same byte
/// wherever they overlap.
pub open spec fn agree(offset: int, value: Seq<u8>, other_offset: int, other: Seq<u8>) -> bool {
    forall|k: int|
        0 <= k < value.len() && 0 <= offset + k - other_offset < other.len() ==> #[trigger] value[k]
            == other[offset + k - other_offset]
}

/// Whether any two of the given fields hold the same bytes where they overlap.
pub open spec fn fields_agree(fields: Seq<FieldView>, values: Seq<Seq<u8>>) -> bool {
    forall|i: int, j: int|
        0 <= i < j < fields.len() ==> agree(
            (#[trigger] fields[i]).layout.offset as int,
            values[i],
            (#[trigger] fields[j]).layout.offset as int,
            values[j],
        )
}

/// What default construction does: starting from a record whose bytes are
/// all zero, it writes each field's default value through the field's
/// writer, in declaration order.
pub fn default_construct(stru: &RecordDescriptor, defaults: &[Vec<u8>]) -> (record: Record)
    requires
        stru@.permits(DerivedBehavior::DefaultConstruct),
        fields_fit(stru@.fields, byte_views(defaults@), stru@.layout.size as int),
    ensures
        record@ == fields_written(
            zeros(stru@.layout.size as nat),
            stru@.fields,
            byte_views(defaults@),
        ),
{
    let mut record = Record::zeroed(stru.layout.size);
    let mut i: usize = 0;
    let ghost fields = stru@.fields;
    let ghost values = byte_views(defaults@);
    while i < stru.fields.len()
        invariant
            i <= stru.fields@.len(),
            fields == stru@.fields,
            values == byte_views(defaults@),
            fields_fit(fields, values, stru@.layout.size as int),
            record@.len() == stru@.layout.size,
            record@ == fields_written(
                zeros(stru@.layout.size as nat),
                fields.take(i as int),
                values.take(i as int),
            ),
        decreases stru.fields@.len() - i,
    {
        let field = &stru.fields[i];
        proof {
            assert(fields[i as int] == field@);
            assert(values[i as int] == defaults@[i as int]@);
            assert(fields.take(i + 1).drop_last() =~= fields.take(i as int));
            assert(values.take(i + 1).drop_last() =~= values.take(i as int));
        }
        record.set(field.layout.offset, defaults[i].as_slice());
        i += 1;
    }
    proof {
        assert(fields.take(i as int) =~= fields);
        assert(values.take(i as int) =~= values);
    }
    record
}

/// Reading a field after writing it gives back what was written, and the
/// write changes no byte outside the field.
pub proof fn lemma_write_then_read(bytes: Seq<u8>, offset: int, value: Seq<u8>)
    requires
        ProofObligation::Bounds.holds(offset, value.len() as int, 1, bytes.len() as int),
        0 <= offset,
    ensures
        read_spec(write_spec(bytes, offset, value), offset, value.len() as int) == value,
        write_spec(bytes, offset, value).len() == bytes.len(),
        forall|p: int|
            0 <= p < bytes.len() && !(offset <= p < offset + value.len()) ==> write_spec(
                bytes,
                offset,
                value,
            )[p] == bytes[p],
{
    assert(read_spec(write_spec(bytes, offset, value), offset, value.len() as int) =~= value);
}

/// What is assigned through the mutable borrow of a field is what the
/// shared borrow of the field shows afterwards.
pub proof fn lemma_assign_then_borrow(
    bytes: Seq<u8>,
    offset: int,
    size_of: int,
    align_of: int,
    value: Seq<u8>,
)
    requires
        ProofObligation::BoundsAndAlignment.holds(offset, size_of, align_of, bytes.len() as int),
        0 <= offset,
        value.len() == size_of,
    ensures
        read_spec(replace_spec(bytes, offset, size_of, value), offset, size_of) == value,
        replace_spec(bytes, offset, size_of, value).len() == bytes.len(),
{
    assert(read_spec(replace_spec(bytes, offset, size_of, value), offset, size_of) =~= value);
}

/// Writing fields that fit the record keeps the record's size.
pub proof fn lemma_fields_written_len(bytes: Seq<u8>, fields: Seq<FieldView>, values: Seq<Seq<u8>>)
    requires
        fields_fit(fields, values, bytes.len() as int),
    ensures
        fields_written(bytes, fields, values).len() == bytes.len(),
    decreases fields.len(),
{
    if fields.len() > 0 {
        assert forall|i: int| 0 <= i < fields.drop_last().len() implies ProofObligation::Bounds.holds(
            (#[trigger] fields.drop_last()[i]).layout.offset as int,
            values.drop_last()[i].len() as int,
            1,
            bytes.len() as int,
        ) by {
            assert(fields.drop_last()[i] == fields[i]);
        }
        lemma_fields_written_len(bytes, fields.drop_last(), values.drop_last());
        lemma_write_then_read(
            fields_written(bytes, fields.drop_last(), values.drop_last()),
            fields.last().layout.offset as int,
            values.last(),
        );
    }
}

/// After default construction every field holds its default value, as
/// long as fields that overlap have defaults that hold the same bytes where
/// they overlap. (Where two overlapping fields differ there, the one
/// written later wins and the other no longer holds its default.)
pub proof fn lemma_defaults_read_back(
    bytes: Seq<u8>,
    fields: Seq<FieldView>,
    values: Seq<Seq<u8>>,
    i: int,
)
    requires
        fields_fit(fields, values, bytes.len() as int),
        fields_agree(fields, values),
        0 <= i < fields.len(),
    ensures
        read_spec(
            fields_written(bytes, fields, values),
            fields[i].layout.offset as int,
            values[i].len() as int,
        ) == values[i],
    decreases fields.len(),
{
    let init = fields.drop_last();
    let init_values = values.drop_last();
    let before = fields_written(bytes, init, init_values);
    let offset = fields.last().layout.offset as int;
    let value = values.last();
    assert forall|k: int| 0 <= k < init.len() implies ProofObligation::Bounds.holds(
        (#[trigger] init[k]).layout.offset as int,
        init_values[k].len() as int,
        1,
        bytes.len() as int,
    ) by {
        assert(init[k] == fields[k]);
    }
    lemma_fields_written_len(bytes, init, init_values);
    lemma_write_then_read(before, offset, value);
    if i < fields.len() - 1 {
        assert forall|a: int, b: int| 0 <= a < b < init.len() implies agree(
            (#[trigger] init[a]).layout.offset as int,
            init_values[a],
            (#[trigger] init[b]).layout.offset as int,
            init_values[b],
        ) by {
            assert(init[a] == fields[a]);
            assert(init[b] == fields[b]);
        }
        lemma_defaults_read_back(bytes, init, init_values, i);
        let mine = fields[i].layout.offset as int;
        let last = fields.len() - 1;
        assert(agree(mine, values[i], fields[last].layout.offset as int, values[last]));
        assert(init[i] == fields[i]);
        let after = fields_written(bytes, fields, values);
        assert forall|p: int| 0 <= p < values[i].len() implies read_spec(
            after,
            mine,
            values[i].len() as int,
        )[p] == #[trigger] values[i][p] by {
            let q = mine + p;
            assert(read_spec(before, mine, values[i].len() as int)[p] == before[q]);
            if offset <= q < offset + value.len() {
                assert(after[q] == value[q - offset]);
                assert(values[i][p] == value[mine + p - offset]);
            } else {
                assert(after[q] == before[q]);
            }
        }
        assert(read_spec(after, mine, values[i].len() as int) =~= values[i]);
    }
}

/// Conversely, where every field holds its default value after default
/// construction, any two fields that overlap have defaults that hold the
/// same bytes where they overlap.
pub proof fn lemma_defaults_need_agreement(
    bytes: Seq<u8>,
    fields: Seq<FieldView>,
    values: Seq<Seq<u8>>,
)
    requires
        fields_fit(fields, values, bytes.len() as int),
        forall|i: int|
            0 <= i < fields.len() ==> read_spec(
                fields_written(bytes, fields, values),
                (#[trigger] fields[i]).layout.offset as int,
                values[i].len() as int,
            ) == values[i],
    ensures
        fields_agree(fields, values),
{
    let after = fields_written(bytes, fields, values);
    lemma_fields_written_len(bytes, fields, values);
    assert forall|i: int, j: int| 0 <= i < j < fields.len() implies agree(
        (#[trigger] fields[i]).layout.offset as int,
        values[i],
        (#[trigger] fields[j]).layout.offset as int,
        values[j],
    ) by {
        let mine = fields[i].layout.offset as int;
        let other = fields[j].layout.offset as int;
        assert forall|k: int|
            0 <= k < values[i].len() && 0 <= mine + k - other < values[j].len() implies #[trigger] values[i][k]
            == values[j][mine + k - other] by {
            assert(read_spec(after, mine, values[i].len() as int)[k] == after[mine + k]);
            assert(read_spec(after, other, values[j].len() as int)[mine + k - other]
                == after[mine + k]);
        }
    }
}

} // verus!
