//! The typed vector views: flat, list, array, struct and dictionary.
//!
//! Every view wraps an engine handle together with a declared row capacity
//! and an ownership flag. Ownership decides release: a view that allocated
//! its handle destroys it exactly once; a view wrapped around an
//! engine-provided handle, a clone, or a child accessor never does.

use crate::engine::{
    Engine, ListEntry, LogicalTypeHandle, NativeVector, TypeNode, STANDARD_VECTOR_SIZE,
};
use crate::error::VectorError;
use crate::selection_vector::SelectionVector;
use crate::value::Value;
use vstd::prelude::*;
use vstd::string::StringSliceAdditionalSpecFns;

verus! {

/// A typed, nullable, contiguous columnar buffer; the base representation all
/// other vector kinds build on.
pub struct FlatVector {
    /// The engine handle of the wrapped native vector.
    pub handle: usize,
    /// The declared row capacity of this view.
    pub capacity: usize,
    /// Whether this instance allocated the handle and must release it. A
    /// handle supplied by the engine is borrowed and must never be released
    /// here.
    pub owned: bool,
}

impl Clone for FlatVector {
    /// A clone is always a non-owning view of the same handle, so two
    /// instances can never both release it.
    fn clone(&self) -> (r: Self)
        ensures
            r.handle == self.handle,
            r.capacity == self.capacity,
            !r.owned,
    {
        FlatVector { handle: self.handle, capacity: self.capacity, owned: false }
    }
}

impl FlatVector {
    /// This view is consistent with the engine: its handle is live and the
    /// buffer behind it holds at least the declared capacity.
    pub open spec fn wf(&self, e: &Engine) -> bool {
        &&& e.vec_live(self.handle)
        &&& self.capacity <= e.rows_of(self.handle)
    }

    /// What releasing this view guarantees: an owning view's destruction
    /// kills its slot; a borrowed view's destruction touches nothing.
    pub open spec fn release_effect(e1: Engine, e2: Engine, v: FlatVector) -> bool {
        if v.owned {
            Engine::vector_destroyed(e1, e2, v.handle)
        } else {
            e2 == e1
        }
    }

    /// Wraps an existing handle as a non-owning view with an explicit
    /// capacity.
    pub fn with_capacity(handle: usize, capacity: usize) -> (r: Self)
        ensures
            r.handle == handle,
            r.capacity == capacity,
            !r.owned,
    {
        FlatVector { handle, capacity, owned: false }
    }

    /// Wraps a handle the engine supplied for the current batch: a borrowed
    /// view over the engine's standard batch capacity.
    pub fn from_handle(engine: &Engine, handle: usize) -> (r: Self)
        requires
            engine.vec_live(handle),
            STANDARD_VECTOR_SIZE <= engine.rows_of(handle),
        ensures
            r.handle == handle,
            r.capacity == STANDARD_VECTOR_SIZE,
            !r.owned,
            r.wf(engine),
    {
        let capacity = engine.vector_size();
        FlatVector { handle, capacity, owned: false }
    }

    /// Allocates a new owned buffer of the given element type and row
    /// capacity. The handle is fresh, so this instance is its only owner.
    pub fn allocate_new_vector_with_capacity(
        engine: &mut Engine,
        logical_type: LogicalTypeHandle,
        capacity: usize,
    ) -> (r: Self)
        requires
            old(engine).wf(),
            old(engine).ty_ok(logical_type),
        ensures
            final (engine).wf(),
            Engine::same_shape(*old(engine), *final (engine)),
            Engine::vector_added(
                *old(engine),
                *final (engine),
                r.handle,
                logical_type,
                capacity as nat,
            ),
            r.capacity == capacity,
            r.owned,
            r.wf(final (engine)),
    {
        let handle = engine.create_vector(logical_type, capacity);
        FlatVector { handle, capacity, owned: true }
    }

    /// The declared row capacity, constant for the view's lifetime except
    /// where `assign_to_constant` collapses it to 1 or `reference` adopts
    /// another view's capacity.
    pub fn capacity(&self) -> (r: usize)
        ensures
            r == self.capacity,
    {
        self.capacity
    }

    /// Whether the row at the given index is null. A vector without a
    /// materialized validity bitmap has every row valid by definition, so the
    /// absent bitmap is an answer, not an error.
    pub fn row_is_null(&self, engine: &Engine, row: u64) -> (r: bool)
        requires
            engine.wf(),
            self.wf(engine),
            row < self.capacity,
        ensures
            r == engine.row_null(self.handle, row as nat),
    {
        !engine.row_is_valid(self.handle, row as usize)
    }

    /// Borrows the buffer as a slice of the declared capacity.
    pub fn as_slice<'a>(&self, engine: &'a Engine) -> (r: &'a [u64])
        requires
            engine.wf(),
            self.wf(engine),
            engine.vec_at(self.handle).payload is Words,
        ensures
            r@ == engine.words_of(self.handle).take(self.capacity as int),
    {
        engine.words_prefix(self.handle, self.capacity)
    }

    /// Borrows the buffer up to an explicit shorter length.
    pub fn as_slice_with_len<'a>(&self, engine: &'a Engine, len: usize) -> (r: &'a [u64])
        requires
            engine.wf(),
            self.wf(engine),
            engine.vec_at(self.handle).payload is Words,
            len <= self.capacity,
        ensures
            r@ == engine.words_of(self.handle).take(len as int),
    {
        engine.words_prefix(self.handle, len)
    }

    /// The logical type of the wrapped vector.
    pub fn logical_type(&self, engine: &Engine) -> (t: LogicalTypeHandle)
        requires
            engine.vec_in_bounds(self.handle),
        ensures
            t == engine.ty_of(self.handle),
    {
        engine.get_column_type(self.handle)
    }

    /// The packed validity bitmap, if the engine has materialized one. An
    /// absent bitmap is a legitimate state meaning "all rows valid"; this
    /// never invents one.
    pub fn validity_slice<'a>(&self, engine: &'a Engine) -> (r: Option<&'a [u64]>)
        requires
            engine.wf(),
            self.wf(engine),
        ensures
            match r {
                None => engine.vec_at(self.handle).validity is None,
                Some(s) => engine.vec_at(self.handle).validity matches Some(bits) && s@ == bits@,
            },
    {
        match &engine.vectors[self.handle].validity {
            None => None,
            Some(bits) => Some(bits.as_slice()),
        }
    }

    /// Materializes the validity bitmap if necessary and returns it, so
    /// subsequent null-marking is always possible.
    pub fn init_get_validity_slice<'a>(&self, engine: &'a mut Engine) -> (r: &'a [u64])
        requires
            old(engine).wf(),
            self.wf(old(engine)),
        ensures
            final (engine).wf(),
            Engine::same_shape(*old(engine), *final (engine)),
            Engine::validity_materialized(*old(engine), *final (engine), self.handle),
            final (engine).vec_at(self.handle).validity matches Some(bits) && r@ == bits@,
    {
        engine.ensure_validity_writable(self.handle);
        match &engine.vectors[self.handle].validity {
            Some(bits) => bits.as_slice(),
            None => vstd::pervasive::unreached(),
        }
    }

    /// Marks one row null: materializes a writable bitmap if none exists,
    /// then clears the row's bit. Marking the same row twice is idempotent
    /// and no other row's bit ever moves.
    pub fn set_null(&mut self, engine: &mut Engine, row: usize)
        requires
            old(engine).wf(),
            old(self).wf(old(engine)),
            row < old(self).capacity,
        ensures
            *final (self) == *old(self),
            final (engine).wf(),
            Engine::same_shape(*old(engine), *final (engine)),
            Engine::null_set(*old(engine), *final (engine), old(self).handle, row as nat),
            final (self).wf(final (engine)),
    {
        let h = self.handle;
        let ghost e1 = *engine;
        engine.ensure_validity_writable(h);
        let ghost e2 = *engine;
        engine.set_row_invalid(h, row);
        proof {
            assert(engine.vec_at(h) == (NativeVector {
                validity: engine.vec_at(h).validity,
                ..e1.vec_at(h)
            }));
            assert forall|r: nat|
                r < e1.rows_of(h) && r != row as nat implies engine.row_null(h, r) == e1.row_null(
                h,
                r,
            ) by {
                assert(engine.row_null(h, r) == e2.row_null(h, r));
            }
        }
    }

    /// Reinterprets this vector as a dictionary of `dict_len` physical
    /// values, indirected through the given selection vector, which this
    /// call consumes. The vector's own storage becomes the dictionary's
    /// backing storage and its logical type is untouched.
    pub fn slice(
        &mut self,
        engine: &mut Engine,
        dict_len: u64,
        selection_vector: SelectionVector,
    ) -> (r: DictionaryVector)
        requires
            old(engine).wf(),
            old(self).wf(old(engine)),
            selection_vector@.len() <= dict_len,
        ensures
            *final (self) == *old(self),
            final (engine).wf(),
            Engine::same_shape(*old(engine), *final (engine)),
            Engine::sliced(
                *old(engine),
                *final (engine),
                old(self).handle,
                dict_len,
                selection_vector@,
            ),
            r.handle == old(self).handle,
            final (engine).ty_of(r.handle) == old(engine).ty_of(old(self).handle),
            final (engine).vec_live(r.handle),
    {
        let h = self.handle;
        let indices = selection_vector.take_indices();
        engine.slice_vector(h, dict_len, indices);
        DictionaryVector { handle: h }
    }

    /// Attaches the opaque identifier the engine uses to detect aliased
    /// dictionaries across vectors.
    pub fn set_dictionary_id(&mut self, engine: &mut Engine, dict_id: String)
        requires
            old(engine).wf(),
            old(self).wf(old(engine)),
        ensures
            *final (self) == *old(self),
            final (engine).wf(),
            Engine::same_shape(*old(engine), *final (engine)),
            Engine::only_slot_changed(*old(engine), *final (engine), old(self).handle),
            final (engine).vec_at(old(self).handle).dictionary_id matches Some(s) && s@ == dict_id@,
            final (engine).vec_at(old(self).handle) == (NativeVector {
                dictionary_id: final (engine).vec_at(old(self).handle).dictionary_id,
                ..old(engine).vec_at(old(self).handle)
            }),
    {
        engine.set_dictionary_vector_id(self.handle, dict_id);
    }

    /// Copies `value`'s scalar content into row 0 and collapses this view's
    /// capacity to 1: the constant-vector encoding. The value itself is only
    /// read, never consumed.
    pub fn assign_to_constant(&mut self, engine: &mut Engine, value: &Value)
        requires
            old(engine).wf(),
            old(self).wf(old(engine)),
            old(engine).node(old(engine).ty_of(old(self).handle)) is Scalar,
            value.scalar() matches Some(s) && s.fits_word(),
        ensures
            final (engine).wf(),
            Engine::same_shape(*old(engine), *final (engine)),
            Engine::constant_assigned(
                *old(engine),
                *final (engine),
                old(self).handle,
                value.scalar()->Some_0.as_word(),
                value.scalar() == Some(crate::value::ScalarValue::Null),
            ),
            final (self).handle == old(self).handle,
            final (self).owned == old(self).owned,
            final (self).capacity == 1,
            final (self).wf(final (engine)),
    {
        let word = value.word();
        let is_null = value.is_null_value();
        engine.reference_value(self.handle, word, is_null);
        self.capacity = 1;
    }

    /// Makes this view an alias of `other`'s storage and adopts its
    /// capacity; afterwards the two views denote the same underlying buffer.
    pub fn reference(&mut self, engine: &mut Engine, other: &FlatVector)
        requires
            old(engine).wf(),
            old(self).wf(old(engine)),
            other.wf(old(engine)),
            old(engine).ty_of(old(self).handle) == old(engine).ty_of(other.handle),
        ensures
            final (engine).wf(),
            Engine::same_shape(*old(engine), *final (engine)),
            Engine::referenced(*old(engine), *final (engine), old(self).handle, other.handle),
            final (self).handle == old(self).handle,
            final (self).owned == old(self).owned,
            final (self).capacity == other.capacity,
            final (self).wf(final (engine)),
    {
        engine.reference_vector(self.handle, other.handle);
        self.capacity = other.capacity;
    }

    /// Bulk-writes a typed slice over the front of the buffer, all or
    /// nothing: a slice longer than the declared capacity is rejected with
    /// `OutOfBounds` before anything is written.
    pub fn copy(&mut self, engine: &mut Engine, data: &[u64]) -> (r: Result<(), VectorError>)
        requires
            old(engine).wf(),
            old(self).wf(old(engine)),
            old(engine).vec_at(old(self).handle).payload is Words,
        ensures
            *final (self) == *old(self),
            final (engine).wf(),
            Engine::same_shape(*old(engine), *final (engine)),
            match r {
                Ok(_) => {
                    &&& data@.len() <= old(self).capacity
                    &&& Engine::words_written(*old(engine), *final (engine), old(self).handle, data@)
                },
                Err(e) => {
                    &&& e == VectorError::OutOfBounds
                    &&& data@.len() > old(self).capacity
                    &&& *final (engine) == *old(engine)
                },
            },
    {
        if data.len() > self.capacity {
            return Err(VectorError::OutOfBounds);
        }
        engine.write_words(self.handle, data);
        Ok(())
    }

    /// The raw engine handle, handed out without any transfer of ownership.
    pub fn unowned_ptr(&self) -> (r: usize)
        ensures
            r == self.handle,
    {
        self.handle
    }

    /// Releases the view. An owning view destroys its handle exactly once; a
    /// borrowed view — a clone, a child accessor's result, or a wrapper
    /// around an engine-provided handle — leaves the engine untouched.
    pub fn destroy(self, engine: &mut Engine)
        requires
            old(engine).wf(),
            self.owned ==> old(engine).vec_live(self.handle),
        ensures
            final (engine).wf(),
            Engine::same_shape(*old(engine), *final (engine)),
            FlatVector::release_effect(*old(engine), *final (engine), self),
    {
        if self.owned {
            engine.destroy_vector(self.handle);
        }
    }
}

/// Insertion of variable-length content, one element at a time by index,
/// each element independently sized.
pub trait Inserter<T> {
    /// What the write needs of the engine.
    spec fn insert_req(&self, e: Engine, index: usize, value: T) -> bool;

    /// What the write does to the engine.
    spec fn insert_ens(&self, e1: Engine, e2: Engine, index: usize, value: T) -> bool;

    /// Insert a value into the vector at `index`.
    fn insert(&self, engine: &mut Engine, index: usize, value: T)
        requires
            self.insert_req(*old(engine), index, value),
        ensures
            self.insert_ens(*old(engine), *final (engine), index, value),
    ;
}

impl Inserter<&[u8]> for FlatVector {
    open spec fn insert_req(&self, e: Engine, index: usize, value: &[u8]) -> bool {
        &&& e.wf()
        &&& self.wf(&e)
        &&& e.vec_at(self.handle).payload is Blobs
        &&& index < self.capacity
    }

    open spec fn insert_ens(&self, e1: Engine, e2: Engine, index: usize, value: &[u8]) -> bool {
        &&& e2.wf()
        &&& Engine::same_shape(e1, e2)
        &&& Engine::blob_written(e1, e2, self.handle, index as nat, value@)
    }

    fn insert(&self, engine: &mut Engine, index: usize, value: &[u8]) {
        engine.assign_blob(self.handle, index, value);
    }
}

impl Inserter<&str> for FlatVector {
    open spec fn insert_req(&self, e: Engine, index: usize, value: &str) -> bool {
        &&& e.wf()
        &&& self.wf(&e)
        &&& e.vec_at(self.handle).payload is Blobs
        &&& index < self.capacity
    }

    open spec fn insert_ens(&self, e1: Engine, e2: Engine, index: usize, value: &str) -> bool {
        &&& e2.wf()
        &&& Engine::same_shape(e1, e2)
        &&& Engine::blob_written(e1, e2, self.handle, index as nat, value.spec_bytes())
    }

    fn insert(&self, engine: &mut Engine, index: usize, value: &str) {
        let bytes = value.as_bytes();
        engine.assign_blob(self.handle, index, bytes);
    }
}

/// A list vector: each logical row is an (offset, length) pair into one
/// shared child vector. The view never owns its handle.
pub struct ListVector {
    pub entries: FlatVector,
}

impl ListVector {
    pub open spec fn handle(&self) -> usize {
        self.entries.handle
    }

    /// Consistent with the engine: the handle is live and carries a list
    /// type.
    pub open spec fn wf(&self, e: &Engine) -> bool {
        &&& self.entries.wf(e)
        &&& e.node(e.ty_of(self.handle())) is List
    }

    /// The child, if already materialized, is live. Reservation needs this;
    /// it holds whenever nothing destroyed the engine's own child vector.
    pub open spec fn child_ok(&self, e: &Engine) -> bool {
        match e.vec_at(self.handle()).child {
            Some(c) => e.vec_live(c),
            None => true,
        }
    }

    /// Wraps an engine-provided list handle as a borrowed view.
    pub fn from_handle(engine: &Engine, handle: usize) -> (r: Self)
        requires
            engine.vec_live(handle),
            STANDARD_VECTOR_SIZE <= engine.rows_of(handle),
        ensures
            r.handle() == handle,
            !r.entries.owned,
            r.entries.capacity == STANDARD_VECTOR_SIZE,
    {
        ListVector { entries: FlatVector::from_handle(engine, handle) }
    }

    /// The total element count across all rows, as last declared by
    /// `set_len` (or by `set_child`).
    pub fn len(&self, engine: &Engine) -> (r: usize)
        requires
            engine.vec_in_bounds(self.handle()),
        ensures
            r == engine.vec_at(self.handle()).list_size,
    {
        engine.get_list_size(self.entries.handle)
    }

    /// Whether the list vector holds no elements at all.
    pub fn is_empty(&self, engine: &Engine) -> (r: bool)
        requires
            engine.vec_in_bounds(self.handle()),
        ensures
            r == (engine.vec_at(self.handle()).list_size == 0),
    {
        self.len(engine) == 0
    }

    /// Reserves at least `capacity` elements in the child storage —
    /// idempotent growth that never shrinks and never disturbs content
    /// already written — and returns a borrowed view over it.
    pub fn child(&self, engine: &mut Engine, capacity: usize) -> (r: FlatVector)
        requires
            old(engine).wf(),
            self.wf(old(engine)),
            self.child_ok(old(engine)),
        ensures
            final (engine).wf(),
            Engine::same_shape(*old(engine), *final (engine)),
            Engine::child_reserved(
                *old(engine),
                *final (engine),
                self.handle(),
                r.handle,
                capacity as nat,
            ),
            r.capacity == capacity,
            !r.owned,
            r.wf(final (engine)),
    {
        let c = engine.reserve_child(self.entries.handle, capacity);
        FlatVector::with_capacity(c, capacity)
    }

    /// Reserves like [`ListVector::child`] and takes the child as a struct
    /// vector.
    pub fn struct_child(&self, engine: &mut Engine, capacity: usize) -> (r: StructVector)
        requires
            old(engine).wf(),
            self.wf(old(engine)),
            self.child_ok(old(engine)),
            old(engine).node(
                Engine::elem_of(old(engine).node(old(engine).ty_of(self.handle()))),
            ) is Struct,
        ensures
            final (engine).wf(),
            Engine::same_shape(*old(engine), *final (engine)),
            Engine::child_reserved(
                *old(engine),
                *final (engine),
                self.handle(),
                r.handle,
                capacity as nat,
            ),
            r.wf(final (engine)),
    {
        let c = engine.reserve_child(self.entries.handle, capacity);
        StructVector { handle: c }
    }

    /// Takes the child as an array vector.
    pub fn array_child(&self, engine: &mut Engine) -> (r: ArrayVector)
        requires
            old(engine).wf(),
            self.wf(old(engine)),
            self.child_ok(old(engine)),
            old(engine).node(
                Engine::elem_of(old(engine).node(old(engine).ty_of(self.handle()))),
            ) is Array,
        ensures
            final (engine).wf(),
            Engine::same_shape(*old(engine), *final (engine)),
            Engine::child_reserved(*old(engine), *final (engine), self.handle(), r.handle, 0),
            r.wf(final (engine)),
    {
        let c = engine.reserve_child(self.entries.handle, 0);
        ArrayVector { handle: c }
    }

    /// Takes the child as a list vector.
    pub fn list_child(&self, engine: &mut Engine) -> (r: ListVector)
        requires
            old(engine).wf(),
            self.wf(old(engine)),
            self.child_ok(old(engine)),
            old(engine).node(
                Engine::elem_of(old(engine).node(old(engine).ty_of(self.handle()))),
            ) is List,
        ensures
            final (engine).wf(),
            Engine::same_shape(*old(engine), *final (engine)),
            Engine::child_reserved(*old(engine), *final (engine), self.handle(), r.handle(), 0),
            r.wf(final (engine)),
    {
        let c = engine.reserve_child(self.entries.handle, 0);
        let rows = engine.payload_rows(c);
        ListVector { entries: FlatVector::with_capacity(c, rows) }
    }

    /// Reserves exactly `data.len()` elements, bulk-copies `data` into the
    /// child, and declares the length, in one step.
    pub fn set_child(&self, engine: &mut Engine, data: &[u64])
        requires
            old(engine).wf(),
            self.wf(old(engine)),
            self.child_ok(old(engine)),
            old(engine).node(
                Engine::elem_of(old(engine).node(old(engine).ty_of(self.handle()))),
            ) is Scalar,
        ensures
            final (engine).wf(),
            Engine::same_shape(*old(engine), *final (engine)),
            Engine::list_child_set(*old(engine), *final (engine), self.handle(), data@),
    {
        let mut child = self.child(engine, data.len());
        let copied = child.copy(engine, data);
        proof {
            engine.lemma_slot_wf_of(child.handle);
        }
        self.set_len(engine, data.len());
        proof {
            assert(copied is Ok);
            assert(engine.words_of(child.handle).take(data@.len() as int) =~= data@);
        }
    }

    /// Writes one row's (offset, length) descriptor. Callers keep offsets
    /// and lengths within the reserved child capacity; the descriptor itself
    /// is not interpreted here.
    pub fn set_entry(&mut self, engine: &mut Engine, idx: usize, offset: usize, length: usize)
        requires
            old(engine).wf(),
            old(self).wf(old(engine)),
            idx < old(self).entries.capacity,
        ensures
            *final (self) == *old(self),
            final (engine).wf(),
            Engine::same_shape(*old(engine), *final (engine)),
            Engine::entry_written(
                *old(engine),
                *final (engine),
                old(self).handle(),
                idx as nat,
                ListEntry { offset, length },
            ),
    {
        proof {
            old(engine).lemma_slot_wf_of(self.entries.handle);
        }
        engine.write_entry(self.entries.handle, idx, ListEntry { offset, length });
    }

    /// Marks one list row null, against the list's own validity bitmap.
    pub fn set_null(&mut self, engine: &mut Engine, row: usize)
        requires
            old(engine).wf(),
            old(self).wf(old(engine)),
            row < old(self).entries.capacity,
        ensures
            *final (self) == *old(self),
            final (engine).wf(),
            Engine::same_shape(*old(engine), *final (engine)),
            Engine::null_set(*old(engine), *final (engine), old(self).handle(), row as nat),
    {
        self.entries.set_null(engine, row);
    }

    /// Declares the total materialized child length.
    pub fn set_len(&self, engine: &mut Engine, new_len: usize)
        requires
            old(engine).wf(),
            self.wf(old(engine)),
        ensures
            final (engine).wf(),
            Engine::same_shape(*old(engine), *final (engine)),
            Engine::only_slot_changed(*old(engine), *final (engine), self.handle()),
            final (engine).vec_at(self.handle()) == (NativeVector {
                list_size: new_len,
                ..old(engine).vec_at(self.handle())
            }),
    {
        engine.set_list_size(self.entries.handle, new_len);
    }
}

/// An array vector: a fixed-size list per row, the per-row element count
/// taken from the logical type rather than stored per row.
pub struct ArrayVector {
    pub handle: usize,
}

impl ArrayVector {
    pub open spec fn wf(&self, e: &Engine) -> bool {
        &&& e.vec_live(self.handle)
        &&& e.node(e.ty_of(self.handle)) is Array
    }

    /// The child, if already materialized, is live.
    pub open spec fn child_ok(&self, e: &Engine) -> bool {
        match e.vec_at(self.handle).child {
            Some(c) => e.vec_live(c),
            None => true,
        }
    }

    /// Wraps an engine-provided array handle as a borrowed view.
    pub fn from_handle(handle: usize) -> (r: Self)
        ensures
            r.handle == handle,
    {
        ArrayVector { handle }
    }

    /// The logical type of this array vector.
    pub fn logical_type(&self, engine: &Engine) -> (t: LogicalTypeHandle)
        requires
            engine.vec_in_bounds(self.handle),
        ensures
            t == engine.ty_of(self.handle),
    {
        engine.get_column_type(self.handle)
    }

    /// The fixed per-row element count the array type declares.
    pub fn get_array_size(&self, engine: &Engine) -> (r: u64)
        requires
            engine.wf(),
            self.wf(engine),
        ensures
            engine.node(engine.ty_of(self.handle)) matches TypeNode::Array { elem, size } && r
                == size,
    {
        proof {
            engine.lemma_slot_wf_of(self.handle);
        }
        let ty = engine.get_column_type(self.handle);
        engine.array_type_size(ty) as u64
    }

    /// Materializes the child storage with at least `capacity` elements and
    /// returns a borrowed view over it. `capacity` should be a multiple of
    /// the array size, one span per row.
    pub fn child(&self, engine: &mut Engine, capacity: usize) -> (r: FlatVector)
        requires
            old(engine).wf(),
            self.wf(old(engine)),
            self.child_ok(old(engine)),
        ensures
            final (engine).wf(),
            Engine::same_shape(*old(engine), *final (engine)),
            Engine::child_reserved(
                *old(engine),
                *final (engine),
                self.handle,
                r.handle,
                capacity as nat,
            ),
            r.capacity == capacity,
            !r.owned,
            r.wf(final (engine)),
    {
        proof {
            old(engine).lemma_slot_wf_of(self.handle);
        }
        let c = engine.reserve_child(self.handle, capacity);
        FlatVector::with_capacity(c, capacity)
    }

    /// Bulk-copies `data` into the child storage.
    pub fn set_child(&self, engine: &mut Engine, data: &[u64])
        requires
            old(engine).wf(),
            self.wf(old(engine)),
            self.child_ok(old(engine)),
            old(engine).node(
                Engine::elem_of(old(engine).node(old(engine).ty_of(self.handle))),
            ) is Scalar,
        ensures
            final (engine).wf(),
            Engine::same_shape(*old(engine), *final (engine)),
            final (engine).vec_at(self.handle).child matches Some(c) && final (engine).vec_live(c)
                && final (engine).words_of(c).take(data@.len() as int) == data@,
    {
        let mut child = self.child(engine, data.len());
        let copied = child.copy(engine, data);
        proof {
            assert(copied is Ok);
            assert(engine.words_of(child.handle).take(data@.len() as int) =~= data@);
        }
    }

    /// Marks one array row null.
    pub fn set_null(&mut self, engine: &mut Engine, row: usize)
        requires
            old(engine).wf(),
            old(self).wf(old(engine)),
            row < old(engine).rows_of(old(self).handle),
        ensures
            *final (self) == *old(self),
            final (engine).wf(),
            Engine::same_shape(*old(engine), *final (engine)),
            Engine::null_set(*old(engine), *final (engine), old(self).handle, row as nat),
    {
        let h = self.handle;
        let ghost e1 = *engine;
        engine.ensure_validity_writable(h);
        let ghost e2 = *engine;
        engine.set_row_invalid(h, row);
        proof {
            assert(engine.vec_at(h) == (NativeVector {
                validity: engine.vec_at(h).validity,
                ..e1.vec_at(h)
            }));
            assert forall|r: nat|
                r < e1.rows_of(h) && r != row as nat implies engine.row_null(h, r) == e1.row_null(
                h,
                r,
            ) by {
                assert(engine.row_null(h, r) == e2.row_null(h, r));
            }
        }
    }
}

/// A struct vector: an ordered, named collection of children. Child count
/// and names are derived from the logical type, never stored separately.
pub struct StructVector {
    pub handle: usize,
}

impl StructVector {
    pub open spec fn wf(&self, e: &Engine) -> bool {
        &&& e.vec_live(self.handle)
        &&& e.node(e.ty_of(self.handle)) is Struct
    }

    /// The `idx`-th child must be live if it was already materialized.
    pub open spec fn child_ok(&self, e: &Engine, idx: int) -> bool {
        match e.vec_at(self.handle).children@[idx] {
            Some(c) => e.vec_live(c),
            None => true,
        }
    }

    /// The number of named children the type declares.
    pub open spec fn spec_num_children(&self, e: &Engine) -> nat {
        match e.node(e.ty_of(self.handle)) {
            TypeNode::Struct { fields } => fields@.len(),
            _ => 0,
        }
    }

    /// Wraps an engine-provided struct handle as a borrowed view.
    pub fn from_handle(handle: usize) -> (r: Self)
        ensures
            r.handle == handle,
    {
        StructVector { handle }
    }

    /// Materializes the `idx`-th named child with at least `capacity` rows
    /// and returns a borrowed flat view over it.
    pub fn child(&self, engine: &mut Engine, idx: usize, capacity: usize) -> (r: FlatVector)
        requires
            old(engine).wf(),
            self.wf(old(engine)),
            idx < self.spec_num_children(old(engine)),
            self.child_ok(old(engine), idx as int),
        ensures
            final (engine).wf(),
            Engine::same_shape(*old(engine), *final (engine)),
            Engine::struct_child_reserved(
                *old(engine),
                *final (engine),
                self.handle,
                idx as nat,
                r.handle,
                capacity as nat,
            ),
            r.capacity == capacity,
            !r.owned,
            r.wf(final (engine)),
    {
        proof {
            old(engine).lemma_slot_wf_of(self.handle);
        }
        let c = engine.reserve_struct_child(self.handle, idx, capacity);
        FlatVector::with_capacity(c, capacity)
    }

    /// Takes the `idx`-th child as a struct vector.
    pub fn struct_vector_child(&self, engine: &mut Engine, idx: usize) -> (r: StructVector)
        requires
            old(engine).wf(),
            self.wf(old(engine)),
            idx < self.spec_num_children(old(engine)),
            self.child_ok(old(engine), idx as int),
            old(engine).node(old(engine).ty_of(self.handle)) matches TypeNode::Struct { fields }
                && old(engine).node(fields@[idx as int].ty) is Struct,
        ensures
            final (engine).wf(),
            Engine::same_shape(*old(engine), *final (engine)),
            Engine::struct_child_reserved(
                *old(engine),
                *final (engine),
                self.handle,
                idx as nat,
                r.handle,
                0,
            ),
            r.wf(final (engine)),
    {
        proof {
            old(engine).lemma_slot_wf_of(self.handle);
        }
        let c = engine.reserve_struct_child(self.handle, idx, 0);
        StructVector { handle: c }
    }

    /// Takes the `idx`-th child as a list vector.
    pub fn list_vector_child(&self, engine: &mut Engine, idx: usize) -> (r: ListVector)
        requires
            old(engine).wf(),
            self.wf(old(engine)),
            idx < self.spec_num_children(old(engine)),
            self.child_ok(old(engine), idx as int),
            old(engine).node(old(engine).ty_of(self.handle)) matches TypeNode::Struct { fields }
                && old(engine).node(fields@[idx as int].ty) is List,
        ensures
            final (engine).wf(),
            Engine::same_shape(*old(engine), *final (engine)),
            Engine::struct_child_reserved(
                *old(engine),
                *final (engine),
                self.handle,
                idx as nat,
                r.handle(),
                0,
            ),
            r.wf(final (engine)),
    {
        proof {
            old(engine).lemma_slot_wf_of(self.handle);
        }
        let c = engine.reserve_struct_child(self.handle, idx, 0);
        let rows = engine.payload_rows(c);
        ListVector { entries: FlatVector::with_capacity(c, rows) }
    }

    /// Takes the `idx`-th child as an array vector.
    pub fn array_vector_child(&self, engine: &mut Engine, idx: usize) -> (r: ArrayVector)
        requires
            old(engine).wf(),
            self.wf(old(engine)),
            idx < self.spec_num_children(old(engine)),
            self.child_ok(old(engine), idx as int),
            old(engine).node(old(engine).ty_of(self.handle)) matches TypeNode::Struct { fields }
                && old(engine).node(fields@[idx as int].ty) is Array,
        ensures
            final (engine).wf(),
            Engine::same_shape(*old(engine), *final (engine)),
            Engine::struct_child_reserved(
                *old(engine),
                *final (engine),
                self.handle,
                idx as nat,
                r.handle,
                0,
            ),
            r.wf(final (engine)),
    {
        proof {
            old(engine).lemma_slot_wf_of(self.handle);
        }
        let c = engine.reserve_struct_child(self.handle, idx, 0);
        ArrayVector { handle: c }
    }

    /// The logical type of this struct vector.
    pub fn logical_type(&self, engine: &Engine) -> (t: LogicalTypeHandle)
        requires
            engine.vec_in_bounds(self.handle),
        ensures
            t == engine.ty_of(self.handle),
    {
        engine.get_column_type(self.handle)
    }

    /// The name the type declares for the `idx`-th child.
    pub fn child_name(&self, engine: &Engine, idx: usize) -> (r: String)
        requires
            engine.wf(),
            self.wf(engine),
            idx < self.spec_num_children(engine),
        ensures
            engine.node(engine.ty_of(self.handle)) matches TypeNode::Struct { fields } && r@
                == fields@[idx as int].name@,
    {
        proof {
            engine.lemma_slot_wf_of(self.handle);
        }
        let ty = engine.get_column_type(self.handle);
        engine.struct_type_child_name(ty, idx)
    }

    /// The number of named children, derived from the logical type.
    pub fn num_children(&self, engine: &Engine) -> (r: usize)
        requires
            engine.wf(),
            self.wf(engine),
        ensures
            r == self.spec_num_children(engine),
    {
        proof {
            engine.lemma_slot_wf_of(self.handle);
        }
        let ty = engine.get_column_type(self.handle);
        engine.struct_type_child_count(ty)
    }

    /// Marks one whole struct row null at this level, independent of
    /// child-level nullability.
    pub fn set_null(&mut self, engine: &mut Engine, row: usize)
        requires
            old(engine).wf(),
            old(self).wf(old(engine)),
            row < old(engine).rows_of(old(self).handle),
        ensures
            *final (self) == *old(self),
            final (engine).wf(),
            Engine::same_shape(*old(engine), *final (engine)),
            Engine::null_set(*old(engine), *final (engine), old(self).handle, row as nat),
    {
        let h = self.handle;
        let ghost e1 = *engine;
        engine.ensure_validity_writable(h);
        let ghost e2 = *engine;
        engine.set_row_invalid(h, row);
        proof {
            assert(engine.vec_at(h) == (NativeVector {
                validity: engine.vec_at(h).validity,
                ..e1.vec_at(h)
            }));
            assert forall|r: nat|
                r < e1.rows_of(h) && r != row as nat implies engine.row_null(h, r) == e1.row_null(
                h,
                r,
            ) by {
                assert(engine.row_null(h, r) == e2.row_null(h, r));
            }
        }
    }
}

/// A dictionary vector: produced only by slicing a flat vector, its physical
/// storage borrowed from the dictionary it indexes into. It is a narrow,
/// read-oriented view, so it exposes only its logical type.
pub struct DictionaryVector {
    pub handle: usize,
}

impl DictionaryVector {
    pub fn from_handle(handle: usize) -> (r: Self)
        ensures
            r.handle == handle,
    {
        DictionaryVector { handle }
    }

    /// The logical type: slicing never changes it, so this reports the type
    /// of the vector the dictionary was sliced from.
    pub fn logical_type(&self, engine: &Engine) -> (t: LogicalTypeHandle)
        requires
            engine.vec_in_bounds(self.handle),
        ensures
            t == engine.ty_of(self.handle),
    {
        engine.get_column_type(self.handle)
    }
}

/// The closed union of the five vector kinds, for code that dispatches on a
/// vector whose concrete kind is decided at run time.
pub enum Vector {
    Flat(FlatVector),
    List(ListVector),
    Array(ArrayVector),
    Struct(StructVector),
    Dictionary(DictionaryVector),
}

impl Vector {
    pub fn as_flat(&self) -> (r: Option<&FlatVector>)
        ensures
            match *self {
                Vector::Flat(v) => r matches Some(p) && *p == v,
                _ => r is None,
            },
    {
        match self {
            Vector::Flat(v) => Some(v),
            _ => None,
        }
    }

    pub fn as_list(&self) -> (r: Option<&ListVector>)
        ensures
            match *self {
                Vector::List(v) => r matches Some(p) && *p == v,
                _ => r is None,
            },
    {
        match self {
            Vector::List(v) => Some(v),
            _ => None,
        }
    }

    pub fn as_array(&self) -> (r: Option<&ArrayVector>)
        ensures
            match *self {
                Vector::Array(v) => r matches Some(p) && *p == v,
                _ => r is None,
            },
    {
        match self {
            Vector::Array(v) => Some(v),
            _ => None,
        }
    }

    pub fn as_struct(&self) -> (r: Option<&StructVector>)
        ensures
            match *self {
                Vector::Struct(v) => r matches Some(p) && *p == v,
                _ => r is None,
            },
    {
        match self {
            Vector::Struct(v) => Some(v),
            _ => None,
        }
    }

    pub fn as_dictionary(&self) -> (r: Option<&DictionaryVector>)
        ensures
            match *self {
                Vector::Dictionary(v) => r matches Some(p) && *p == v,
                _ => r is None,
            },
    {
        match self {
            Vector::Dictionary(v) => Some(v),
            _ => None,
        }
    }
}

/// A freshly allocated vector reports every row as non-null, even though no
/// validity bitmap has been materialized: an absent bitmap means all valid.
pub proof fn lemma_fresh_vector_all_valid(
    e1: Engine,
    e2: Engine,
    h: usize,
    ty: LogicalTypeHandle,
    capacity: nat,
)
    requires
        Engine::vector_added(e1, e2, h, ty, capacity),
    ensures
        forall|r: nat| !e2.row_null(h, r),
{
}

/// Slicing never changes the logical type: a dictionary view reports exactly
/// the type of the vector it was sliced from.
pub proof fn lemma_slice_preserves_logical_type(
    e1: Engine,
    e2: Engine,
    h: usize,
    dict_len: u64,
    indices: Seq<u32>,
)
    requires
        Engine::sliced(e1, e2, h, dict_len, indices),
    ensures
        e2.ty_of(h) == e1.ty_of(h),
{
}

/// List round trip: once a child of `data.len()` elements has been written
/// and the length declared, the list reports exactly that many elements and
/// the child's first rows read back exactly what was written.
pub proof fn lemma_list_round_trip(e1: Engine, e2: Engine, h: usize, data: Seq<u64>)
    requires
        Engine::list_child_set(e1, e2, h, data),
    ensures
        e2.vec_at(h).list_size == data.len(),
        e2.vec_at(h).child matches Some(c) && e2.words_of(c).take(data.len() as int) == data,
{
}

/// Releasing a non-owning view — a clone, a child accessor's result, or a
/// wrapper around an engine-provided handle — never releases the underlying
/// handle: the engine is untouched and every other view of the handle stays
/// usable. Only the owning instance's destruction releases it.
pub proof fn lemma_release_of_borrowed_view(
    e1: Engine,
    e2: Engine,
    original: FlatVector,
    view: FlatVector,
)
    requires
        !view.owned,
        FlatVector::release_effect(e1, e2, view),
        original.wf(&e1),
    ensures
        e2 == e1,
        original.wf(&e2),
{
}

} // verus!
