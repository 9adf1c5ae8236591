//! A model of the host engine's capability surface.
//!
//! The engine owns every native object: the type table and the vector slots.
//! A handle is an index into the engine's state, and every capability the
//! vector layer consumes — allocate and destroy a vector, read and write its
//! buffer, materialize a validity bitmap or a nested child, slice through a
//! selection vector — is a verified method on [`Engine`] with an exact
//! contract, so the layer's own logic is proved against the same surface it
//! runs on.

use vstd::arithmetic::div_mod::lemma_fundamental_div_mod;
use vstd::prelude::*;

verus! {

/// The number of rows of a standard engine-provided vector batch.
pub const STANDARD_VECTOR_SIZE: usize = 2048;

/// One row's (offset, length) descriptor in a list vector's own buffer. The
/// pair describes the half-open range `offset .. offset + length` of the
/// list's child vector.
#[derive(Clone, Copy, Debug, PartialEq, Eq, Structural)]
pub struct ListEntry {
    pub offset: usize,
    pub length: usize,
}

/// A handle to a logical type owned by the engine's type table. Handles are
/// plain indices; the table itself lives for the whole batch, so handles are
/// freely copied.
#[derive(Clone, Copy, Debug, PartialEq, Eq, Structural)]
pub struct LogicalTypeHandle {
    pub raw: usize,
}

/// A field of a struct type: its name and the handle of its type.
pub struct StructField {
    pub name: String,
    pub ty: LogicalTypeHandle,
}

/// One node of the engine's type table.
pub enum TypeNode {
    /// A fixed-width scalar (integer, date, time, timestamp): one 64-bit word
    /// of buffer per row.
    Scalar,
    /// Variable-length content (text, byte blobs): one byte string per row.
    Blob,
    /// A variable-length list per row, described by (offset, length) entries
    /// into one shared child vector.
    List { elem: LogicalTypeHandle },
    /// A fixed-size list per row; the per-row element count comes from the
    /// type, not from per-row entries.
    Array { elem: LogicalTypeHandle, size: usize },
    /// An ordered, named collection of children.
    Struct { fields: Vec<StructField> },
}

/// The physical payload of one native vector, one element per row slot.
pub enum Payload {
    /// Fixed-width rows: one 64-bit word each.
    Words(Vec<u64>),
    /// Variable-length rows.
    Blobs(Vec<Vec<u8>>),
    /// List rows: one (offset, length) descriptor each.
    Entries(Vec<ListEntry>),
}

impl Payload {
    /// The number of row slots this payload holds.
    pub open spec fn rows(self) -> nat {
        match self {
            Payload::Words(w) => w@.len(),
            Payload::Blobs(b) => b@.len(),
            Payload::Entries(e) => e@.len(),
        }
    }

    pub open spec fn words(self) -> Seq<u64> {
        match self {
            Payload::Words(w) => w@,
            _ => Seq::empty(),
        }
    }

    pub open spec fn blobs(self) -> Seq<Seq<u8>> {
        match self {
            Payload::Blobs(b) => Seq::new(b@.len(), |i: int| b@[i]@),
            _ => Seq::empty(),
        }
    }

    pub open spec fn entries(self) -> Seq<ListEntry> {
        match self {
            Payload::Entries(e) => e@,
            _ => Seq::empty(),
        }
    }
}

/// The indirection a sliced vector carries: its rows are read through the
/// index buffer into a dictionary of `dict_len` physical values.
pub struct DictionaryState {
    pub dict_len: u64,
    pub indices: Vec<u32>,
}

/// The engine-side state behind one native vector handle.
pub struct NativeVector {
    /// False once the handle was destroyed. The engine never reuses a slot.
    pub alive: bool,
    pub ty: LogicalTypeHandle,
    pub payload: Payload,
    /// The validity bitmap: one bit per row, 1 = valid, packed into 64-bit
    /// words. `None` means the bitmap was never materialized, which the
    /// engine defines as "every row is valid".
    pub validity: Option<Vec<u64>>,
    /// The materialized child of a list or array vector.
    pub child: Option<usize>,
    /// The materialized children of a struct vector, one slot per field.
    pub children: Vec<Option<usize>>,
    /// The declared total element count of a list vector's child.
    pub list_size: usize,
    /// Set once the vector was sliced into a dictionary.
    pub dictionary: Option<DictionaryState>,
    /// An engine-visible identifier for detecting aliased dictionaries.
    pub dictionary_id: Option<String>,
}

/// The number of 64-bit words a validity bitmap needs for `rows` rows.
pub open spec fn words_for(rows: nat) -> nat {
    rows / 64 + if rows % 64 == 0 {
        0nat
    } else {
        1nat
    }
}

/// Whether bit `k` of word `w` is set.
pub open spec fn bit_set(w: u64, k: u64) -> bool {
    (w >> k) & 1 == 1
}

/// The bitmap word in which every row is valid.
pub open spec fn all_valid_word() -> u64 {
    0xFFFF_FFFF_FFFF_FFFFu64
}

/// Word `w` with bit `k` cleared.
pub open spec fn clear_bit(w: u64, k: u64) -> u64 {
    w & !(1u64 << k)
}

/// Whether row `row` is valid in the packed bitmap `bits`.
pub open spec fn row_valid_in(bits: Seq<u64>, row: nat) -> bool {
    bit_set(bits[(row / 64) as int], (row % 64) as u64)
}

/// The packed bitmap `bits` with row `row` marked invalid.
pub open spec fn bits_with_row_invalid(bits: Seq<u64>, row: nat) -> Seq<u64> {
    bits.update((row / 64) as int, clear_bit(bits[(row / 64) as int], (row % 64) as u64))
}

/// The bitmap of `words` words in which every row is valid.
pub open spec fn all_valid_bits(words: nat) -> Seq<u64> {
    Seq::new(words, |i: int| all_valid_word())
}

pub proof fn lemma_all_valid_bit(k: u64)
    requires
        k < 64,
    ensures
        bit_set(all_valid_word(), k),
{
    assert((0xFFFF_FFFF_FFFF_FFFFu64 >> k) & 1 == 1) by (bit_vector)
        requires
            k < 64,
    ;
}

pub proof fn lemma_clear_bit_clears(w: u64, k: u64)
    requires
        k < 64,
    ensures
        !bit_set(clear_bit(w, k), k),
{
    assert(((w & !(1u64 << k)) >> k) & 1 != 1) by (bit_vector)
        requires
            k < 64,
    ;
}

pub proof fn lemma_clear_bit_keeps_others(w: u64, k: u64, j: u64)
    requires
        k < 64,
        j < 64,
        j != k,
    ensures
        bit_set(clear_bit(w, k), j) == bit_set(w, j),
{
    assert((((w & !(1u64 << k)) >> j) & 1) == ((w >> j) & 1)) by (bit_vector)
        requires
            k < 64,
            j < 64,
            j != k,
    ;
}

pub proof fn lemma_clear_bit_idempotent(w: u64, k: u64)
    ensures
        clear_bit(clear_bit(w, k), k) == clear_bit(w, k),
{
    assert((w & !(1u64 << k)) & !(1u64 << k) == w & !(1u64 << k)) by (bit_vector);
}

pub proof fn lemma_bit_is_zero_or_one(w: u64, k: u64)
    ensures
        (w >> k) & 1 == 0 || (w >> k) & 1 == 1,
{
    assert((w >> k) & 1 == 0 || (w >> k) & 1 == 1) by (bit_vector);
}

/// A row below the row count always finds its word inside the bitmap.
pub proof fn lemma_row_word_in_bitmap(row: nat, rows: nat)
    requires
        row < rows,
    ensures
        row / 64 < words_for(rows),
        row % 64 < 64,
{
    lemma_fundamental_div_mod(row as int, 64);
    lemma_fundamental_div_mod(rows as int, 64);
    assert(row / 64 <= rows / 64) by (nonlinear_arith)
        requires
            row < rows,
    ;
    if row / 64 == rows / 64 && rows % 64 == 0 {
        assert(false) by (nonlinear_arith)
            requires
                row < rows,
                row / 64 == rows / 64,
                rows % 64 == 0,
                row == 64 * (row / 64) + row % 64,
                rows == 64 * (rows / 64) + rows % 64,
                row % 64 < 64,
        ;
    }
}

/// The engine: the type table and the vector slots it owns.
pub struct Engine {
    pub types: Vec<TypeNode>,
    pub vectors: Vec<NativeVector>,
}

impl Engine {
    pub open spec fn ty_ok(&self, t: LogicalTypeHandle) -> bool {
        t.raw < self.types@.len()
    }

    pub open spec fn node(&self, t: LogicalTypeHandle) -> TypeNode {
        self.types@[t.raw as int]
    }

    pub open spec fn vec_in_bounds(&self, h: usize) -> bool {
        h < self.vectors@.len()
    }

    pub open spec fn vec_at(&self, h: usize) -> NativeVector {
        self.vectors@[h as int]
    }

    pub open spec fn vec_live(&self, h: usize) -> bool {
        self.vec_in_bounds(h) && self.vec_at(h).alive
    }

    /// The number of row slots behind handle `h`.
    pub open spec fn rows_of(&self, h: usize) -> nat {
        self.vec_at(h).payload.rows()
    }

    pub open spec fn words_of(&self, h: usize) -> Seq<u64> {
        self.vec_at(h).payload.words()
    }

    pub open spec fn blobs_of(&self, h: usize) -> Seq<Seq<u8>> {
        self.vec_at(h).payload.blobs()
    }

    pub open spec fn entries_of(&self, h: usize) -> Seq<ListEntry> {
        self.vec_at(h).payload.entries()
    }

    pub open spec fn ty_of(&self, h: usize) -> LogicalTypeHandle {
        self.vec_at(h).ty
    }

    /// Whether row `row` of vector `h` is null: an absent bitmap means every
    /// row is valid.
    pub open spec fn row_null(&self, h: usize, row: nat) -> bool {
        match self.vec_at(h).validity {
            None => false,
            Some(bits) => !row_valid_in(bits@, row),
        }
    }

    /// Structural well-formedness of one vector slot against the engine: its
    /// type handle is in the table, its payload kind matches its type, its
    /// materialized children carry the element or field types, and its
    /// validity bitmap (if materialized) covers exactly its rows.
    pub open spec fn slot_wf(&self, nv: NativeVector) -> bool {
        &&& self.ty_ok(nv.ty)
        &&& match self.node(nv.ty) {
            TypeNode::Scalar => {
                &&& nv.payload is Words
                &&& nv.child is None
                &&& nv.children@.len() == 0
            },
            TypeNode::Blob => {
                &&& nv.payload is Blobs
                &&& nv.child is None
                &&& nv.children@.len() == 0
            },
            TypeNode::List { elem } => {
                &&& nv.payload is Entries
                &&& match nv.child {
                    Some(c) => self.vec_in_bounds(c) && self.vec_at(c).ty == elem,
                    None => true,
                }
                &&& nv.children@.len() == 0
            },
            TypeNode::Array { elem, size } => {
                &&& nv.payload is Words
                &&& match nv.child {
                    Some(c) => self.vec_in_bounds(c) && self.vec_at(c).ty == elem,
                    None => true,
                }
                &&& nv.children@.len() == 0
            },
            TypeNode::Struct { fields } => {
                &&& nv.payload is Words
                &&& nv.child is None
                &&& nv.children@.len() == fields@.len()
                &&& forall|i: int|
                    0 <= i < fields@.len() ==> match #[trigger] nv.children@[i] {
                        Some(c) => self.vec_in_bounds(c) && self.vec_at(c).ty == fields@[i].ty,
                        None => true,
                    }
            },
        }
        &&& match nv.validity {
            Some(bits) => bits@.len() == words_for(nv.payload.rows()),
            None => true,
        }
    }

    /// The type handles a node refers to are themselves in the table.
    pub open spec fn node_tys_ok(&self, node: TypeNode) -> bool {
        match node {
            TypeNode::List { elem } => self.ty_ok(elem),
            TypeNode::Array { elem, size } => self.ty_ok(elem),
            TypeNode::Struct { fields } => forall|i: int|
                0 <= i < fields@.len() ==> self.ty_ok((#[trigger] fields@[i]).ty),
            _ => true,
        }
    }

    pub open spec fn types_wf(&self) -> bool {
        forall|t: int| 0 <= t < self.types@.len() ==> self.node_tys_ok(#[trigger] self.types@[t])
    }

    /// The engine invariant: the type table is closed under its own
    /// references, and every slot, live or destroyed, is structurally well
    /// formed. Destroying a vector only flips its liveness, so the structure
    /// of the state never degrades.
    pub open spec fn wf(&self) -> bool {
        &&& self.types_wf()
        &&& forall|h: int|
            0 <= h < self.vectors@.len() ==> self.slot_wf(#[trigger] self.vectors@[h])
    }

    /// `e2` extends `e1`: the type table of `e1` is a prefix of that of `e2`,
    /// and the slots of `e2` up to the length of `e1` carry the same types.
    /// Every engine operation preserves this relation, which is what keeps
    /// child links well formed across unrelated mutations.
    pub open spec fn same_shape(e1: Engine, e2: Engine) -> bool {
        &&& e2.types@.len() >= e1.types@.len()
        &&& forall|t: int| 0 <= t < e1.types@.len() ==> e2.types@[t] == e1.types@[t]
        &&& e2.vectors@.len() >= e1.vectors@.len()
        &&& forall|k: int|
            0 <= k < e1.vectors@.len() ==> (#[trigger] e2.vectors@[k]).ty == e1.vectors@[k].ty
    }

    /// Slot well-formedness carries over to any same-shaped engine.
    pub proof fn lemma_slot_wf_stable(e1: &Engine, e2: &Engine, nv: NativeVector)
        requires
            Engine::same_shape(*e1, *e2),
            e1.slot_wf(nv),
        ensures
            e2.slot_wf(nv),
    {
        assert(e2.node(nv.ty) == e1.node(nv.ty));
    }

    /// The type-table half of the invariant carries over to any same-shaped
    /// engine with an equal type table.
    pub proof fn lemma_types_wf_stable(e1: &Engine, e2: &Engine)
        requires
            e1.types_wf(),
            e2.types@ == e1.types@,
        ensures
            e2.types_wf(),
    {
        assert forall|t: int| 0 <= t < e2.types@.len() implies e2.node_tys_ok(
            #[trigger] e2.types@[t],
        ) by {
            assert(e1.node_tys_ok(e1.types@[t]));
        }
    }

    /// An engine that leaves all slots but `h` untouched, keeps slot `h`'s
    /// type, and keeps slot `h` well formed, is well formed as a whole.
    pub proof fn lemma_wf_after_update(e1: &Engine, e2: &Engine, h: usize)
        requires
            e1.wf(),
            e2.types@ == e1.types@,
            e2.vectors@.len() == e1.vectors@.len(),
            h < e1.vectors@.len(),
            forall|k: int|
                0 <= k < e1.vectors@.len() && k != h ==> e2.vectors@[k] == e1.vectors@[k],
            e2.vec_at(h).ty == e1.vec_at(h).ty,
            e2.slot_wf(e2.vec_at(h)),
        ensures
            e2.wf(),
    {
        Engine::lemma_types_wf_stable(e1, e2);
        assert(Engine::same_shape(*e1, *e2));
        assert forall|k: int| 0 <= k < e2.vectors@.len() implies e2.slot_wf(
            #[trigger] e2.vectors@[k],
        ) by {
            if k != h {
                Engine::lemma_slot_wf_stable(e1, e2, e2.vectors@[k]);
            }
        }
    }

    /// An engine extended by one well-formed slot is well formed as a whole.
    pub proof fn lemma_wf_after_push(e1: &Engine, e2: &Engine)
        requires
            e1.wf(),
            e2.types@ == e1.types@,
            e2.vectors@.len() == e1.vectors@.len() + 1,
            forall|k: int| 0 <= k < e1.vectors@.len() ==> e2.vectors@[k] == e1.vectors@[k],
            e2.slot_wf(e2.vectors@[e1.vectors@.len() as int]),
        ensures
            e2.wf(),
    {
        Engine::lemma_types_wf_stable(e1, e2);
        assert(Engine::same_shape(*e1, *e2));
        assert forall|k: int| 0 <= k < e2.vectors@.len() implies e2.slot_wf(
            #[trigger] e2.vectors@[k],
        ) by {
            if k < e1.vectors@.len() {
                Engine::lemma_slot_wf_stable(e1, e2, e2.vectors@[k]);
            }
        }
    }

    /// An engine whose vectors are untouched and whose type table grew by one
    /// node that only refers to types already in the table is well formed.
    pub proof fn lemma_wf_after_type_push(e1: &Engine, e2: &Engine, node: TypeNode)
        requires
            e1.wf(),
            e2.vectors@ == e1.vectors@,
            e2.types@ == e1.types@.push(node),
            e1.node_tys_ok(node),
        ensures
            e2.wf(),
    {
        assert forall|t: int| 0 <= t < e2.types@.len() implies e2.node_tys_ok(
            #[trigger] e2.types@[t],
        ) by {
            if t < e1.types@.len() {
                assert(e1.node_tys_ok(e1.types@[t]));
            } else {
                assert(e2.types@[t] == node);
            }
        }
        assert(Engine::same_shape(*e1, *e2));
        assert forall|k: int| 0 <= k < e2.vectors@.len() implies e2.slot_wf(
            #[trigger] e2.vectors@[k],
        ) by {
            Engine::lemma_slot_wf_stable(e1, e2, e2.vectors@[k]);
        }
    }

    /// A fresh engine with an empty type table and no vectors.
    pub fn new() -> (e: Engine)
        ensures
            e.wf(),
            e.types@.len() == 0,
            e.vectors@.len() == 0,
    {
        Engine { types: Vec::new(), vectors: Vec::new() }
    }

    /// The standard number of rows of an engine-provided vector batch.
    pub fn vector_size(&self) -> (r: usize)
        ensures
            r == STANDARD_VECTOR_SIZE,
    {
        STANDARD_VECTOR_SIZE
    }

    /// What every type constructor guarantees: the table grew by exactly the
    /// given node and nothing else moved.
    pub open spec fn type_added(e1: Engine, e2: Engine, t: LogicalTypeHandle, node: TypeNode) -> bool {
        &&& e2.vectors@ == e1.vectors@
        &&& e2.types@ == e1.types@.push(node)
        &&& t.raw == e1.types@.len()
        &&& e2.ty_ok(t)
        &&& e2.node(t) == node
    }

    pub fn scalar_type(&mut self) -> (t: LogicalTypeHandle)
        requires
            old(self).wf(),
        ensures
            final (self).wf(),
            Engine::type_added(*old(self), *final (self), t, TypeNode::Scalar),
    {
        let t = LogicalTypeHandle { raw: self.types.len() };
        self.types.push(TypeNode::Scalar);
        proof {
            Engine::lemma_wf_after_type_push(old(self), self, TypeNode::Scalar);
        }
        t
    }

    pub fn blob_type(&mut self) -> (t: LogicalTypeHandle)
        requires
            old(self).wf(),
        ensures
            final (self).wf(),
            Engine::type_added(*old(self), *final (self), t, TypeNode::Blob),
    {
        let t = LogicalTypeHandle { raw: self.types.len() };
        self.types.push(TypeNode::Blob);
        proof {
            Engine::lemma_wf_after_type_push(old(self), self, TypeNode::Blob);
        }
        t
    }

    pub fn list_type(&mut self, elem: LogicalTypeHandle) -> (t: LogicalTypeHandle)
        requires
            old(self).wf(),
            old(self).ty_ok(elem),
        ensures
            final (self).wf(),
            Engine::type_added(*old(self), *final (self), t, TypeNode::List { elem }),
    {
        let t = LogicalTypeHandle { raw: self.types.len() };
        self.types.push(TypeNode::List { elem });
        proof {
            Engine::lemma_wf_after_type_push(old(self), self, TypeNode::List { elem });
        }
        t
    }

    pub fn array_type(&mut self, elem: LogicalTypeHandle, size: usize) -> (t: LogicalTypeHandle)
        requires
            old(self).wf(),
            old(self).ty_ok(elem),
        ensures
            final (self).wf(),
            Engine::type_added(*old(self), *final (self), t, TypeNode::Array { elem, size }),
    {
        let t = LogicalTypeHandle { raw: self.types.len() };
        self.types.push(TypeNode::Array { elem, size });
        proof {
            Engine::lemma_wf_after_type_push(old(self), self, TypeNode::Array { elem, size });
        }
        t
    }

    pub fn struct_type(&mut self, fields: Vec<StructField>) -> (t: LogicalTypeHandle)
        requires
            old(self).wf(),
            forall|i: int| 0 <= i < fields@.len() ==> old(self).ty_ok((#[trigger] fields@[i]).ty),
        ensures
            final (self).wf(),
            Engine::type_added(*old(self), *final (self), t, TypeNode::Struct { fields }),
    {
        let t = LogicalTypeHandle { raw: self.types.len() };
        let ghost node = TypeNode::Struct { fields };
        self.types.push(TypeNode::Struct { fields });
        proof {
            Engine::lemma_wf_after_type_push(old(self), self, node);
        }
        t
    }

    /// What a freshly allocated slot looks like: live, never sliced, no
    /// bitmap, no materialized children, and a zeroed payload of exactly
    /// `capacity` row slots whose kind matches the type.
    pub open spec fn fresh_slot(&self, nv: NativeVector, ty: LogicalTypeHandle, capacity: nat) -> bool {
        &&& nv.alive
        &&& nv.ty == ty
        &&& nv.validity is None
        &&& nv.child is None
        &&& nv.list_size == 0
        &&& nv.dictionary is None
        &&& nv.dictionary_id is None
        &&& nv.payload.rows() == capacity
        &&& match self.node(ty) {
            TypeNode::Blob => nv.payload.blobs() == empty_blob_seq(capacity),
            TypeNode::List { elem } => nv.payload.entries() == zero_entry_seq(capacity),
            _ => nv.payload.words() == zero_word_seq(capacity),
        }
        &&& forall|i: int| 0 <= i < nv.children@.len() ==> (#[trigger] nv.children@[i]) is None
    }

    /// What every allocation guarantees: one fresh slot at the old end of the
    /// table, everything else untouched.
    pub open spec fn vector_added(e1: Engine, e2: Engine, h: usize, ty: LogicalTypeHandle, capacity: nat) -> bool {
        &&& e2.types@ == e1.types@
        &&& h == e1.vectors@.len()
        &&& e2.vectors@.len() == e1.vectors@.len() + 1
        &&& forall|k: int| 0 <= k < e1.vectors@.len() ==> e2.vectors@[k] == e1.vectors@[k]
        &&& e2.vec_live(h)
        &&& e2.fresh_slot(e2.vec_at(h), ty, capacity)
    }

    /// Allocates a new vector of the given logical type with `capacity` row
    /// slots and hands back its handle.
    pub fn create_vector(&mut self, ty: LogicalTypeHandle, capacity: usize) -> (h: usize)
        requires
            old(self).wf(),
            old(self).ty_ok(ty),
        ensures
            final (self).wf(),
            Engine::same_shape(*old(self), *final (self)),
            Engine::vector_added(*old(self), *final (self), h, ty, capacity as nat),
    {
        let h = self.vectors.len();
        let payload: Payload;
        let mut children: Vec<Option<usize>> = Vec::new();
        match &self.types[ty.raw] {
            TypeNode::Scalar => {
                payload = Payload::Words(zero_words(capacity));
            },
            TypeNode::Blob => {
                payload = Payload::Blobs(empty_blob_rows(capacity));
            },
            TypeNode::List { .. } => {
                payload = Payload::Entries(zero_entries(capacity));
            },
            TypeNode::Array { .. } => {
                payload = Payload::Words(zero_words(capacity));
            },
            TypeNode::Struct { fields } => {
                payload = Payload::Words(zero_words(capacity));
                children = none_children(fields.len());
            },
        }
        let nv = NativeVector {
            alive: true,
            ty,
            payload,
            validity: None,
            child: None,
            children,
            list_size: 0,
            dictionary: None,
            dictionary_id: None,
        };
        self.vectors.push(nv);
        proof {
            if self.vec_at(h).payload is Blobs {
                assert(self.vec_at(h).payload.blobs() =~= empty_blob_seq(capacity as nat));
            }
            assert(self.slot_wf(self.vec_at(h)));
            Engine::lemma_wf_after_push(old(self), self);
        }
        h
    }

    /// Proves that slot `h` of a well-formed engine is itself well formed.
    pub proof fn lemma_slot_wf_of(&self, h: usize)
        requires
            self.wf(),
            self.vec_in_bounds(h),
        ensures
            self.slot_wf(self.vec_at(h)),
    {
        assert(self.slot_wf(self.vectors@[h as int]));
    }

    /// The engine with exactly slot `h` changed, every other slot and the
    /// type table untouched.
    pub open spec fn only_slot_changed(e1: Engine, e2: Engine, h: usize) -> bool {
        &&& e2.types@ == e1.types@
        &&& e2.vectors@.len() == e1.vectors@.len()
        &&& forall|k: int| 0 <= k < e1.vectors@.len() && k != h ==> e2.vectors@[k] == e1.vectors@[k]
    }

    /// Reads the validity of one row. An absent bitmap means every row is
    /// valid — absence is a legitimate state, not an error.
    pub fn row_is_valid(&self, h: usize, row: usize) -> (r: bool)
        requires
            self.wf(),
            self.vec_live(h),
            row < self.rows_of(h),
        ensures
            r == !self.row_null(h, row as nat),
    {
        proof {
            self.lemma_slot_wf_of(h);
            lemma_row_word_in_bitmap(row as nat, self.rows_of(h));
        }
        match &self.vectors[h].validity {
            None => true,
            Some(bits) => {
                let w = bits[row / 64];
                let k = (row % 64) as u64;
                proof {
                    lemma_bit_is_zero_or_one(w, k);
                }
                (w >> k) & 1 == 1
            },
        }
    }

    /// What materializing a bitmap guarantees: only the bitmap of slot `h`
    /// may change; if it was absent it is now all-valid, and either way no
    /// row's nullness moves.
    pub open spec fn validity_materialized(e1: Engine, e2: Engine, h: usize) -> bool {
        &&& Engine::only_slot_changed(e1, e2, h)
        &&& e2.vec_at(h) == NativeVector { validity: e2.vec_at(h).validity, ..e1.vec_at(h) }
        &&& e2.vec_at(h).validity matches Some(bits) && bits@.len() == words_for(
            e1.vec_at(h).payload.rows(),
        )
        &&& (e1.vec_at(h).validity is Some ==> e2.vec_at(h).validity == e1.vec_at(h).validity)
        &&& forall|r: nat|
            r < e1.vec_at(h).payload.rows() ==> e2.row_null(h, r) == e1.row_null(h, r)
    }

    /// Materializes the validity bitmap of `h` so null-marking becomes
    /// possible. If no bitmap exists yet, an all-valid bitmap is allocated;
    /// an existing bitmap is left exactly as it is.
    pub fn ensure_validity_writable(&mut self, h: usize)
        requires
            old(self).wf(),
            old(self).vec_live(h),
        ensures
            final (self).wf(),
            Engine::same_shape(*old(self), *final (self)),
            Engine::validity_materialized(*old(self), *final (self), h),
    {
        proof {
            old(self).lemma_slot_wf_of(h);
        }
        let has_bitmap = match &self.vectors[h].validity {
            Some(_) => true,
            None => false,
        };
        if !has_bitmap {
            let rows = self.payload_rows(h);
            let word_count = rows / 64 + if rows % 64 == 0 {
                0
            } else {
                1
            };
            let bits = all_valid_words(word_count);
            let nv = &mut self.vectors[h];
            nv.validity = Some(bits);
            proof {
                assert forall|r: nat| r < old(self).vec_at(h).payload.rows() implies self.row_null(
                    h,
                    r,
                ) == old(self).row_null(h, r) by {
                    lemma_row_word_in_bitmap(r, old(self).vec_at(h).payload.rows());
                    lemma_all_valid_bit((r % 64) as u64);
                }
                Engine::lemma_wf_after_update(old(self), self, h);
            }
        }
    }

    /// What null-marking guarantees: only the bitmap of slot `h` changes, the
    /// marked row reads as null, and no other row's bit moves.
    pub open spec fn row_marked_invalid(e1: Engine, e2: Engine, h: usize, row: nat) -> bool {
        &&& Engine::only_slot_changed(e1, e2, h)
        &&& e2.vec_at(h) == NativeVector { validity: e2.vec_at(h).validity, ..e1.vec_at(h) }
        &&& e2.vec_at(h).validity matches Some(bits2) && e1.vec_at(h).validity matches Some(bits1)
            && bits2@ == bits_with_row_invalid(bits1@, row)
        &&& e2.row_null(h, row)
        &&& forall|r: nat|
            r < e1.vec_at(h).payload.rows() && r != row ==> e2.row_null(h, r) == e1.row_null(h, r)
    }

    /// Clears the validity bit of one row. The bitmap must have been
    /// materialized first.
    pub fn set_row_invalid(&mut self, h: usize, row: usize)
        requires
            old(self).wf(),
            old(self).vec_live(h),
            row < old(self).rows_of(h),
            old(self).vec_at(h).validity is Some,
        ensures
            final (self).wf(),
            Engine::same_shape(*old(self), *final (self)),
            Engine::row_marked_invalid(*old(self), *final (self), h, row as nat),
    {
        proof {
            old(self).lemma_slot_wf_of(h);
            lemma_row_word_in_bitmap(row as nat, old(self).rows_of(h));
        }
        let nv = &mut self.vectors[h];
        match &mut nv.validity {
            Some(bits) => {
                let wi = row / 64;
                let k = (row % 64) as u64;
                let w = bits[wi];
                bits[wi] = w & !(1u64 << k);
            },
            None => {},
        }
        proof {
            let bits1 = old(self).vec_at(h).validity->Some_0@;
            let bits2 = self.vec_at(h).validity->Some_0@;
            assert(bits2 =~= bits_with_row_invalid(bits1, row as nat));
            lemma_clear_bit_clears(bits1[(row / 64) as int], (row % 64) as u64);
            assert forall|r: nat|
                r < old(self).vec_at(h).payload.rows() && r != row as nat implies self.row_null(
                h,
                r,
            ) == old(self).row_null(h, r) by {
                lemma_row_word_in_bitmap(r, old(self).vec_at(h).payload.rows());
                if r / 64 == row as nat / 64 {
                    lemma_clear_bit_keeps_others(
                        bits1[(r / 64) as int],
                        (row % 64) as u64,
                        (r % 64) as u64,
                    );
                    assert(r % 64 != row as nat % 64) by (nonlinear_arith)
                        requires
                            r != row as nat,
                            r / 64 == row as nat / 64,
                            r == 64 * (r / 64) + r % 64,
                            row as nat == 64 * (row as nat / 64) + row as nat % 64,
                    ;
                }
            }
            Engine::lemma_wf_after_update(old(self), self, h);
        }
    }

    /// What marking one row null guarantees end to end, whether or not a
    /// bitmap existed before: only slot `h`'s bitmap changed, the row reads
    /// as null, and no other row's nullness moved.
    pub open spec fn null_set(e1: Engine, e2: Engine, h: usize, row: nat) -> bool {
        &&& Engine::only_slot_changed(e1, e2, h)
        &&& e2.vec_at(h) == (NativeVector { validity: e2.vec_at(h).validity, ..e1.vec_at(h) })
        &&& e2.vec_at(h).validity is Some
        &&& e2.row_null(h, row)
        &&& forall|r: nat|
            r < e1.rows_of(h) && r != row ==> e2.row_null(h, r) == e1.row_null(h, r)
    }

    /// The number of row slots behind `h`.
    pub fn payload_rows(&self, h: usize) -> (r: usize)
        requires
            self.vec_in_bounds(h),
        ensures
            r == self.rows_of(h),
    {
        match &self.vectors[h].payload {
            Payload::Words(w) => w.len(),
            Payload::Blobs(b) => b.len(),
            Payload::Entries(e) => e.len(),
        }
    }

    /// Reads one word of a fixed-width buffer.
    pub fn word_at(&self, h: usize, row: usize) -> (r: u64)
        requires
            self.vec_live(h),
            self.vec_at(h).payload is Words,
            row < self.rows_of(h),
        ensures
            r == self.words_of(h)[row as int],
    {
        match &self.vectors[h].payload {
            Payload::Words(w) => w[row],
            _ => vstd::pervasive::unreached(),
        }
    }

    /// Borrows the first `len` words of a fixed-width buffer.
    pub fn words_prefix<'a>(&'a self, h: usize, len: usize) -> (r: &'a [u64])
        requires
            self.vec_live(h),
            self.vec_at(h).payload is Words,
            len <= self.rows_of(h),
        ensures
            r@ == self.words_of(h).take(len as int),
    {
        match &self.vectors[h].payload {
            Payload::Words(w) => vstd::slice::slice_subrange(w.as_slice(), 0, len),
            _ => vstd::pervasive::unreached(),
        }
    }

    /// What a bulk word write guarantees: the first `data.len()` words of
    /// slot `h`'s buffer now carry `data`, the tail and everything else are
    /// untouched.
    pub open spec fn words_written(e1: Engine, e2: Engine, h: usize, data: Seq<u64>) -> bool {
        &&& Engine::only_slot_changed(e1, e2, h)
        &&& e2.vec_at(h) == NativeVector { payload: e2.vec_at(h).payload, ..e1.vec_at(h) }
        &&& e2.vec_at(h).payload is Words
        &&& e2.rows_of(h) == e1.rows_of(h)
        &&& e2.words_of(h) == data + e1.words_of(h).skip(data.len() as int)
    }

    /// Writes `data` over the front of a fixed-width buffer in one step.
    pub fn write_words(&mut self, h: usize, data: &[u64])
        requires
            old(self).wf(),
            old(self).vec_live(h),
            old(self).vec_at(h).payload is Words,
            data@.len() <= old(self).rows_of(h),
        ensures
            final (self).wf(),
            Engine::same_shape(*old(self), *final (self)),
            Engine::words_written(*old(self), *final (self), h, data@),
    {
        proof {
            old(self).lemma_slot_wf_of(h);
        }
        let rows = self.payload_rows(h);
        let mut new_words = vstd::slice::slice_to_vec(data);
        let mut i: usize = data.len();
        while i < rows
            invariant
                *self == *old(self),
                data@.len() <= i <= rows,
                rows == self.rows_of(h),
                self.vec_live(h),
                self.vec_at(h).payload is Words,
                new_words@ == data@ + self.words_of(h).subrange(data@.len() as int, i as int),
            decreases rows - i,
        {
            let w = self.word_at(h, i);
            new_words.push(w);
            i = i + 1;
            proof {
                assert(new_words@ =~= data@ + self.words_of(h).subrange(
                    data@.len() as int,
                    i as int,
                ));
            }
        }
        let nv = &mut self.vectors[h];
        nv.payload = Payload::Words(new_words);
        proof {
            assert(self.words_of(h) =~= data@ + old(self).words_of(h).skip(data@.len() as int));
            Engine::lemma_wf_after_update(old(self), self, h);
        }
    }

    /// What a single-row blob write guarantees.
    pub open spec fn blob_written(e1: Engine, e2: Engine, h: usize, row: nat, data: Seq<u8>) -> bool {
        &&& Engine::only_slot_changed(e1, e2, h)
        &&& e2.vec_at(h) == NativeVector { payload: e2.vec_at(h).payload, ..e1.vec_at(h) }
        &&& e2.vec_at(h).payload is Blobs
        &&& e2.rows_of(h) == e1.rows_of(h)
        &&& e2.blobs_of(h) == e1.blobs_of(h).update(row as int, data)
    }

    /// Writes one row of a variable-length buffer; each row is sized
    /// independently.
    pub fn assign_blob(&mut self, h: usize, row: usize, data: &[u8])
        requires
            old(self).wf(),
            old(self).vec_live(h),
            old(self).vec_at(h).payload is Blobs,
            row < old(self).rows_of(h),
        ensures
            final (self).wf(),
            Engine::same_shape(*old(self), *final (self)),
            Engine::blob_written(*old(self), *final (self), h, row as nat, data@),
    {
        proof {
            old(self).lemma_slot_wf_of(h);
        }
        let owned_row: Vec<u8> = vstd::slice::slice_to_vec(data);
        let nv = &mut self.vectors[h];
        match &mut nv.payload {
            Payload::Blobs(b) => {
                b[row] = owned_row;
            },
            _ => {},
        }
        proof {
            assert(self.blobs_of(h) =~= old(self).blobs_of(h).update(row as int, data@));
            Engine::lemma_wf_after_update(old(self), self, h);
        }
    }

    /// Reads back one row of a variable-length buffer.
    pub fn blob_at<'a>(&'a self, h: usize, row: usize) -> (r: &'a Vec<u8>)
        requires
            self.vec_live(h),
            self.vec_at(h).payload is Blobs,
            row < self.rows_of(h),
        ensures
            r@ == self.blobs_of(h)[row as int],
    {
        match &self.vectors[h].payload {
            Payload::Blobs(b) => &b[row],
            _ => vstd::pervasive::unreached(),
        }
    }

    /// What a list-entry write guarantees.
    pub open spec fn entry_written(e1: Engine, e2: Engine, h: usize, idx: nat, entry: ListEntry) -> bool {
        &&& Engine::only_slot_changed(e1, e2, h)
        &&& e2.vec_at(h) == NativeVector { payload: e2.vec_at(h).payload, ..e1.vec_at(h) }
        &&& e2.vec_at(h).payload is Entries
        &&& e2.rows_of(h) == e1.rows_of(h)
        &&& e2.entries_of(h) == e1.entries_of(h).update(idx as int, entry)
    }

    /// Writes one row's (offset, length) descriptor of a list vector.
    pub fn write_entry(&mut self, h: usize, idx: usize, entry: ListEntry)
        requires
            old(self).wf(),
            old(self).vec_live(h),
            old(self).vec_at(h).payload is Entries,
            idx < old(self).rows_of(h),
        ensures
            final (self).wf(),
            Engine::same_shape(*old(self), *final (self)),
            Engine::entry_written(*old(self), *final (self), h, idx as nat, entry),
    {
        proof {
            old(self).lemma_slot_wf_of(h);
        }
        let nv = &mut self.vectors[h];
        match &mut nv.payload {
            Payload::Entries(es) => {
                es[idx] = entry;
            },
            _ => {},
        }
        proof {
            Engine::lemma_wf_after_update(old(self), self, h);
        }
    }

    /// Reads one row's (offset, length) descriptor of a list vector.
    pub fn entry_at(&self, h: usize, idx: usize) -> (r: ListEntry)
        requires
            self.vec_live(h),
            self.vec_at(h).payload is Entries,
            idx < self.rows_of(h),
        ensures
            r == self.entries_of(h)[idx as int],
    {
        match &self.vectors[h].payload {
            Payload::Entries(es) => es[idx],
            _ => vstd::pervasive::unreached(),
        }
    }

    /// What growing a buffer guarantees: the row count never shrinks, the
    /// payload keeps its kind and its existing prefix, a materialized bitmap
    /// stays materialized, and no existing row's nullness moves. Growth is
    /// what makes repeated reservation idempotent: a second reservation of
    /// capacity already granted changes nothing.
    pub open spec fn slot_grown(e1: Engine, e2: Engine, h: usize, want: nat) -> bool {
        &&& Engine::only_slot_changed(e1, e2, h)
        &&& e2.vec_at(h) == NativeVector {
            payload: e2.vec_at(h).payload,
            validity: e2.vec_at(h).validity,
            ..e1.vec_at(h)
        }
        &&& e2.rows_of(h) == if want > e1.rows_of(h) {
            want
        } else {
            e1.rows_of(h)
        }
        &&& (e1.vec_at(h).payload is Words ==> e2.words_of(h).take(e1.rows_of(h) as int) == e1
            .words_of(h))
        &&& (e1.vec_at(h).payload is Entries ==> e2.entries_of(h).take(e1.rows_of(h) as int) == e1
            .entries_of(h))
        &&& forall|k: int|
            0 <= k < e1.blobs_of(h).len() ==> #[trigger] e2.blobs_of(h)[k] == e1.blobs_of(h)[k]
        &&& (e1.vec_at(h).payload is Words <==> e2.vec_at(h).payload is Words)
        &&& (e1.vec_at(h).payload is Blobs <==> e2.vec_at(h).payload is Blobs)
        &&& (e1.vec_at(h).payload is Entries <==> e2.vec_at(h).payload is Entries)
        &&& (e1.vec_at(h).validity is None <==> e2.vec_at(h).validity is None)
        &&& forall|r: nat| r < e1.rows_of(h) ==> e2.row_null(h, r) == e1.row_null(h, r)
    }

    /// Grows the buffer behind `h` to at least `want` row slots, never
    /// shrinking and keeping all existing content and nullness. What the new
    /// rows hold is the engine's business: reservation promises capacity,
    /// not content.
    fn grow_rows(&mut self, h: usize, want: usize)
        requires
            old(self).wf(),
            old(self).vec_live(h),
        ensures
            final (self).wf(),
            Engine::same_shape(*old(self), *final (self)),
            Engine::slot_grown(*old(self), *final (self), h, want as nat),
    {
        proof {
            old(self).lemma_slot_wf_of(h);
        }
        let rows = self.payload_rows(h);
        if want <= rows {
            proof {
                if self.vec_at(h).payload is Words {
                    assert(self.words_of(h).take(rows as int) =~= self.words_of(h));
                }
                if self.vec_at(h).payload is Entries {
                    assert(self.entries_of(h).take(rows as int) =~= self.entries_of(h));
                }
            }
            return ;
        }
        // Rebuild the payload at the new size, keeping the old prefix.
        let new_payload: Payload = match &self.vectors[h].payload {
            Payload::Words(w) => {
                let mut nw = vstd::slice::slice_to_vec(w.as_slice());
                grow_words(&mut nw, want);
                Payload::Words(nw)
            },
            Payload::Blobs(b) => {
                let mut nb = clone_blob_rows(b);
                grow_blob_rows(&mut nb, want);
                Payload::Blobs(nb)
            },
            Payload::Entries(es) => {
                let mut ne = vstd::slice::slice_to_vec(es.as_slice());
                grow_entries(&mut ne, want);
                Payload::Entries(ne)
            },
        };
        // Rebuild the bitmap, if one exists, covering the new rows as valid.
        let new_validity: Option<Vec<u64>> = match &self.vectors[h].validity {
            None => None,
            Some(bits) => {
                let mut nbits = vstd::slice::slice_to_vec(bits.as_slice());
                let word_count = want / 64 + if want % 64 == 0 {
                    0
                } else {
                    1
                };
                grow_valid_words(&mut nbits, word_count);
                Some(nbits)
            },
        };
        let nv = &mut self.vectors[h];
        nv.payload = new_payload;
        nv.validity = new_validity;
        proof {
            if old(self).vec_at(h).validity is Some {
                lemma_words_for_monotone(old(self).rows_of(h), want as nat);
            }
            assert forall|r: nat| r < old(self).rows_of(h) implies self.row_null(h, r) == old(
                self,
            ).row_null(h, r) by {
                lemma_row_word_in_bitmap(r, old(self).rows_of(h));
                match (old(self).vec_at(h).validity, self.vec_at(h).validity) {
                    (Some(b1), Some(b2)) => {
                        assert(b2@.take(b1@.len() as int) == b1@);
                        assert(b2@[(r / 64) as int] == b2@.take(b1@.len() as int)[(r / 64) as int]);
                    },
                    _ => {},
                }
            }
            if old(self).vec_at(h).payload is Words {
                assert(self.words_of(h).take(old(self).rows_of(h) as int) =~= old(self).words_of(
                    h,
                ));
            }
            if old(self).vec_at(h).payload is Entries {
                assert(self.entries_of(h).take(old(self).rows_of(h) as int) =~= old(
                    self,
                ).entries_of(h));
            }
            Engine::lemma_wf_after_update(old(self), self, h);
        }
    }

    /// What reserving a child guarantees: the parent's child link is set, the
    /// child is live with at least `want` rows, its type is the parent's
    /// element type, and an already materialized child only grows.
    pub open spec fn child_reserved(e1: Engine, e2: Engine, h: usize, c: usize, want: nat) -> bool {
        &&& e2.types@ == e1.types@
        &&& e2.vec_at(h).child == Some(c)
        &&& e2.vec_live(c)
        &&& e2.rows_of(c) >= want
        &&& match e1.vec_at(h).child {
            Some(c0) => c == c0 && Engine::slot_grown(e1, e2, c, want),
            None => {
                &&& c == e1.vectors@.len()
                &&& e2.vectors@.len() == e1.vectors@.len() + 1
                &&& forall|k: int|
                    0 <= k < e1.vectors@.len() && k != h ==> e2.vectors@[k] == e1.vectors@[k]
                &&& e2.vec_at(h) == NativeVector { child: Some(c), ..e1.vec_at(h) }
                &&& e2.fresh_slot(e2.vec_at(c), e2.vec_at(c).ty, want)
            },
        }
    }

    /// The element type a list or array node stores.
    pub open spec fn elem_of(node: TypeNode) -> LogicalTypeHandle {
        match node {
            TypeNode::List { elem } => elem,
            TypeNode::Array { elem, size } => elem,
            _ => arbitrary(),
        }
    }

    /// Materializes (or grows) the child vector of a list or array vector so
    /// it holds at least `capacity` rows, and returns the child's handle.
    pub fn reserve_child(&mut self, h: usize, capacity: usize) -> (c: usize)
        requires
            old(self).wf(),
            old(self).vec_live(h),
            old(self).node(old(self).ty_of(h)) is List || old(self).node(old(self).ty_of(h))
                is Array,
            match old(self).vec_at(h).child {
                Some(c0) => old(self).vec_live(c0),
                None => true,
            },
        ensures
            final (self).wf(),
            Engine::same_shape(*old(self), *final (self)),
            Engine::child_reserved(*old(self), *final (self), h, c, capacity as nat),
            final (self).ty_of(c) == Engine::elem_of(old(self).node(old(self).ty_of(h))),
    {
        proof {
            old(self).lemma_slot_wf_of(h);
        }
        let existing: Option<usize> = self.vectors[h].child;
        match existing {
            Some(c0) => {
                self.grow_rows(c0, capacity);
                c0
            },
            None => {
                let tyh = self.vectors[h].ty;
                let elem = match &self.types[tyh.raw] {
                    TypeNode::List { elem } => *elem,
                    TypeNode::Array { elem, size } => *elem,
                    _ => vstd::pervasive::unreached(),
                };
                let c = self.create_vector(elem, capacity);
                let ghost mid = *self;
                let nv = &mut self.vectors[h];
                nv.child = Some(c);
                proof {
                    mid.lemma_slot_wf_of(h);
                    Engine::lemma_wf_after_update(&mid, self, h);
                }
                c
            },
        }
    }

    /// What reserving a struct child guarantees, in the same shape as
    /// [`Engine::child_reserved`] but against the `idx`-th child slot.
    pub open spec fn struct_child_reserved(
        e1: Engine,
        e2: Engine,
        h: usize,
        idx: nat,
        c: usize,
        want: nat,
    ) -> bool {
        &&& e2.types@ == e1.types@
        &&& e2.vec_at(h).children@.len() == e1.vec_at(h).children@.len()
        &&& e2.vec_at(h).children@[idx as int] == Some(c)
        &&& forall|i: int|
            0 <= i < e1.vec_at(h).children@.len() && i != idx ==> e2.vec_at(h).children@[i] == e1
                .vec_at(h).children@[i]
        &&& e2.vec_live(c)
        &&& e2.rows_of(c) >= want
        &&& match e1.vec_at(h).children@[idx as int] {
            Some(c0) => c == c0 && Engine::slot_grown(e1, e2, c, want),
            None => {
                &&& c == e1.vectors@.len()
                &&& e2.vectors@.len() == e1.vectors@.len() + 1
                &&& forall|k: int|
                    0 <= k < e1.vectors@.len() && k != h ==> e2.vectors@[k] == e1.vectors@[k]
                &&& e2.vec_at(h) == NativeVector {
                    children: e2.vec_at(h).children,
                    ..e1.vec_at(h)
                }
                &&& e2.fresh_slot(e2.vec_at(c), e2.vec_at(c).ty, want)
            },
        }
    }

    /// Materializes (or grows) the `idx`-th named child of a struct vector so
    /// it holds at least `capacity` rows, and returns the child's handle.
    pub fn reserve_struct_child(&mut self, h: usize, idx: usize, capacity: usize) -> (c: usize)
        requires
            old(self).wf(),
            old(self).vec_live(h),
            old(self).node(old(self).ty_of(h)) is Struct,
            idx < old(self).vec_at(h).children@.len(),
            match old(self).vec_at(h).children@[idx as int] {
                Some(c0) => old(self).vec_live(c0),
                None => true,
            },
        ensures
            final (self).wf(),
            Engine::same_shape(*old(self), *final (self)),
            Engine::struct_child_reserved(*old(self), *final (self), h, idx as nat, c, capacity as nat),
            old(self).node(old(self).ty_of(h)) matches TypeNode::Struct { fields }
                && final (self).ty_of(c) == fields@[idx as int].ty,
    {
        proof {
            old(self).lemma_slot_wf_of(h);
        }
        let existing: Option<usize> = self.vectors[h].children[idx];
        match existing {
            Some(c0) => {
                self.grow_rows(c0, capacity);
                c0
            },
            None => {
                let tyh = self.vectors[h].ty;
                let field_ty = match &self.types[tyh.raw] {
                    TypeNode::Struct { fields } => fields[idx].ty,
                    _ => vstd::pervasive::unreached(),
                };
                let c = self.create_vector(field_ty, capacity);
                let ghost mid = *self;
                let nv = &mut self.vectors[h];
                nv.children[idx] = Some(c);
                proof {
                    mid.lemma_slot_wf_of(h);
                    assert(self.vec_at(h).children@ =~= mid.vec_at(h).children@.update(
                        idx as int,
                        Some(c),
                    ));
                    Engine::lemma_wf_after_update(&mid, self, h);
                }
                c
            },
        }
    }

    /// What setting a list's child in one step guarantees: the child is
    /// materialized and live, its first `data.len()` rows carry `data`, and
    /// the list declares exactly `data.len()` materialized elements.
    pub open spec fn list_child_set(e1: Engine, e2: Engine, h: usize, data: Seq<u64>) -> bool {
        &&& e2.vec_at(h).child matches Some(c) && e2.vec_live(c) && data.len() <= e2.rows_of(c)
            && e2.words_of(c).take(data.len() as int) == data
        &&& e2.vec_at(h).list_size == data.len()
    }

    /// Reads the declared total element count of a list vector's child.
    pub fn get_list_size(&self, h: usize) -> (r: usize)
        requires
            self.vec_in_bounds(h),
        ensures
            r == self.vec_at(h).list_size,
    {
        self.vectors[h].list_size
    }

    /// Declares the total materialized element count of a list vector's
    /// child.
    pub fn set_list_size(&mut self, h: usize, n: usize)
        requires
            old(self).wf(),
            old(self).vec_live(h),
        ensures
            final (self).wf(),
            Engine::same_shape(*old(self), *final (self)),
            Engine::only_slot_changed(*old(self), *final (self), h),
            final (self).vec_at(h) == (NativeVector { list_size: n, ..old(self).vec_at(h) }),
    {
        proof {
            old(self).lemma_slot_wf_of(h);
        }
        let nv = &mut self.vectors[h];
        nv.list_size = n;
        proof {
            Engine::lemma_wf_after_update(old(self), self, h);
        }
    }

    /// Reads the logical type of a vector.
    pub fn get_column_type(&self, h: usize) -> (t: LogicalTypeHandle)
        requires
            self.vec_in_bounds(h),
        ensures
            t == self.ty_of(h),
    {
        self.vectors[h].ty
    }

    /// The per-row element count an array type declares.
    pub fn array_type_size(&self, t: LogicalTypeHandle) -> (r: usize)
        requires
            self.ty_ok(t),
            self.node(t) is Array,
        ensures
            self.node(t) matches TypeNode::Array { elem, size } && r == size,
    {
        match &self.types[t.raw] {
            TypeNode::Array { elem, size } => *size,
            _ => vstd::pervasive::unreached(),
        }
    }

    /// The number of named children a struct type declares.
    pub fn struct_type_child_count(&self, t: LogicalTypeHandle) -> (r: usize)
        requires
            self.ty_ok(t),
            self.node(t) is Struct,
        ensures
            self.node(t) matches TypeNode::Struct { fields } && r == fields@.len(),
    {
        match &self.types[t.raw] {
            TypeNode::Struct { fields } => fields.len(),
            _ => vstd::pervasive::unreached(),
        }
    }

    /// The name a struct type declares for its `idx`-th child.
    pub fn struct_type_child_name(&self, t: LogicalTypeHandle, idx: usize) -> (r: String)
        requires
            self.ty_ok(t),
            self.node(t) matches TypeNode::Struct { fields } && idx < fields@.len(),
        ensures
            self.node(t) matches TypeNode::Struct { fields } && r@ == fields@[idx as int].name@,
    {
        match &self.types[t.raw] {
            TypeNode::Struct { fields } => fields[idx].name.clone(),
            _ => vstd::pervasive::unreached(),
        }
    }

    /// What slicing guarantees: only the dictionary state of slot `h` is
    /// set — its buffer, bitmap and logical type are exactly what they were.
    pub open spec fn sliced(e1: Engine, e2: Engine, h: usize, dict_len: u64, idx: Seq<u32>) -> bool {
        &&& Engine::only_slot_changed(e1, e2, h)
        &&& e2.vec_at(h) == (NativeVector {
            dictionary: e2.vec_at(h).dictionary,
            ..e1.vec_at(h)
        })
        &&& e2.vec_at(h).dictionary matches Some(d) && d.dict_len == dict_len && d.indices@ == idx
    }

    /// Reinterprets vector `h` as a dictionary of `dict_len` physical values
    /// read through `indices`. The engine consumes the index buffer; the
    /// vector's storage becomes the dictionary's backing storage, unchanged.
    pub fn slice_vector(&mut self, h: usize, dict_len: u64, indices: Vec<u32>)
        requires
            old(self).wf(),
            old(self).vec_live(h),
            indices@.len() <= dict_len,
        ensures
            final (self).wf(),
            Engine::same_shape(*old(self), *final (self)),
            Engine::sliced(*old(self), *final (self), h, dict_len, indices@),
    {
        proof {
            old(self).lemma_slot_wf_of(h);
        }
        let nv = &mut self.vectors[h];
        nv.dictionary = Some(DictionaryState { dict_len, indices });
        proof {
            Engine::lemma_wf_after_update(old(self), self, h);
        }
    }

    /// Attaches the identifier the engine uses to detect aliased
    /// dictionaries across vectors. The engine keeps the byte buffer alive
    /// for the vector's lifetime.
    pub fn set_dictionary_vector_id(&mut self, h: usize, id: String)
        requires
            old(self).wf(),
            old(self).vec_live(h),
        ensures
            final (self).wf(),
            Engine::same_shape(*old(self), *final (self)),
            Engine::only_slot_changed(*old(self), *final (self), h),
            final (self).vec_at(h) == (NativeVector {
                dictionary_id: final (self).vec_at(h).dictionary_id,
                ..old(self).vec_at(h)
            }),
            final (self).vec_at(h).dictionary_id matches Some(s) && s@ == id@,
    {
        proof {
            old(self).lemma_slot_wf_of(h);
        }
        let nv = &mut self.vectors[h];
        nv.dictionary_id = Some(id);
        proof {
            Engine::lemma_wf_after_update(old(self), self, h);
        }
    }

    /// What assigning a constant guarantees: the buffer collapses to the one
    /// word of the scalar; a null scalar marks that one row invalid, any
    /// other leaves the bitmap absent (all valid).
    pub open spec fn constant_assigned(e1: Engine, e2: Engine, h: usize, word: u64, is_null: bool) -> bool {
        &&& Engine::only_slot_changed(e1, e2, h)
        &&& e2.vec_at(h) == (NativeVector {
            payload: e2.vec_at(h).payload,
            validity: e2.vec_at(h).validity,
            ..e1.vec_at(h)
        })
        &&& e2.vec_at(h).payload is Words
        &&& e2.words_of(h) == seq![word]
        &&& e2.rows_of(h) == 1
        &&& e2.row_null(h, 0) == is_null
    }

    /// Copies one scalar's content into the vector as its constant value:
    /// row 0 carries the scalar's word and the buffer shrinks to that single
    /// row.
    pub fn reference_value(&mut self, h: usize, word: u64, is_null: bool)
        requires
            old(self).wf(),
            old(self).vec_live(h),
            old(self).node(old(self).ty_of(h)) is Scalar,
        ensures
            final (self).wf(),
            Engine::same_shape(*old(self), *final (self)),
            Engine::constant_assigned(*old(self), *final (self), h, word, is_null),
    {
        proof {
            old(self).lemma_slot_wf_of(h);
        }
        let mut w: Vec<u64> = Vec::new();
        w.push(word);
        let validity: Option<Vec<u64>> = if is_null {
            let mut b: Vec<u64> = Vec::new();
            b.push(0xFFFF_FFFF_FFFF_FFFEu64);
            Some(b)
        } else {
            None
        };
        let nv = &mut self.vectors[h];
        nv.payload = Payload::Words(w);
        nv.validity = validity;
        proof {
            assert(self.words_of(h) =~= seq![word]);
            if is_null {
                assert((0xFFFF_FFFF_FFFF_FFFEu64 >> 0u64) & 1 != 1) by (bit_vector);
            }
            Engine::lemma_wf_after_update(old(self), self, h);
        }
    }

    /// What referencing guarantees: `dst` now denotes the same content as
    /// `src` — buffer, bitmap, children, list size and dictionary state —
    /// while keeping its own liveness and logical type.
    pub open spec fn referenced(e1: Engine, e2: Engine, dst: usize, src: usize) -> bool {
        &&& Engine::only_slot_changed(e1, e2, dst)
        &&& e2.vec_at(dst).alive == e1.vec_at(dst).alive
        &&& e2.vec_at(dst).ty == e1.vec_at(dst).ty
        &&& e2.rows_of(dst) == e1.rows_of(src)
        &&& (e1.vec_at(src).payload is Words <==> e2.vec_at(dst).payload is Words)
        &&& (e1.vec_at(src).payload is Blobs <==> e2.vec_at(dst).payload is Blobs)
        &&& (e1.vec_at(src).payload is Entries <==> e2.vec_at(dst).payload is Entries)
        &&& e2.words_of(dst) == e1.words_of(src)
        &&& e2.blobs_of(dst) == e1.blobs_of(src)
        &&& e2.entries_of(dst) == e1.entries_of(src)
        &&& match (e1.vec_at(src).validity, e2.vec_at(dst).validity) {
            (None, None) => true,
            (Some(a), Some(b)) => b@ == a@,
            _ => false,
        }
        &&& e2.vec_at(dst).child == e1.vec_at(src).child
        &&& e2.vec_at(dst).children@ == e1.vec_at(src).children@
        &&& e2.vec_at(dst).list_size == e1.vec_at(src).list_size
        &&& forall|r: nat| r < e1.rows_of(src) ==> e2.row_null(dst, r) == e1.row_null(src, r)
    }

    /// Makes `dst` denote the storage of `src` and adopt its content. The two
    /// handles must carry the same logical type, so every structural fact
    /// about `dst` afterwards is the one that already held of `src`.
    pub fn reference_vector(&mut self, dst: usize, src: usize)
        requires
            old(self).wf(),
            old(self).vec_live(dst),
            old(self).vec_live(src),
            old(self).ty_of(dst) == old(self).ty_of(src),
        ensures
            final (self).wf(),
            Engine::same_shape(*old(self), *final (self)),
            Engine::referenced(*old(self), *final (self), dst, src),
    {
        proof {
            old(self).lemma_slot_wf_of(dst);
            old(self).lemma_slot_wf_of(src);
        }
        let srcv = &self.vectors[src];
        let payload2: Payload = match &srcv.payload {
            Payload::Words(w) => Payload::Words(vstd::slice::slice_to_vec(w.as_slice())),
            Payload::Blobs(b) => Payload::Blobs(clone_blob_rows(b)),
            Payload::Entries(es) => Payload::Entries(vstd::slice::slice_to_vec(es.as_slice())),
        };
        let validity2: Option<Vec<u64>> = match &srcv.validity {
            None => None,
            Some(bits) => Some(vstd::slice::slice_to_vec(bits.as_slice())),
        };
        let child2 = srcv.child;
        let children2: Vec<Option<usize>> = vstd::slice::slice_to_vec(srcv.children.as_slice());
        let list_size2 = srcv.list_size;
        let dict2: Option<DictionaryState> = match &srcv.dictionary {
            None => None,
            Some(d) => Some(
                DictionaryState {
                    dict_len: d.dict_len,
                    indices: vstd::slice::slice_to_vec(d.indices.as_slice()),
                },
            ),
        };
        let dict_id2: Option<String> = match &srcv.dictionary_id {
            None => None,
            Some(s) => Some(s.clone()),
        };
        let nv = &mut self.vectors[dst];
        nv.payload = payload2;
        nv.validity = validity2;
        nv.child = child2;
        nv.children = children2;
        nv.list_size = list_size2;
        nv.dictionary = dict2;
        nv.dictionary_id = dict_id2;
        proof {
            if self.vec_at(dst).payload is Blobs {
                assert(self.blobs_of(dst) =~= old(self).blobs_of(src));
            }
            assert(self.slot_wf(self.vec_at(dst)));
            Engine::lemma_wf_after_update(old(self), self, dst);
        }
    }

    /// What destruction guarantees: the slot is dead, its content and every
    /// other slot are untouched.
    pub open spec fn vector_destroyed(e1: Engine, e2: Engine, h: usize) -> bool {
        &&& e2.types@ == e1.types@
        &&& e2.vectors@.len() == e1.vectors@.len()
        &&& forall|k: int| 0 <= k < e1.vectors@.len() && k != h ==> e2.vectors@[k] == e1.vectors@[k]
        &&& e2.vec_at(h) == NativeVector { alive: false, ..e1.vec_at(h) }
    }

    /// Destroys the vector behind `h`. The handle must be live: destroying a
    /// handle twice would corrupt engine state, which is exactly what the
    /// layer's ownership discipline rules out.
    pub fn destroy_vector(&mut self, h: usize)
        requires
            old(self).wf(),
            old(self).vec_live(h),
        ensures
            final (self).wf(),
            Engine::same_shape(*old(self), *final (self)),
            Engine::vector_destroyed(*old(self), *final (self), h),
    {
        let nv = &mut self.vectors[h];
        nv.alive = false;
        proof {
            Engine::lemma_wf_after_update(old(self), self, h);
        }
    }
}

/// A zeroed word buffer of `n` row slots.
pub open spec fn zero_word_seq(n: nat) -> Seq<u64> {
    Seq::new(n, |i: int| 0u64)
}

/// `n` empty byte-string rows.
pub open spec fn empty_blob_seq(n: nat) -> Seq<Seq<u8>> {
    Seq::new(n, |i: int| Seq::<u8>::empty())
}

/// `n` zeroed list entries.
pub open spec fn zero_entry_seq(n: nat) -> Seq<ListEntry> {
    Seq::new(n, |i: int| ListEntry { offset: 0, length: 0 })
}

fn zero_words(n: usize) -> (r: Vec<u64>)
    ensures
        r@ == zero_word_seq(n as nat),
{
    let mut r: Vec<u64> = Vec::new();
    let mut i: usize = 0;
    while i < n
        invariant
            i <= n,
            r@ == zero_word_seq(i as nat),
        decreases n - i,
    {
        r.push(0u64);
        i = i + 1;
        proof {
            assert(r@ =~= zero_word_seq(i as nat));
        }
    }
    r
}

fn grow_words(v: &mut Vec<u64>, want: usize)
    ensures
        final (v)@.len() == if want > old(v)@.len() {
            want as nat
        } else {
            old(v)@.len()
        },
        final (v)@.take(old(v)@.len() as int) == old(v)@,
{
    while v.len() < want
        invariant
            v@.len() >= old(v)@.len(),
            v@.take(old(v)@.len() as int) == old(v)@,
            want > old(v)@.len() ==> v@.len() <= want,
            want <= old(v)@.len() ==> v@.len() == old(v)@.len(),
        decreases want - v@.len(),
    {
        v.push(0u64);
        proof {
            assert(v@.take(old(v)@.len() as int) =~= old(v)@);
        }
    }
}

fn grow_entries(v: &mut Vec<ListEntry>, want: usize)
    ensures
        final (v)@.len() == if want > old(v)@.len() {
            want as nat
        } else {
            old(v)@.len()
        },
        final (v)@.take(old(v)@.len() as int) == old(v)@,
{
    while v.len() < want
        invariant
            v@.len() >= old(v)@.len(),
            v@.take(old(v)@.len() as int) == old(v)@,
            want > old(v)@.len() ==> v@.len() <= want,
            want <= old(v)@.len() ==> v@.len() == old(v)@.len(),
        decreases want - v@.len(),
    {
        v.push(ListEntry { offset: 0, length: 0 });
        proof {
            assert(v@.take(old(v)@.len() as int) =~= old(v)@);
        }
    }
}

fn grow_blob_rows(v: &mut Vec<Vec<u8>>, want: usize)
    ensures
        final (v)@.len() == if want > old(v)@.len() {
            want as nat
        } else {
            old(v)@.len()
        },
        forall|k: int| 0 <= k < old(v)@.len() ==> #[trigger] final (v)@[k] == old(v)@[k],
{
    while v.len() < want
        invariant
            v@.len() >= old(v)@.len(),
            forall|k: int| 0 <= k < old(v)@.len() ==> #[trigger] v@[k] == old(v)@[k],
            want > old(v)@.len() ==> v@.len() <= want,
            want <= old(v)@.len() ==> v@.len() == old(v)@.len(),
        decreases want - v@.len(),
    {
        v.push(Vec::new());
    }
}

fn grow_valid_words(v: &mut Vec<u64>, want: usize)
    ensures
        final (v)@.len() == if want > old(v)@.len() {
            want as nat
        } else {
            old(v)@.len()
        },
        final (v)@.take(old(v)@.len() as int) == old(v)@,
{
    while v.len() < want
        invariant
            v@.len() >= old(v)@.len(),
            v@.take(old(v)@.len() as int) == old(v)@,
            want > old(v)@.len() ==> v@.len() <= want,
            want <= old(v)@.len() ==> v@.len() == old(v)@.len(),
        decreases want - v@.len(),
    {
        v.push(0xFFFF_FFFF_FFFF_FFFFu64);
        proof {
            assert(v@.take(old(v)@.len() as int) =~= old(v)@);
        }
    }
}

fn clone_blob_rows(b: &Vec<Vec<u8>>) -> (r: Vec<Vec<u8>>)
    ensures
        r@.len() == b@.len(),
        forall|k: int| 0 <= k < b@.len() ==> (#[trigger] r@[k])@ == b@[k]@,
{
    let mut r: Vec<Vec<u8>> = Vec::new();
    let mut i: usize = 0;
    while i < b.len()
        invariant
            i <= b@.len(),
            r@.len() == i,
            forall|k: int| 0 <= k < i ==> (#[trigger] r@[k])@ == b@[k]@,
        decreases b@.len() - i,
    {
        let row: Vec<u8> = vstd::slice::slice_to_vec(b[i].as_slice());
        r.push(row);
        i = i + 1;
    }
    r
}

/// Marking a row invalid twice is idempotent: the second marking leaves the
/// bitmap word for word as the first left it, so no row's nullness — the
/// marked row's or any other's — moves.
pub proof fn lemma_set_null_idempotent(e1: Engine, e2: Engine, e3: Engine, h: usize, row: nat)
    requires
        e1.wf(),
        e1.vec_in_bounds(h),
        row < e1.rows_of(h),
        Engine::row_marked_invalid(e1, e2, h, row),
        Engine::row_marked_invalid(e2, e3, h, row),
    ensures
        e3.vec_at(h).validity->Some_0@ == e2.vec_at(h).validity->Some_0@,
        forall|r: nat| e3.row_null(h, r) == e2.row_null(h, r),
{
    e1.lemma_slot_wf_of(h);
    lemma_row_word_in_bitmap(row, e1.rows_of(h));
    let bits1 = e1.vec_at(h).validity->Some_0@;
    let bits2 = e2.vec_at(h).validity->Some_0@;
    let bits3 = e3.vec_at(h).validity->Some_0@;
    let wi = (row / 64) as int;
    let k = (row % 64) as u64;
    lemma_clear_bit_idempotent(bits1[wi], k);
    assert(bits3 =~= bits2);
}

/// Word counts never shrink when row counts grow.
pub proof fn lemma_words_for_monotone(a: nat, b: nat)
    requires
        a <= b,
    ensures
        words_for(a) <= words_for(b),
{
    lemma_fundamental_div_mod(a as int, 64);
    lemma_fundamental_div_mod(b as int, 64);
    assert(a / 64 <= b / 64) by (nonlinear_arith)
        requires
            a <= b,
    ;
    if a / 64 == b / 64 && a % 64 != 0 {
        assert(b % 64 != 0) by (nonlinear_arith)
            requires
                a <= b,
                a / 64 == b / 64,
                a % 64 != 0,
                a == 64 * (a / 64) + a % 64,
                b == 64 * (b / 64) + b % 64,
        ;
    }
}

fn all_valid_words(n: usize) -> (r: Vec<u64>)
    ensures
        r@ == all_valid_bits(n as nat),
{
    let mut r: Vec<u64> = Vec::new();
    let mut i: usize = 0;
    while i < n
        invariant
            i <= n,
            r@ == all_valid_bits(i as nat),
        decreases n - i,
    {
        r.push(0xFFFF_FFFF_FFFF_FFFFu64);
        i = i + 1;
        proof {
            assert(r@ =~= all_valid_bits(i as nat));
        }
    }
    r
}

fn empty_blob_rows(n: usize) -> (r: Vec<Vec<u8>>)
    ensures
        r@.len() == n,
        forall|k: int| 0 <= k < n ==> (#[trigger] r@[k])@ == Seq::<u8>::empty(),
{
    let mut r: Vec<Vec<u8>> = Vec::new();
    let mut i: usize = 0;
    while i < n
        invariant
            i <= n,
            r@.len() == i,
            forall|k: int| 0 <= k < i ==> (#[trigger] r@[k])@ == Seq::<u8>::empty(),
        decreases n - i,
    {
        r.push(Vec::new());
        i = i + 1;
    }
    r
}

fn zero_entries(n: usize) -> (r: Vec<ListEntry>)
    ensures
        r@ == zero_entry_seq(n as nat),
{
    let mut r: Vec<ListEntry> = Vec::new();
    let mut i: usize = 0;
    while i < n
        invariant
            i <= n,
            r@ == zero_entry_seq(i as nat),
        decreases n - i,
    {
        r.push(ListEntry { offset: 0, length: 0 });
        i = i + 1;
        proof {
            assert(r@ =~= zero_entry_seq(i as nat));
        }
    }
    r
}

fn none_children(n: usize) -> (r: Vec<Option<usize>>)
    ensures
        r@.len() == n,
        forall|i: int| 0 <= i < n ==> (#[trigger] r@[i]) is None,
{
    let mut r: Vec<Option<usize>> = Vec::new();
    let mut i: usize = 0;
    while i < n
        invariant
            i <= n,
            r@.len() == i,
            forall|k: int| 0 <= k < i ==> (#[trigger] r@[k]) is None,
        decreases n - i,
    {
        r.push(None);
        i = i + 1;
    }
    r
}

} // verus!
