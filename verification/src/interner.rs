//! The hash-consing engine: canonical storage for type values and the
//! `Type` handle.
//!
//! A [`TypeInterner`] owns an append-only store of canonical
//! [`TypeInstance`] slots; once inserted a slot is never mutated or freed,
//! so a slot number is a stable identity for the interner's whole lifetime.
//! [`intern`](TypeInterner::intern) keeps the store free of structural
//! duplicates, which makes handle equality — an O(1) slot comparison —
//! coincide with structural equality of the canonical values.
//!
//! Each interner carries a ghost context brand, chosen at construction and
//! never exposed, and every handle it issues carries the same brand. A
//! handle is only accepted where its brand provably equals the interner's,
//! and no client can ever prove the brands of two separately constructed
//! interners equal, so a handle cannot be used against — or made to nest
//! inside a value destined for — another interner: cross-context misuse is
//! rejected at verification time, not detected at run time.

use vstd::prelude::*;

use crate::ty::AltFloat;
use crate::ty::Dimension;
use crate::ty::IEEEFloat;
use crate::ty::Integer;
use crate::ty::PartitionView;
use crate::ty::Shape;
use crate::ty::TensorView;
use crate::ty::Tile;
use crate::ty::TypeError;
use crate::ty::TypeInstance;
use crate::ty::TypeKey;
use crate::ty::inst_bounded;
use crate::ty::inst_invariant;
use crate::ty::key_of;

verus! {

/// A cheap, copyable handle to one canonical type slot of one interner.
///
/// Two handles of one interner are equal exactly when they name the same
/// canonical slot, which — by the interner's invariant — is exactly when
/// the canonical values they name are structurally equal.
#[derive(Copy, Clone)]
pub struct Type {
    pub(crate) idx: usize,
    pub(crate) ctx: Ghost<int>,
}

impl Type {
    /// The canonical slot this handle names.
    pub closed spec fn slot(self) -> int {
        self.idx as int
    }

    /// The context brand of the interner that issued this handle.
    pub closed spec fn ctx_id(self) -> int {
        self.ctx@
    }

    /// The slot number as a plain value: the handle's identity, usable as a
    /// map or set key by downstream passes (the analogue of hashing a
    /// canonical storage address).
    pub fn slot_index(&self) -> (r: usize)
        ensures
            r == self.slot(),
    {
        self.idx
    }
}

impl PartialEq for Type {
    /// Handle equality is slot identity, never a structural walk.
    fn eq(&self, other: &Self) -> bool {
        self.idx == other.idx
    }
}

impl vstd::std_specs::cmp::PartialEqSpecImpl for Type {
    open spec fn obeys_eq_spec() -> bool {
        true
    }

    open spec fn eq_spec(&self, other: &Self) -> bool {
        self.slot() == other.slot()
    }
}

/// The single owner of all canonical type storage for one compilation
/// context.
///
/// The store is append-only: interning may push one new slot at the end and
/// never disturbs existing slots, so previously issued handles stay valid
/// for the interner's whole lifetime.
pub struct TypeInterner {
    slots: Vec<TypeInstance>,
    ctx: Ghost<int>,
}

impl TypeInterner {
    /// The canonical store: one structural value per slot.
    pub closed spec fn store(self) -> Seq<TypeInstance> {
        self.slots@
    }

    /// This interner's context brand.
    pub closed spec fn ctx_id(self) -> int {
        self.ctx@
    }

    /// Whether `t` is a handle of this interner: branded with this context
    /// and naming an existing slot.
    pub open spec fn valid(self, t: Type) -> bool {
        &&& t.ctx_id() == self.ctx_id()
        &&& 0 <= t.slot() < self.store().len()
    }

    /// The canonical value a valid handle names.
    pub open spec fn value_of(self, t: Type) -> TypeInstance {
        self.store()[t.slot()]
    }

    /// The structural key a valid handle names.
    pub open spec fn key_at(self, t: Type) -> TypeKey {
        key_of(self.value_of(t))
    }

    /// Whether a request may enter this interner: every handle nested in it
    /// must already be a canonical handle of this interner.
    pub open spec fn accepts(self, t: TypeInstance) -> bool {
        inst_bounded(t, self.store().len() as int, self.ctx_id())
    }

    /// The interner's invariant: slots are pairwise structurally distinct
    /// (at most one canonical slot per structural value), every slot's
    /// nested handles are earlier canonical slots of this same interner,
    /// and every slot satisfies the value model's structural invariants.
    pub open spec fn wf(self) -> bool {
        &&& forall|i: int, j: int|
            0 <= i < j < self.store().len() ==> key_of(#[trigger] self.store()[i])
                != key_of(#[trigger] self.store()[j])
        &&& forall|i: int|
            0 <= i < self.store().len() ==> inst_bounded(#[trigger] self.store()[i], i, self.ctx_id())
        &&& forall|i: int| 0 <= i < self.store().len() ==> inst_invariant(#[trigger] self.store()[i])
    }

    /// A fresh, empty interner for a new compilation context.
    ///
    /// Nothing is ever revealed about the new interner's brand, so no two
    /// separately constructed interners can be proven to share one: handles
    /// cannot cross from one to the other.
    pub fn new() -> (r: TypeInterner)
        ensures
            r.wf(),
            r.store().len() == 0,
    {
        TypeInterner { slots: Vec::new(), ctx: Ghost(arbitrary()) }
    }

    /// The number of canonical slots interned so far.
    pub fn len(&self) -> (n: usize)
        ensures
            n == self.store().len(),
    {
        self.slots.len()
    }

    /// What one lookup-or-insert step guarantees: the post-state is well
    /// formed and extends the pre-state, and the returned handle names the
    /// one canonical slot whose value is structurally equal to the request
    /// — so any two requests with equal keys, in any order, are answered by
    /// the same slot. The store either is unchanged (the value was already
    /// canonical) or has exactly the request appended.
    pub open spec fn interned(pre: TypeInterner, post: TypeInterner, r: Type, v: TypeInstance) -> bool {
        &&& post.wf()
        &&& TypeInterner::extends(pre, post)
        &&& post.valid(r)
        &&& post.key_at(r) == key_of(v)
        &&& forall|j: int|
            0 <= j < post.store().len() && key_of(#[trigger] post.store()[j]) == key_of(v)
                ==> j == r.slot()
        &&& (post.store() == pre.store() || post.store() == pre.store().push(v))
    }

    /// Whether `post` is a later state of the same interner as `pre`: the
    /// brand is unchanged and every canonical slot of `pre` is still there,
    /// untouched, in `post`.
    pub open spec fn extends(pre: TypeInterner, post: TypeInterner) -> bool {
        &&& pre.ctx_id() == post.ctx_id()
        &&& pre.store().len() <= post.store().len()
        &&& forall|j: int|
            0 <= j < pre.store().len() ==> #[trigger] post.store()[j] == pre.store()[j]
    }

    /// Canonicalize `ty`: return a handle to the existing canonical slot
    /// whose value is structurally equal to `ty`, or — when none exists —
    /// append `ty` as a new canonical slot and return a handle to it.
    ///
    /// Every handle nested in `ty` must already be canonical in this
    /// interner, so deduplication bottoms out at slot comparisons.
    pub fn intern(&mut self, ty: TypeInstance) -> (r: Type)
        requires
            old(self).wf(),
            old(self).accepts(ty),
            inst_invariant(ty),
        ensures
            TypeInterner::interned(*old(self), *final(self), r, ty),
            (exists|j: int|
                0 <= j < old(self).store().len() && key_of(#[trigger] old(self).store()[j])
                    == key_of(ty)) ==> final(self).store() == old(self).store(),
            !(exists|j: int|
                0 <= j < old(self).store().len() && key_of(#[trigger] old(self).store()[j])
                    == key_of(ty)) ==> final(self).store() == old(self).store().push(ty),
    {
        let found = self.find(&ty);
        match found {
            Some(i) => {
                let r = Type { idx: i, ctx: Ghost(self.ctx@) };
                proof {
                    assert forall|j: int|
                        0 <= j < self.store().len() && key_of(#[trigger] self.store()[j])
                            == key_of(ty) implies j == r.slot() by {
                        if j < r.slot() {
                            assert(key_of(self.store()[j]) != key_of(self.store()[r.slot()]));
                        } else if j > r.slot() {
                            assert(key_of(self.store()[r.slot()]) != key_of(self.store()[j]));
                        }
                    }
                }
                r
            },
            None => {
                let n = self.slots.len();
                self.slots.push(ty);
                let r = Type { idx: n, ctx: Ghost(self.ctx@) };
                proof {
                    assert(self.store() =~= old(self).store().push(ty));
                    assert forall|i: int, j: int|
                        0 <= i < j < self.store().len() implies key_of(#[trigger] self.store()[i])
                        != key_of(#[trigger] self.store()[j]) by {
                        if j < n as int {
                            assert(key_of(old(self).store()[i]) != key_of(old(self).store()[j]));
                        } else {
                            assert(self.store()[j] == ty);
                            assert(key_of(old(self).store()[i]) != key_of(ty));
                        }
                    }
                }
                r
            },
        }
    }

    /// The canonical value a valid handle names, read back from the store.
    pub fn get(&self, t: Type) -> (r: &TypeInstance)
        requires
            self.wf(),
            self.valid(t),
        ensures
            *r == self.value_of(t),
    {
        &self.slots[t.idx]
    }

    /// The singleton handle for the 1-bit integer type.
    pub fn i1(&mut self) -> (r: Type)
        requires
            old(self).wf(),
        ensures
            TypeInterner::interned(
                *old(self),
                *final(self),
                r,
                TypeInstance::Integer(Integer::I1),
            ),
    {
        self.intern(TypeInstance::Integer(Integer::I1))
    }

    /// The singleton handle for the 8-bit integer type.
    pub fn i8(&mut self) -> (r: Type)
        requires
            old(self).wf(),
        ensures
            TypeInterner::interned(
                *old(self),
                *final(self),
                r,
                TypeInstance::Integer(Integer::I8),
            ),
    {
        self.intern(TypeInstance::Integer(Integer::I8))
    }

    /// The singleton handle for the 16-bit integer type.
    pub fn i16(&mut self) -> (r: Type)
        requires
            old(self).wf(),
        ensures
            TypeInterner::interned(
                *old(self),
                *final(self),
                r,
                TypeInstance::Integer(Integer::I16),
            ),
    {
        self.intern(TypeInstance::Integer(Integer::I16))
    }

    /// The singleton handle for the 32-bit integer type.
    pub fn i32(&mut self) -> (r: Type)
        requires
            old(self).wf(),
        ensures
            TypeInterner::interned(
                *old(self),
                *final(self),
                r,
                TypeInstance::Integer(Integer::I32),
            ),
    {
        self.intern(TypeInstance::Integer(Integer::I32))
    }

    /// The singleton handle for the 64-bit integer type.
    pub fn i64(&mut self) -> (r: Type)
        requires
            old(self).wf(),
        ensures
            TypeInterner::interned(
                *old(self),
                *final(self),
                r,
                TypeInstance::Integer(Integer::I64),
            ),
    {
        self.intern(TypeInstance::Integer(Integer::I64))
    }

    /// The singleton handle for the 16-bit IEEE float type.
    pub fn float16(&mut self) -> (r: Type)
        requires
            old(self).wf(),
        ensures
            TypeInterner::interned(
                *old(self),
                *final(self),
                r,
                TypeInstance::Float(IEEEFloat::F16),
            ),
    {
        self.intern(TypeInstance::Float(IEEEFloat::F16))
    }

    /// The singleton handle for the 32-bit IEEE float type.
    pub fn float32(&mut self) -> (r: Type)
        requires
            old(self).wf(),
        ensures
            TypeInterner::interned(
                *old(self),
                *final(self),
                r,
                TypeInstance::Float(IEEEFloat::F32),
            ),
    {
        self.intern(TypeInstance::Float(IEEEFloat::F32))
    }

    /// The singleton handle for the 64-bit IEEE float type.
    pub fn float64(&mut self) -> (r: Type)
        requires
            old(self).wf(),
        ensures
            TypeInterner::interned(
                *old(self),
                *final(self),
                r,
                TypeInstance::Float(IEEEFloat::F64),
            ),
    {
        self.intern(TypeInstance::Float(IEEEFloat::F64))
    }

    /// The singleton handle for the bfloat16 type.
    pub fn bf16(&mut self) -> (r: Type)
        requires
            old(self).wf(),
        ensures
            TypeInterner::interned(
                *old(self),
                *final(self),
                r,
                TypeInstance::AltFloat(AltFloat::BF16),
            ),
    {
        self.intern(TypeInstance::AltFloat(AltFloat::BF16))
    }

    /// The singleton handle for the e3m4 float type.
    pub fn e3m4(&mut self) -> (r: Type)
        requires
            old(self).wf(),
        ensures
            TypeInterner::interned(
                *old(self),
                *final(self),
                r,
                TypeInstance::AltFloat(AltFloat::E3M4),
            ),
    {
        self.intern(TypeInstance::AltFloat(AltFloat::E3M4))
    }

    /// The singleton handle for the e5m2 float type.
    pub fn e5m2(&mut self) -> (r: Type)
        requires
            old(self).wf(),
        ensures
            TypeInterner::interned(
                *old(self),
                *final(self),
                r,
                TypeInstance::AltFloat(AltFloat::E5M2),
            ),
    {
        self.intern(TypeInstance::AltFloat(AltFloat::E5M2))
    }

    /// A handle for the pointer-to-`elem` type.
    pub fn pointer_to(&mut self, elem: Type) -> (r: Type)
        requires
            old(self).wf(),
            old(self).valid(elem),
        ensures
            TypeInterner::interned(*old(self), *final(self), r, TypeInstance::Pointer(elem)),
    {
        self.intern(TypeInstance::Pointer(elem))
    }

    /// A handle for the tile type with the given extents over `elem`,
    /// rejected when some extent is zero.
    pub fn tile(&mut self, dims: Vec<usize>, elem: Type) -> (r: Result<Type, TypeError>)
        requires
            old(self).wf(),
            old(self).valid(elem),
        ensures
            match r {
                Ok(t) => (forall|i: int| 0 <= i < dims@.len() ==> dims@[i] > 0)
                    && TypeInterner::interned(
                    *old(self),
                    *final(self),
                    t,
                    crate::ty::tile_instance(dims, elem),
                ),
                Err(e) => {
                    &&& e == TypeError::ZeroDimension
                    &&& !(forall|i: int| 0 <= i < dims@.len() ==> dims@[i] > 0)
                    &&& *final(self) == *old(self)
                },
            },
    {
        let mut i: usize = 0;
        while i < dims.len()
            invariant
                i <= dims@.len(),
                forall|j: int| 0 <= j < i ==> dims@[j] > 0,
            decreases dims@.len() - i,
        {
            if dims[i] == 0 {
                proof {
                    assert(dims@[i as int] == 0);
                }
                return Err(TypeError::ZeroDimension);
            }
            i = i + 1;
        }
        Ok(self.intern(TypeInstance::Tile(Tile { dims, elem })))
    }

    /// A handle for the tensor-view type over the given shape and strides,
    /// rejected when the two do not have one stride per axis.
    pub fn tensor_view(&mut self, shape: Shape, strides: Shape, ty: Type) -> (r: Result<
        Type,
        TypeError,
    >)
        requires
            old(self).wf(),
            old(self).valid(ty),
        ensures
            match r {
                Ok(t) => shape.0@.len() == strides.0@.len() && TypeInterner::interned(
                    *old(self),
                    *final(self),
                    t,
                    crate::ty::view_instance(shape, strides, ty),
                ),
                Err(e) => {
                    &&& e == TypeError::RankMismatch
                    &&& shape.0@.len() != strides.0@.len()
                    &&& *final(self) == *old(self)
                },
            },
    {
        if shape.0.len() != strides.0.len() {
            return Err(TypeError::RankMismatch);
        }
        Ok(self.intern(TypeInstance::TensorView(TensorView { shape, strides, ty })))
    }

    /// A handle for the partition-view type over the given tile shape,
    /// original view, dimension map and mask flag, rejected when the map
    /// does not give one entry per output axis of the tile shape.
    pub fn partition_view(
        &mut self,
        tile_shape: Vec<usize>,
        original_view: Type,
        dimension_map: Vec<i32>,
        masked: bool,
    ) -> (r: Result<Type, TypeError>)
        requires
            old(self).wf(),
            old(self).valid(original_view),
        ensures
            match r {
                Ok(t) => dimension_map@.len() == tile_shape@.len() && TypeInterner::interned(
                    *old(self),
                    *final(self),
                    t,
                    crate::ty::part_instance(tile_shape, original_view, dimension_map, masked),
                ),
                Err(e) => {
                    &&& e == TypeError::DimensionMapMismatch
                    &&& dimension_map@.len() != tile_shape@.len()
                    &&& *final(self) == *old(self)
                },
            },
    {
        if dimension_map.len() != tile_shape.len() {
            return Err(TypeError::DimensionMapMismatch);
        }
        Ok(
            self.intern(
                TypeInstance::PartitionView(
                    PartitionView { tile_shape, original_view, dimension_map, masked },
                ),
            ),
        )
    }

    /// Scan the store for a slot structurally equal to `ty`.
    fn find(&self, ty: &TypeInstance) -> (r: Option<usize>)
        ensures
            match r {
                Some(i) => i < self.store().len() && key_of(self.store()[i as int]) == key_of(*ty),
                None => forall|j: int|
                    0 <= j < self.store().len() ==> key_of(#[trigger] self.store()[j]) != key_of(*ty),
            },
    {
        let n = self.slots.len();
        let mut i: usize = 0;
        while i < n
            invariant
                i <= n,
                n == self.store().len(),
                forall|j: int| 0 <= j < i ==> key_of(#[trigger] self.store()[j]) != key_of(*ty),
            decreases n - i,
        {
            if inst_eq(&self.slots[i], ty) {
                return Some(i);
            }
            i = i + 1;
        }
        None
    }
}

/// Structural equality of two instances, decided without any identity
/// information: variant tags, plain contents, and nested canonical slots.
fn inst_eq(a: &TypeInstance, b: &TypeInstance) -> (r: bool)
    ensures
        r == (key_of(*a) == key_of(*b)),
{
    match (a, b) {
        (TypeInstance::Integer(x), TypeInstance::Integer(y)) => *x == *y,
        (TypeInstance::Float(x), TypeInstance::Float(y)) => *x == *y,
        (TypeInstance::AltFloat(x), TypeInstance::AltFloat(y)) => *x == *y,
        (TypeInstance::Pointer(x), TypeInstance::Pointer(y)) => *x == *y,
        (TypeInstance::Tile(x), TypeInstance::Tile(y)) => {
            usize_vec_eq(&x.dims, &y.dims) && x.elem == y.elem
        },
        (TypeInstance::TensorView(x), TypeInstance::TensorView(y)) => {
            dim_vec_eq(&x.shape.0, &y.shape.0) && dim_vec_eq(&x.strides.0, &y.strides.0)
                && x.ty == y.ty
        },
        (TypeInstance::PartitionView(x), TypeInstance::PartitionView(y)) => {
            usize_vec_eq(&x.tile_shape, &y.tile_shape) && x.original_view == y.original_view
                && i32_vec_eq(&x.dimension_map, &y.dimension_map) && x.masked == y.masked
        },
        _ => false,
    }
}

/// Element-wise equality of two extent lists.
fn usize_vec_eq(a: &Vec<usize>, b: &Vec<usize>) -> (r: bool)
    ensures
        r == (a@ == b@),
{
    if a.len() != b.len() {
        return false;
    }
    let mut i: usize = 0;
    while i < a.len()
        invariant
            i <= a@.len(),
            a@.len() == b@.len(),
            forall|j: int| 0 <= j < i ==> a@[j] == b@[j],
        decreases a@.len() - i,
    {
        if a[i] != b[i] {
            return false;
        }
        i = i + 1;
    }
    proof {
        assert(a@ =~= b@);
    }
    true
}

/// Element-wise equality of two dimension lists.
fn dim_vec_eq(a: &Vec<Dimension>, b: &Vec<Dimension>) -> (r: bool)
    ensures
        r == (a@ == b@),
{
    if a.len() != b.len() {
        return false;
    }
    let mut i: usize = 0;
    while i < a.len()
        invariant
            i <= a@.len(),
            a@.len() == b@.len(),
            forall|j: int| 0 <= j < i ==> a@[j] == b@[j],
        decreases a@.len() - i,
    {
        if a[i].0 != b[i].0 {
            return false;
        }
        i = i + 1;
    }
    proof {
        assert(a@ =~= b@);
    }
    true
}

/// Element-wise equality of two dimension maps.
fn i32_vec_eq(a: &Vec<i32>, b: &Vec<i32>) -> (r: bool)
    ensures
        r == (a@ == b@),
{
    if a.len() != b.len() {
        return false;
    }
    let mut i: usize = 0;
    while i < a.len()
        invariant
            i <= a@.len(),
            a@.len() == b@.len(),
            forall|j: int| 0 <= j < i ==> a@[j] == b@[j],
        decreases a@.len() - i,
    {
        if a[i] != b[i] {
            return false;
        }
        i = i + 1;
    }
    proof {
        assert(a@ =~= b@);
    }
    true
}

} // verus!
