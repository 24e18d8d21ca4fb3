//! The type value model: every legal shape of an IR type, together with the
//! structural key that the interning engine deduplicates against.
//!
//! Values of this module carry no identity of their own; two structurally
//! equal instances are indistinguishable data. Identity is given only by the
//! interner in [`crate::interner`]. Compound values never nest raw
//! substructures: they reference already-canonical [`Type`] handles, so
//! structural comparison bottoms out at handle slots.

use vstd::prelude::*;

use crate::interner::Type;

verus! {

/// Fixed-width integer kinds.
#[derive(Copy, Clone, Debug, PartialEq, Eq, Hash, Structural)]
pub enum Integer {
    I1,
    I8,
    I16,
    I32,
    I64,
}

/// Standard IEEE float kinds.
#[derive(Copy, Clone, Debug, PartialEq, Eq, Hash, Structural)]
pub enum IEEEFloat {
    F16,
    F32,
    F64,
}

/// Non-IEEE float encodings.
#[derive(Copy, Clone, Debug, PartialEq, Eq, Hash, Structural)]
pub enum AltFloat {
    BF16,
    E3M4,
    E5M2,
}

/// One axis extent: a signed 64-bit magnitude, where the minimum value is a
/// reserved sentinel meaning "dynamic, unknown at compile time".
///
/// A fixed dimension's magnitude is always non-negative, so the sentinel
/// never collides with a legal magnitude.
#[derive(Copy, Clone, Debug, PartialEq, Eq, Hash, Structural)]
pub struct Dimension(pub i64);

impl Dimension {
    /// Whether this dimension is the dynamic sentinel.
    pub open spec fn is_dyn_spec(self) -> bool {
        self.0 == i64::MIN
    }

    /// A fixed extent of the given size.
    pub fn fixed(size: usize) -> (r: Self)
        requires
            size as int <= i64::MAX as int,
        ensures
            r.0 == size as i64,
            !r.is_dyn_spec(),
    {
        Self(size as i64)
    }

    /// The dynamic (unknown at compile time) extent.
    pub fn dynamic() -> (r: Self)
        ensures
            r.is_dyn_spec(),
    {
        Self(i64::MIN)
    }

    /// Whether this dimension is dynamic.
    pub fn is_dyn(&self) -> (r: bool)
        ensures
            r == self.is_dyn_spec(),
    {
        self.0 == i64::MIN
    }

    /// The fixed magnitude, or `None` for a dynamic dimension.
    pub fn as_fixed(&self) -> (r: Option<usize>)
        requires
            self.is_dyn_spec() || (0 <= self.0 && self.0 as int <= usize::MAX as int),
        ensures
            self.is_dyn_spec() ==> r is None,
            !self.is_dyn_spec() ==> r == Some(self.0 as usize),
    {
        if self.is_dyn() {
            None
        } else {
            Some(self.0 as usize)
        }
    }
}

/// An ordered list of axis extents; order is semantically significant, and
/// length zero denotes a scalar shape.
#[derive(Clone, Debug, PartialEq, Eq, Hash)]
pub struct Shape(pub Vec<Dimension>);

/// A dense, statically shaped block of elements: positive integer extents
/// around one canonical element type.
#[derive(Clone)]
pub struct Tile {
    pub dims: Vec<usize>,
    pub elem: Type,
}

/// A logical multi-dimensional view over storage: a shape and a stride per
/// axis (strides in elements, free to overlap), over a canonical element
/// type.
#[derive(Clone)]
pub struct TensorView {
    pub shape: Shape,
    pub strides: Shape,
    pub ty: Type,
}

/// A re-tiled, re-indexed view derived from an existing view, with an
/// explicit per-output-axis mapping into the original's axes and an optional
/// out-of-bounds mask.
#[derive(Clone)]
pub struct PartitionView {
    pub tile_shape: Vec<usize>,
    pub original_view: Type,
    pub dimension_map: Vec<i32>,
    pub masked: bool,
}

/// A structural-invariant violation, reported when a compound construction
/// request is rejected before it reaches the interner.
#[derive(Copy, Clone, Debug, PartialEq, Eq, Hash, Structural)]
pub enum TypeError {
    /// A tile was requested with a zero extent on some axis.
    ZeroDimension,
    /// A tensor view was requested with a stride count different from its
    /// axis count.
    RankMismatch,
    /// A partition view was requested whose dimension map does not map each
    /// output axis of its tile shape exactly once.
    DimensionMapMismatch,
}

/// The tagged union of every concrete type shape. Recursive positions hold
/// canonical [`Type`] handles, never raw instances.
#[derive(Clone)]
pub enum TypeInstance {
    Integer(Integer),
    Float(IEEEFloat),
    AltFloat(AltFloat),
    Pointer(Type),
    Tile(Tile),
    TensorView(TensorView),
    PartitionView(PartitionView),
}

/// The mathematical content of a [`TypeInstance`]: what structural equality
/// and the interner's deduplication go by. Nested handles are reduced to
/// their canonical slot, so two instances have equal keys exactly when they
/// describe the same type over the same canonical children.
pub enum TypeKey {
    IntKey(Integer),
    FloatKey(IEEEFloat),
    AltKey(AltFloat),
    PtrKey(int),
    TileKey(Seq<usize>, int),
    ViewKey(Seq<Dimension>, Seq<Dimension>, int),
    PartKey(Seq<usize>, int, Seq<i32>, bool),
}

/// The tile instance over the given extents and canonical element.
pub open spec fn tile_instance(dims: Vec<usize>, elem: Type) -> TypeInstance {
    TypeInstance::Tile(Tile { dims, elem })
}

/// The tensor-view instance over the given shape, strides and canonical
/// element type.
pub open spec fn view_instance(shape: Shape, strides: Shape, ty: Type) -> TypeInstance {
    TypeInstance::TensorView(TensorView { shape, strides, ty })
}

/// The partition-view instance over the given tile shape, canonical
/// original view, dimension map and mask flag.
pub open spec fn part_instance(
    tile_shape: Vec<usize>,
    original_view: Type,
    dimension_map: Vec<i32>,
    masked: bool,
) -> TypeInstance {
    TypeInstance::PartitionView(PartitionView { tile_shape, original_view, dimension_map, masked })
}

/// The structural key of an instance.
pub open spec fn key_of(t: TypeInstance) -> TypeKey {
    match t {
        TypeInstance::Integer(i) => TypeKey::IntKey(i),
        TypeInstance::Float(f) => TypeKey::FloatKey(f),
        TypeInstance::AltFloat(a) => TypeKey::AltKey(a),
        TypeInstance::Pointer(p) => TypeKey::PtrKey(p.slot()),
        TypeInstance::Tile(t) => TypeKey::TileKey(t.dims@, t.elem.slot()),
        TypeInstance::TensorView(v) => TypeKey::ViewKey(v.shape.0@, v.strides.0@, v.ty.slot()),
        TypeInstance::PartitionView(p) => TypeKey::PartKey(
            p.tile_shape@,
            p.original_view.slot(),
            p.dimension_map@,
            p.masked,
        ),
    }
}

/// The structural invariants of the value model: a tile's extents are all
/// positive, a tensor view's shape and strides have one stride per axis, and
/// a partition view maps each output axis of its tile shape.
pub open spec fn inst_invariant(t: TypeInstance) -> bool {
    match t {
        TypeInstance::Tile(tl) => forall|i: int| 0 <= i < tl.dims@.len() ==> tl.dims@[i] > 0,
        TypeInstance::TensorView(v) => v.shape.0@.len() == v.strides.0@.len(),
        TypeInstance::PartitionView(p) => p.dimension_map@.len() == p.tile_shape@.len(),
        _ => true,
    }
}

/// Whether every handle nested in `t` is branded `ctx` and names a slot
/// below `n`: the shape a value must have to enter an interner whose store
/// holds `n` canonical slots under brand `ctx`.
pub open spec fn inst_bounded(t: TypeInstance, n: int, ctx: int) -> bool {
    match t {
        TypeInstance::Integer(_) => true,
        TypeInstance::Float(_) => true,
        TypeInstance::AltFloat(_) => true,
        TypeInstance::Pointer(p) => p.ctx_id() == ctx && 0 <= p.slot() < n,
        TypeInstance::Tile(tl) => tl.elem.ctx_id() == ctx && 0 <= tl.elem.slot() < n,
        TypeInstance::TensorView(v) => v.ty.ctx_id() == ctx && 0 <= v.ty.slot() < n,
        TypeInstance::PartitionView(p) => p.original_view.ctx_id() == ctx && 0 <= p.original_view.slot() < n,
    }
}

} // verus!
