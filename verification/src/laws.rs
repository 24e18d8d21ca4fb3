//! The laws the interning engine obeys, stated and proved over the public
//! specification of [`crate::interner`]: canonicalization, stability of
//! canonical slots across growth, idempotence of repeated requests,
//! compositionality of nested handles, and context-brand separation.

use vstd::prelude::*;

use crate::interner::Type;
use crate::interner::TypeInterner;
use crate::ty::TypeInstance;
use crate::ty::TypeKey;
use crate::ty::key_of;

verus! {

/// Canonicalization: in one well-formed interner, two valid handles name
/// the same slot exactly when the canonical values they name are
/// structurally equal. Identity comparison of handles therefore decides
/// structural equality of types in O(1).
pub proof fn lemma_canonicalization(s: TypeInterner, a: Type, b: Type)
    requires
        s.wf(),
        s.valid(a),
        s.valid(b),
    ensures
        (a.slot() == b.slot()) <==> (s.key_at(a) == s.key_at(b)),
{
    if a.slot() != b.slot() {
        if a.slot() < b.slot() {
            assert(key_of(s.store()[a.slot()]) != key_of(s.store()[b.slot()]));
        } else {
            assert(key_of(s.store()[b.slot()]) != key_of(s.store()[a.slot()]));
        }
    }
}

/// Canonical slots are stable: interning never disturbs an existing slot,
/// so a handle stays valid as its interner grows and keeps naming the same
/// structural value.
pub proof fn lemma_key_stable(pre: TypeInterner, post: TypeInterner, t: Type)
    requires
        TypeInterner::extends(pre, post),
        pre.valid(t),
    ensures
        post.valid(t),
        post.key_at(t) == pre.key_at(t),
        post.value_of(t) == pre.value_of(t),
{
    assert(post.store()[t.slot()] == pre.store()[t.slot()]);
}

/// Canonicalization across two interning steps, in either order: the
/// handles returned for structurally equal requests are equal, and the
/// handles returned for structurally different requests are unequal.
pub proof fn lemma_two_requests(
    s0: TypeInterner,
    s1: TypeInterner,
    s2: TypeInterner,
    r1: Type,
    r2: Type,
    v: TypeInstance,
    w: TypeInstance,
)
    requires
        TypeInterner::interned(s0, s1, r1, v),
        TypeInterner::interned(s1, s2, r2, w),
    ensures
        (r1.slot() == r2.slot()) <==> (key_of(v) == key_of(w)),
{
    lemma_key_stable(s1, s2, r1);
    lemma_canonicalization(s2, r1, r2);
}

/// Extension is transitive: the store only ever grows, so a state reached
/// through any number of interning steps still extends every earlier one.
pub proof fn lemma_extends_transitive(a: TypeInterner, b: TypeInterner, c: TypeInterner)
    requires
        TypeInterner::extends(a, b),
        TypeInterner::extends(b, c),
    ensures
        TypeInterner::extends(a, c),
{
}

/// Order-independence of canonical slots: a handle canonical for a
/// structural value in an earlier state of an interner agrees — same slot,
/// same brand — with any handle canonical for an equal value in any later
/// state. Which call of `intern` came first, or what was interned in
/// between, does not matter.
pub proof fn lemma_intern_agreement(
    pre: TypeInterner,
    post: TypeInterner,
    a: Type,
    b: Type,
    v: TypeInstance,
    w: TypeInstance,
)
    requires
        post.wf(),
        TypeInterner::extends(pre, post),
        pre.valid(a),
        pre.key_at(a) == key_of(v),
        post.valid(b),
        post.key_at(b) == key_of(w),
        forall|j: int|
            0 <= j < post.store().len() && key_of(#[trigger] post.store()[j]) == key_of(w)
                ==> j == b.slot(),
        key_of(v) == key_of(w),
    ensures
        a.slot() == b.slot(),
        a.ctx_id() == b.ctx_id(),
{
    lemma_key_stable(pre, post, a);
}

/// Idempotence: once a structural value has a canonical slot, every later
/// request for an equal value — in particular every repeat of a scalar
/// accessor — is answered by a handle to that same slot.
pub proof fn lemma_idempotence(
    pre: TypeInterner,
    post: TypeInterner,
    first: Type,
    again: Type,
    v: TypeInstance,
)
    requires
        TypeInterner::interned(pre, post, again, v),
        pre.valid(first),
        pre.key_at(first) == key_of(v),
    ensures
        first.slot() == again.slot(),
        first.ctx_id() == again.ctx_id(),
{
    lemma_intern_agreement(pre, post, first, again, v, v);
}

/// Context-brand separation: a handle is valid for interners of one brand
/// only, so interners of different brands share no handles — and since no
/// client can ever prove two separately constructed interners to share a
/// brand, no client can use a handle of one against the other, however
/// structurally alike their contents are.
pub proof fn lemma_brand_separation(s1: TypeInterner, s2: TypeInterner, t: Type)
    requires
        s1.ctx_id() != s2.ctx_id(),
        s1.valid(t),
    ensures
        !s2.valid(t),
{
}

/// Compositionality of pointers: two canonical pointer slots are equal
/// exactly when their pointee handles are equal. Building a pointer twice
/// over one canonical element yields one handle; changing the element
/// changes the handle.
pub proof fn lemma_pointer_compositionality(s: TypeInterner, pa: Type, pb: Type, a: Type, b: Type)
    requires
        s.wf(),
        s.valid(pa),
        s.valid(pb),
        s.key_at(pa) == TypeKey::PtrKey(a.slot()),
        s.key_at(pb) == TypeKey::PtrKey(b.slot()),
    ensures
        (pa.slot() == pb.slot()) <==> (a.slot() == b.slot()),
{
    lemma_canonicalization(s, pa, pb);
}

/// Compositionality of tiles: two canonical tile slots are equal exactly
/// when their extents and their element handles are equal. Changing any
/// nested field — one extent, or the element type — changes the handle.
pub proof fn lemma_tile_compositionality(
    s: TypeInterner,
    ta: Type,
    tb: Type,
    dims_a: Seq<usize>,
    ea: Type,
    dims_b: Seq<usize>,
    eb: Type,
)
    requires
        s.wf(),
        s.valid(ta),
        s.valid(tb),
        s.key_at(ta) == TypeKey::TileKey(dims_a, ea.slot()),
        s.key_at(tb) == TypeKey::TileKey(dims_b, eb.slot()),
    ensures
        (ta.slot() == tb.slot()) <==> (dims_a == dims_b && ea.slot() == eb.slot()),
{
    lemma_canonicalization(s, ta, tb);
}

} // verus!
