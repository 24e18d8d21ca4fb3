use rtile_types::interner::Type;
use rtile_types::interner::TypeInterner;
use rtile_types::ty::Dimension;
use rtile_types::ty::Shape;
use rtile_types::ty::TypeError;

fn expect_ok(r: Result<Type, TypeError>) -> Type {
    match r {
        Ok(t) => t,
        Err(_) => panic!("construction was rejected"),
    }
}

#[test]
fn test_interning() {
    let mut interner = TypeInterner::new();
    let t1 = interner.i32();
    let t2 = interner.i32();
    assert!(t1 == t2);
}

#[test]
fn scalar_idempotence() {
    let mut interner = TypeInterner::new();
    let first = interner.i32();
    for _ in 0..5 {
        let again = interner.i32();
        assert!(again == first);
    }
    assert_eq!(interner.len(), 1);
}

#[test]
fn canonicalization_of_compounds() {
    let mut interner = TypeInterner::new();
    let elem = interner.i32();
    let a = expect_ok(interner.tile(vec![2, 3], elem));
    let b = expect_ok(interner.tile(vec![2, 3], elem));
    assert!(a == b);
    let c = expect_ok(interner.tile(vec![2, 4], elem));
    assert!(a != c);
    let wider = interner.i64();
    let d = expect_ok(interner.tile(vec![2, 3], wider));
    assert!(a != d);
}

#[test]
fn identity_vs_structure_in_two_contexts() {
    let mut first_ctx = TypeInterner::new();
    let mut second_ctx = TypeInterner::new();
    let e1 = first_ctx.i32();
    let e2 = second_ctx.i32();
    let t1 = expect_ok(first_ctx.tile(vec![4, 4], e1));
    let t2 = expect_ok(second_ctx.tile(vec![4, 4], e2));
    // Each context canonicalizes independently; repeat construction inside
    // one context still deduplicates.
    assert!(expect_ok(first_ctx.tile(vec![4, 4], e1)) == t1);
    assert!(expect_ok(second_ctx.tile(vec![4, 4], e2)) == t2);
    assert_eq!(first_ctx.len(), 2);
    assert_eq!(second_ctx.len(), 2);
}

#[test]
fn pointer_compositionality() {
    let mut interner = TypeInterner::new();
    let elem = interner.i32();
    let tile = expect_ok(interner.tile(vec![4, 4], elem));
    let p1 = interner.pointer_to(tile);
    let tile_again = expect_ok(interner.tile(vec![4, 4], elem));
    let p2 = interner.pointer_to(tile_again);
    assert!(p1 == p2);
    let other_tile = expect_ok(interner.tile(vec![4, 8], elem));
    let p3 = interner.pointer_to(other_tile);
    assert!(p1 != p3);
}

#[test]
fn tensor_view_rank_matching() {
    let mut interner = TypeInterner::new();
    let elem = interner.i32();
    let bad = interner.tensor_view(
        Shape(vec![Dimension::dynamic(), Dimension::fixed(8)]),
        Shape(vec![Dimension::fixed(1)]),
        elem,
    );
    assert!(matches!(bad, Err(TypeError::RankMismatch)));

    let v1 = expect_ok(interner.tensor_view(
        Shape(vec![Dimension::dynamic(), Dimension::fixed(8)]),
        Shape(vec![Dimension::fixed(8), Dimension::fixed(1)]),
        elem,
    ));
    let v2 = expect_ok(interner.tensor_view(
        Shape(vec![Dimension::dynamic(), Dimension::fixed(8)]),
        Shape(vec![Dimension::fixed(8), Dimension::fixed(1)]),
        elem,
    ));
    assert!(v1 == v2);
}

#[test]
fn partition_view_mapping_bounds() {
    let mut interner = TypeInterner::new();
    let elem = interner.i32();
    let view = expect_ok(interner.tensor_view(
        Shape(vec![Dimension::dynamic(), Dimension::fixed(8)]),
        Shape(vec![Dimension::fixed(8), Dimension::fixed(1)]),
        elem,
    ));
    let bad = interner.partition_view(vec![4, 4], view, vec![0], true);
    assert!(matches!(bad, Err(TypeError::DimensionMapMismatch)));

    let good = interner.partition_view(vec![4, 4], view, vec![0, 1], true);
    assert!(good.is_ok());
}

#[test]
fn concrete_scenario() {
    let mut interner = TypeInterner::new();
    let a = interner.i32();
    let b = interner.i32();
    assert!(a == b);

    let c = interner.i64();
    assert!(a != c);
    // Handle identity is the slot number, the analogue of hashing the
    // canonical storage address: distinct handles key differently.
    assert_ne!(a.slot_index(), c.slot_index());

    let first_elem = interner.i32();
    let p1 = interner.pointer_to(first_elem);
    let second_elem = interner.i32();
    let p2 = interner.pointer_to(second_elem);
    assert!(p1 == p2);
}

#[test]
fn one_canonical_slot_per_value() {
    let mut interner = TypeInterner::new();
    let elem = interner.i32();
    assert_eq!(interner.len(), 1);
    let mut handles = Vec::new();
    for _ in 0..8 {
        handles.push(expect_ok(interner.tile(vec![16, 16], elem)));
    }
    for h in &handles {
        assert!(*h == handles[0]);
    }
    assert_eq!(interner.len(), 2);
}
