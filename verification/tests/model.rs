use rtile_types::interner::TypeInterner;
use rtile_types::ty::Dimension;
use rtile_types::ty::Shape;
use rtile_types::ty::Integer;
use rtile_types::ty::TypeError;
use rtile_types::ty::TypeInstance;

#[test]
fn dimension_fixed() {
    let d = Dimension::fixed(4);
    assert!(!d.is_dyn());
    assert_eq!(d.as_fixed(), Some(4));
    assert_eq!(d.0, 4);
}

#[test]
fn dimension_dynamic() {
    let d = Dimension::dynamic();
    assert!(d.is_dyn());
    assert_eq!(d.as_fixed(), None);
    assert_eq!(d.0, i64::MIN);
}

#[test]
fn dimension_zero_is_fixed() {
    let d = Dimension::fixed(0);
    assert!(!d.is_dyn());
    assert_eq!(d.as_fixed(), Some(0));
}

#[test]
fn dimension_fixed_largest_magnitude() {
    let size = i64::MAX as usize;
    let d = Dimension::fixed(size);
    assert!(!d.is_dyn());
    assert_eq!(d.as_fixed(), Some(size));
}

#[test]
fn rank_zero_shapes_are_scalar() {
    let mut interner = TypeInterner::new();
    let elem = interner.i32();
    // Length zero denotes a scalar shape: an empty tile and a rank-zero
    // view are both legal and canonicalize like any other value.
    let t1 = interner.tile(vec![], elem).unwrap_or_else(|_| panic!("empty tile rejected"));
    let t2 = interner.tile(vec![], elem).unwrap_or_else(|_| panic!("empty tile rejected"));
    assert!(t1 == t2);
    let v1 = interner
        .tensor_view(Shape(vec![]), Shape(vec![]), elem)
        .unwrap_or_else(|_| panic!("rank-zero view rejected"));
    let v2 = interner
        .tensor_view(Shape(vec![]), Shape(vec![]), elem)
        .unwrap_or_else(|_| panic!("rank-zero view rejected"));
    assert!(v1 == v2);
    assert!(t1 != v1);
}

#[test]
fn tile_zero_dimension_rejected() {
    let mut interner = TypeInterner::new();
    let elem = interner.i32();
    let r = interner.tile(vec![4, 0, 2], elem);
    assert!(matches!(r, Err(TypeError::ZeroDimension)));
    // A rejected request interns nothing.
    assert_eq!(interner.len(), 1);
}

#[test]
fn scalar_kinds_are_distinct_slots() {
    let mut interner = TypeInterner::new();
    let handles = [
        interner.i1(),
        interner.i8(),
        interner.i16(),
        interner.i32(),
        interner.i64(),
        interner.float16(),
        interner.float32(),
        interner.float64(),
        interner.bf16(),
        interner.e3m4(),
        interner.e5m2(),
    ];
    for i in 0..handles.len() {
        for j in 0..handles.len() {
            if i != j {
                assert!(handles[i] != handles[j]);
            }
        }
    }
    assert_eq!(interner.len(), 11);
}

#[test]
fn get_reads_back_the_canonical_value() {
    let mut interner = TypeInterner::new();
    let t = interner.i32();
    assert!(matches!(interner.get(t), TypeInstance::Integer(Integer::I32)));
    let p = interner.pointer_to(t);
    match interner.get(p) {
        TypeInstance::Pointer(inner) => assert!(*inner == t),
        _ => panic!("pointer slot holds a non-pointer value"),
    }
}
