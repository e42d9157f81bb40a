use raytracer::exact::scalar_times;
use raytracer::vec3::{Point3, Vec3, VecError};

#[test]
fn test_vec3_basic_operations() {
    let v1 = Vec3::new(1i64, 2, 3);
    let v2 = Vec3::new(2i64, 3, 4);

    assert_eq!(v1.add(&v2), Vec3::new(3, 5, 7));
    assert_eq!(v1.scale(2), Vec3::new(2, 4, 6));
    assert_eq!(v1.dot(&v2), 20);
}

#[test]
fn new_keeps_components_in_order() {
    let v = Vec3::new(7i64, -8, 9);
    assert_eq!(v.x(), 7);
    assert_eq!(v.y(), -8);
    assert_eq!(v.z(), 9);
    assert_eq!(v.component(0), Ok(7));
    assert_eq!(v.component(1), Ok(-8));
    assert_eq!(v.component(2), Ok(9));
}

#[test]
fn container_holds_any_scalar() {
    let p: Point3<f64> = Vec3::new(0.5, -1.25, f64::INFINITY);
    assert_eq!(p.x(), 0.5);
    assert_eq!(p.y(), -1.25);
    assert_eq!(p.z(), f64::INFINITY);
    assert_eq!(p.component(2), Ok(f64::INFINITY));
    let n = Vec3::new(f64::NAN, 0.0, 0.0);
    assert!(n.x().is_nan());
}

#[test]
fn index_three_is_out_of_range() {
    let v = Vec3::new(1i64, 2, 3);
    assert_eq!(v.component(3), Err(VecError::IndexOutOfRange));
    assert_eq!(v.component(usize::MAX), Err(VecError::IndexOutOfRange));
    let f = Vec3::new(1.0f64, 2.0, 3.0);
    assert_eq!(f.component(3), Err(VecError::IndexOutOfRange));
}

#[test]
fn component_mut_borrows_one() {
    let mut v = Vec3::new(1i64, 2, 3);
    match v.component_mut(1) {
        Ok(e) => {
            assert_eq!(*e, 2);
            *e = 50;
        }
        Err(_) => panic!("index 1 names a component"),
    }
    assert_eq!(v, Vec3::new(1, 50, 3));
    *v.component_mut(0).unwrap() += 4;
    *v.component_mut(2).unwrap() -= 4;
    assert_eq!(v, Vec3::new(5, 50, -1));
    assert_eq!(v.component_mut(3), Err(VecError::IndexOutOfRange));
    assert_eq!(v, Vec3::new(5, 50, -1));
}

#[test]
fn zero_is_all_zero() {
    assert_eq!(Vec3::<i64>::zero(), Vec3::new(0, 0, 0));
}

#[test]
fn add_gives_component_sums() {
    let a = Vec3::new(1i64, 2, 3);
    let b = Vec3::new(2i64, 3, 4);
    assert_eq!(a.add(&b), Vec3::new(3, 5, 7));
    assert_eq!(a, Vec3::new(1, 2, 3));
    assert_eq!(b, Vec3::new(2, 3, 4));
}

#[test]
fn add_commutes_and_associates() {
    let a = Vec3::new(5i64, -7, 11);
    let b = Vec3::new(-3i64, 13, 2);
    let c = Vec3::new(100i64, 0, -40);
    assert_eq!(a.add(&b), b.add(&a));
    assert_eq!(a.add(&b).add(&c), a.add(&b.add(&c)));
}

#[test]
fn add_negation_is_zero() {
    let a = Vec3::new(5i64, -7, 11);
    assert_eq!(a.negate(), Vec3::new(-5, 7, -11));
    assert_eq!(a.add(&a.negate()), Vec3::<i64>::zero());
}

#[test]
fn subtract_gives_component_differences() {
    let a = Vec3::new(1i64, 2, 3);
    let b = Vec3::new(2i64, 5, -4);
    assert_eq!(a.subtract(&b), Vec3::new(-1, -3, 7));
}

#[test]
fn add_in_place_changes_the_receiver() {
    let mut a = Vec3::new(1i64, 2, 3);
    let b = Vec3::new(2i64, 3, 4);
    a.add_in_place(&b);
    assert_eq!(a, Vec3::new(3, 5, 7));
    assert_eq!(b, Vec3::new(2, 3, 4));
}

#[test]
fn multiply_elementwise_is_not_dot() {
    let a = Vec3::new(1i64, 2, 3);
    let b = Vec3::new(2i64, 3, 4);
    assert_eq!(a.multiply_elementwise(&b), Vec3::new(2, 6, 12));
}

#[test]
fn scale_composes_and_commutes() {
    let a = Vec3::new(1i64, -2, 3);
    assert_eq!(a.scale(3), Vec3::new(3, -6, 9));
    assert_eq!(a.scale(3).scale(-4), a.scale(-12));
    assert_eq!(scalar_times(3, &a), a.scale(3));
    assert_eq!(scalar_times(0, &a), Vec3::<i64>::zero());
}

#[test]
fn dot_of_distinct_operands() {
    let a = Vec3::new(1i64, 2, 3);
    let b = Vec3::new(2i64, 3, 4);
    assert_eq!(a.dot(&b), 20);
    assert_eq!(b.dot(&a), 20);
    assert_eq!(a.dot(&a), 14);
    assert_eq!(b.dot(&b), 29);
}

#[test]
fn dot_of_large_components() {
    let a = Vec3::new(i64::MAX, i64::MAX, -5);
    let b = Vec3::new(i64::MAX, -i64::MAX, 1);
    assert_eq!(a.dot(&b), -5);
    let c = Vec3::new(i64::MIN, i64::MIN, 1);
    let d = Vec3::new(i64::MIN, i64::MAX, i64::MIN);
    assert_eq!(c.dot(&d), 0);
}

#[test]
fn cross_of_large_components() {
    let a = Vec3::new(0, i64::MAX, i64::MAX);
    let b = Vec3::new(0, i64::MAX, i64::MAX - 1);
    assert_eq!(a.cross(&b), Vec3::new(-i64::MAX, 0, 0));
}

#[test]
fn cross_of_axes() {
    let x = Vec3::new(1i64, 0, 0);
    let y = Vec3::new(0i64, 1, 0);
    let z = Vec3::new(0i64, 0, 1);
    assert_eq!(x.cross(&y), z);
    assert_eq!(y.cross(&z), x);
    assert_eq!(z.cross(&x), y);
}

#[test]
fn cross_formula() {
    let a = Vec3::new(1i64, 2, 3);
    let b = Vec3::new(2i64, 3, 4);
    assert_eq!(a.cross(&b), Vec3::new(-1, 2, -1));
}

#[test]
fn cross_anticommutes_and_vanishes_on_parallels() {
    let a = Vec3::new(3i64, -4, 5);
    let b = Vec3::new(-6i64, 7, 8);
    assert_eq!(a.cross(&b), b.cross(&a).negate());
    assert_eq!(a.cross(&a), Vec3::<i64>::zero());
    assert_eq!(a.cross(&a.scale(-9)), Vec3::<i64>::zero());
    assert_eq!(a.cross(&Vec3::<i64>::zero()), Vec3::<i64>::zero());
}

#[test]
fn length_squared_sums_own_squares() {
    assert_eq!(Vec3::new(1i64, 2, 3).length_squared(), 14);
    assert_eq!(Vec3::new(-3i64, 4, 0).length_squared(), 25);
    assert_eq!(Vec3::<i64>::zero().length_squared(), 0);
}

#[test]
fn display_string_of_integral_components() {
    assert_eq!(Vec3::new(1i64, 2, 3).to_display_string(), "1 2 3");
    assert_eq!(Vec3::new(0i64, -10, 305).to_display_string(), "0 -10 305");
    assert_eq!(
        Vec3::new(i64::MIN, i64::MAX, 0).to_display_string(),
        "-9223372036854775808 9223372036854775807 0"
    );
}
