use twobody::Vector2D;

fn v(x: f64, y: f64) -> Vector2D {
    Vector2D::new(x.to_bits(), y.to_bits())
}

fn fx(a: &Vector2D) -> f64 {
    f64::from_bits(a.x)
}

fn fy(a: &Vector2D) -> f64 {
    f64::from_bits(a.y)
}

#[test]
fn add_is_componentwise_and_exact() {
    let a = v(1.5, -2.25);
    let b = v(2.25, 4.5);
    let s = a.add(&b);
    assert_eq!(s.x, (3.75f64).to_bits());
    assert_eq!(s.y, (2.25f64).to_bits());
}

#[test]
fn sub_is_componentwise_and_exact() {
    let a = v(10.0, 3.5);
    let b = v(4.0, 0.25);
    let d = a.sub(&b);
    assert_eq!(d.x, (6.0f64).to_bits());
    assert_eq!(d.y, (3.25f64).to_bits());
}

#[test]
fn mul_is_componentwise_and_exact() {
    let a = v(1.5, -4.0);
    let b = v(2.0, 0.25);
    let p = a.mul(&b);
    assert_eq!(p.x, (3.0f64).to_bits());
    assert_eq!(p.y, (-1.0f64).to_bits());
}

#[test]
fn mul_is_commutative_on_numeric_values() {
    let pairs = [(1.5, -4.0, 2.0, 0.25), (3.844e8, 1022.0, 6.6743e-11, -7.25), (0.0, -0.0, 5.0, 1e300)];
    for (ax, ay, bx, by) in pairs {
        let a = v(ax, ay);
        let b = v(bx, by);
        let ab = a.mul(&b);
        let ba = b.mul(&a);
        assert_eq!(ab.x, ba.x);
        assert_eq!(ab.y, ba.y);
    }
}

#[test]
fn add_and_sub_are_mutual_inverses_within_tolerance() {
    let pairs = [(1.0, 2.0, 3.0, 4.0), (3.844e8, -1022.0, 5.972e3, 0.125), (1e-5, 7.5, -2.5e7, 3.25)];
    for (ax, ay, bx, by) in pairs {
        let a = v(ax, ay);
        let b = v(bx, by);
        let back = a.sub(&b).add(&b);
        assert!((fx(&back) - ax).abs() <= 1e-9 * (ax.abs() + bx.abs()).max(1.0));
        assert!((fy(&back) - ay).abs() <= 1e-9 * (ay.abs() + by.abs()).max(1.0));
    }
}

#[test]
fn mag_of_three_four_is_five() {
    let a = v(3.0, 4.0);
    assert_eq!(a.mag(), (5.0f64).to_bits());
}

#[test]
fn norm_of_three_four_is_exact_quotients() {
    let a = v(3.0, 4.0);
    let n = a.norm();
    assert_eq!(n.x, (3.0f64 / 5.0f64).to_bits());
    assert_eq!(n.y, (4.0f64 / 5.0f64).to_bits());
}

#[test]
fn mag_of_norm_is_one_within_tolerance() {
    let samples = [(3.0, 4.0), (1.0, 0.0), (-2.5, 7.1), (3.844e8, -1022.0), (1e-3, 2e-3), (6.02e23, 6.02e23)];
    for (x, y) in samples {
        let n = v(x, y).norm();
        let m = f64::from_bits(n.mag());
        assert!((m - 1.0).abs() < 1e-9, "mag(norm(({x}, {y}))) = {m}");
    }
}
