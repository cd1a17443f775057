use mesh_dedup::cframe::{CFrame, Matrix3, Vector2, Vector3};

fn v3(x: f32, y: f32, z: f32) -> Vector3 {
    Vector3 { x: x.to_bits(), y: y.to_bits(), z: z.to_bits() }
}

fn identity() -> Matrix3 {
    Matrix3 { x: v3(1.0, 0.0, 0.0), y: v3(0.0, 1.0, 0.0), z: v3(0.0, 0.0, 1.0) }
}

#[test]
fn vector_arithmetic_matches_f32() {
    let a = v3(1.5, -2.0, 0.25);
    let b = v3(4.0, 0.5, -8.0);
    let sum = a.add(b);
    assert_eq!(sum, v3(1.5 + 4.0, -2.0 + 0.5, 0.25 + -8.0));
    let diff = a.sub(b);
    assert_eq!(diff, v3(1.5 - 4.0, -2.0 - 0.5, 0.25 - -8.0));
    let scaled = a.mult(3.0f32.to_bits());
    assert_eq!(scaled, v3(1.5 * 3.0, -2.0 * 3.0, 0.25 * 3.0));
    let prod = a.mult_vec(b);
    assert_eq!(prod, v3(1.5 * 4.0, -2.0 * 0.5, 0.25 * -8.0));
}

#[test]
fn dot_and_cross_match_f32() {
    let a = v3(1.0, 2.0, 3.0);
    let b = v3(-4.0, 5.0, 0.5);
    let d = f32::from_bits(a.dot(b));
    assert_eq!(d, 1.0 * -4.0 + 2.0 * 5.0 + 3.0 * 0.5);
    let c = a.cross(b);
    assert_eq!(
        c,
        v3(
            2.0 * 0.5 - 5.0 * 3.0,
            3.0 * -4.0 - 0.5 * 1.0,
            1.0 * 5.0 - -4.0 * 2.0,
        )
    );
}

#[test]
fn normalize_divides_by_squared_magnitude() {
    let a = v3(2.0, 0.0, 0.0);
    // dot(a, a) = 4, so every component is divided by 4
    assert_eq!(a.normalize(), v3(0.5, 0.0, 0.0));
    let b = Vector2 { x: 3.0f32.to_bits(), y: 4.0f32.to_bits() };
    // dot = 25
    let nb = b.normalize();
    assert_eq!(f32::from_bits(nb.x), 3.0 / 25.0);
    assert_eq!(f32::from_bits(nb.y), 4.0 / 25.0);
}

#[test]
fn basis_vectors() {
    assert_eq!(Vector3::UP(), v3(0.0, 1.0, 0.0));
    assert_eq!(Vector3::BACK(), v3(0.0, 0.0, 1.0));
    assert_eq!(Vector3::RIGHT(), v3(1.0, 0.0, 0.0));
}

#[test]
fn default_frames_are_identity() {
    let m = Matrix3::default();
    assert_eq!(m, identity());
    let cf = CFrame::default();
    assert_eq!(cf.position, v3(0.0, 0.0, 0.0));
    assert_eq!(cf.orientation, identity());
}

#[test]
fn components_round_trip() {
    let cf = CFrame {
        position: v3(1.0, 2.0, 3.0),
        orientation: Matrix3 {
            x: v3(0.0, 1.0, 0.0),
            y: v3(-1.0, 0.0, 0.0),
            z: v3(0.0, 0.0, 1.0),
        },
    };
    let c = cf.components();
    assert_eq!(c[0], 1.0f32.to_bits());
    assert_eq!(c[5], 0.0f32.to_bits());
    assert_eq!(c[15], 1.0f32.to_bits());
    let back = CFrame::from_components(&c);
    assert_eq!(back, cf);
}

#[test]
fn from_xyz_is_translation() {
    let cf = CFrame::from_xyz(5.0f32.to_bits(), 6.0f32.to_bits(), 7.0f32.to_bits());
    assert_eq!(cf.position, v3(5.0, 6.0, 7.0));
    assert_eq!(cf.orientation, identity());
}

#[test]
fn mult_matches_f32_matrix_product() {
    let a = CFrame {
        position: v3(1.0, 2.0, 3.0),
        orientation: Matrix3 {
            x: v3(0.5, 1.0, -2.0),
            y: v3(4.0, 0.25, 1.0),
            z: v3(-1.0, 3.0, 2.0),
        },
    };
    let b = CFrame {
        position: v3(-2.0, 0.5, 4.0),
        orientation: Matrix3 {
            x: v3(1.0, 0.0, 2.0),
            y: v3(0.0, 3.0, 1.0),
            z: v3(-1.0, 1.0, 0.5),
        },
    };
    let r = a.mult(b);
    let am = [[0.5f32, 1.0, -2.0], [4.0, 0.25, 1.0], [-1.0, 3.0, 2.0]];
    let bm = [[1.0f32, 0.0, 2.0], [0.0, 3.0, 1.0], [-1.0, 1.0, 0.5]];
    let bp = [-2.0f32, 0.5, 4.0];
    let ap = [1.0f32, 2.0, 3.0];
    let rm = [
        [r.orientation.x.x, r.orientation.x.y, r.orientation.x.z],
        [r.orientation.y.x, r.orientation.y.y, r.orientation.y.z],
        [r.orientation.z.x, r.orientation.z.y, r.orientation.z.z],
    ];
    for i in 0..3 {
        for j in 0..3 {
            let expect = am[i][0] * bm[0][j] + am[i][1] * bm[1][j] + am[i][2] * bm[2][j];
            assert_eq!(rm[i][j], expect.to_bits(), "entry {i},{j}");
        }
    }
    let rp = [r.position.x, r.position.y, r.position.z];
    for i in 0..3 {
        let expect = am[i][0] * bp[0] + am[i][1] * bp[1] + am[i][2] * bp[2] + ap[i];
        assert_eq!(rp[i], expect.to_bits(), "position {i}");
    }
}

#[test]
fn mult_by_identity_keeps_positive_frame() {
    let a = CFrame { position: v3(1.0, 2.0, 3.0), orientation: identity() };
    let b = CFrame { position: v3(0.0, 0.0, 0.0), orientation: identity() };
    assert_eq!(a.mult(b), a);
}

#[test]
fn angles_zero_is_identity() {
    let cf = CFrame::angles(0.0f32.to_bits(), 0.0f32.to_bits(), 0.0f32.to_bits());
    assert_eq!(cf.position, v3(0.0, 0.0, 0.0));
    assert_eq!(cf.orientation, identity());
}

#[test]
fn axis_angle_quarter_turn() {
    // rotate BACK about UP by pi/2: cos ~ 0, sin = 1 -> result ~ RIGHT
    let up = Vector3::UP();
    let back = Vector3::BACK();
    let r = up.axis_angle(back, (std::f32::consts::FRAC_PI_2).to_bits());
    let rx = f32::from_bits(r.x);
    let ry = f32::from_bits(r.y);
    let rz = f32::from_bits(r.z);
    assert!((rx - 1.0).abs() < 1e-6, "x was {rx}");
    assert!(ry.abs() < 1e-6, "y was {ry}");
    assert!(rz.abs() < 1e-6, "z was {rz}");
}
