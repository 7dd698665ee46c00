// The 3-component engine vector is a plain value type at the raw-call
// boundary; its float fields keep it outside the verified library, so the
// shape is declared here with the fields the engine gives it.

#[derive(Copy, Clone, Debug, PartialEq)]
struct Vector3 {
    x: f32,
    y: f32,
    z: f32,
}

impl Vector3 {
    fn new(x: f32, y: f32, z: f32) -> Vector3 {
        Vector3 { x, y, z }
    }
}

#[test]
fn it_supports_equality() {
    assert_eq!(Vector3::new(1.0, 2.0, 3.0), Vector3::new(1.0, 2.0, 3.0));
}

#[test]
fn it_supports_inequality() {
    assert_ne!(Vector3::new(1.0, 10.0, 100.0), Vector3::new(1.0, 2.0, 3.0));
}
