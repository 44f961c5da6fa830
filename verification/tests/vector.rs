use nidhogg::types::{FillExt, Vector2, Vector3};

#[test]
fn test_vector2_add_sub() {
    let vec1 = Vector2::<f32> { x: 2f32, y: 3f32 };
    let vec2 = Vector2::<f32> { x: 1f32, y: 2f32 };

    assert_eq!(vec1 + vec2, Vector2 { x: 3f32, y: 5f32 },);
    assert_eq!(vec1 - vec2, Vector2 { x: 1f32, y: 1f32 },);
}

#[test]
fn test_vector2_mul_div() {
    let vec1 = Vector2::<f32> { x: 8f32, y: 24f32 };
    let vec2 = Vector2::<f32> { x: 2f32, y: 6f32 };

    assert_eq!(
        vec1 * vec2,
        Vector2 {
            x: 16f32,
            y: 144f32,
        },
    );
    assert_eq!(vec1 / vec2, Vector2 { x: 4f32, y: 4f32 },);
}

#[test]
fn test_vector2_sum() {
    let vec1 = Vector2::<f32> { x: 1f32, y: 1f32 };
    let vec2 = Vector2::<f32> { x: 2f32, y: 2f32 };
    let vec3 = Vector2::<f32> { x: 3f32, y: 3f32 };

    let array = [vec1, vec2, vec3];

    assert_eq!(
        Vector2::<f32>::sum(array.iter().copied()),
        Vector2 { x: 6f32, y: 6f32 },
    );
}

#[test]
fn test_vector2_fill() {
    let vec = Vector2::fill(73f32);

    assert_eq!(vec, Vector2 { x: 73f32, y: 73f32 })
}

#[test]
fn test_vector3_add_sub() {
    let vec1 = Vector3::<f32> {
        x: 2f32,
        y: 3f32,
        z: 4f32,
    };
    let vec2 = Vector3::<f32> {
        x: 1f32,
        y: 2f32,
        z: 3f32,
    };

    assert_eq!(
        vec1 + vec2,
        Vector3 {
            x: 3f32,
            y: 5f32,
            z: 7f32,
        },
    );
    assert_eq!(
        vec1 - vec2,
        Vector3 {
            x: 1f32,
            y: 1f32,
            z: 1f32,
        },
    );
}

#[test]
fn test_vector3_mul_div() {
    let vec1 = Vector3::<f32> {
        x: 8f32,
        y: 24f32,
        z: 40f32,
    };
    let vec2 = Vector3::<f32> {
        x: 2f32,
        y: 6f32,
        z: 10f32,
    };

    assert_eq!(
        vec1 * vec2,
        Vector3 {
            x: 16f32,
            y: 144f32,
            z: 400f32,
        },
    );
    assert_eq!(
        vec1 / vec2,
        Vector3 {
            x: 4f32,
            y: 4f32,
            z: 4f32,
        },
    );
}

#[test]
fn test_vector3_sum() {
    let vec1 = Vector3::<f32> {
        x: 1f32,
        y: 1f32,
        z: 1f32,
    };
    let vec2 = Vector3::<f32> {
        x: 2f32,
        y: 2f32,
        z: 2f32,
    };
    let vec3 = Vector3::<f32> {
        x: 3f32,
        y: 3f32,
        z: 3f32,
    };

    let array = [vec1, vec2, vec3];

    assert_eq!(
        Vector3::<f32>::sum(array.iter().copied()),
        Vector3 {
            x: 6f32,
            y: 6f32,
            z: 6f32,
        },
    );
}

#[test]
fn test_vector3_fill() {
    let vec = Vector3::fill(73f32);

    assert_eq!(
        vec,
        Vector3 {
            x: 73f32,
            y: 73f32,
            z: 73f32,
        }
    )
}

#[test]
fn vectors_take_references_on_either_side() {
    let a = Vector2 { x: 8, y: 24 };
    let b = Vector2 { x: 2, y: 6 };
    assert_eq!(a + &b, Vector2 { x: 10, y: 30 });
    assert_eq!(&a + b, Vector2 { x: 10, y: 30 });
    assert_eq!(&a + &b, Vector2 { x: 10, y: 30 });
    assert_eq!(a - &b, Vector2 { x: 6, y: 18 });
    assert_eq!(&a - b, Vector2 { x: 6, y: 18 });
    assert_eq!(&a - &b, Vector2 { x: 6, y: 18 });
    assert_eq!(a * &b, Vector2 { x: 16, y: 144 });
    assert_eq!(&a * b, Vector2 { x: 16, y: 144 });
    assert_eq!(&a * &b, Vector2 { x: 16, y: 144 });
    assert_eq!(a / &b, Vector2 { x: 4, y: 4 });
    assert_eq!(&a / b, Vector2 { x: 4, y: 4 });
    assert_eq!(&a / &b, Vector2 { x: 4, y: 4 });

    let c = Vector3 { x: 8, y: 24, z: 40 };
    let d = Vector3 { x: 2, y: 6, z: 10 };
    assert_eq!(c + &d, Vector3 { x: 10, y: 30, z: 50 });
    assert_eq!(&c + d, Vector3 { x: 10, y: 30, z: 50 });
    assert_eq!(&c + &d, Vector3 { x: 10, y: 30, z: 50 });
    assert_eq!(c - &d, Vector3 { x: 6, y: 18, z: 30 });
    assert_eq!(&c - d, Vector3 { x: 6, y: 18, z: 30 });
    assert_eq!(&c - &d, Vector3 { x: 6, y: 18, z: 30 });
    assert_eq!(c * &d, Vector3 { x: 16, y: 144, z: 400 });
    assert_eq!(&c * d, Vector3 { x: 16, y: 144, z: 400 });
    assert_eq!(&c * &d, Vector3 { x: 16, y: 144, z: 400 });
    assert_eq!(c / &d, Vector3 { x: 4, y: 4, z: 4 });
    assert_eq!(&c / d, Vector3 { x: 4, y: 4, z: 4 });
    assert_eq!(&c / &d, Vector3 { x: 4, y: 4, z: 4 });
}

#[test]
fn sum_of_no_vectors_is_the_default_vector() {
    assert_eq!(
        Vector2::<i32>::sum(Vec::new().into_iter()),
        Vector2 { x: 0, y: 0 }
    );
    assert_eq!(
        Vector3::<i32>::sum(vec![Vector3 { x: 1, y: 2, z: 3 }].into_iter()),
        Vector3 { x: 1, y: 2, z: 3 }
    );
}
