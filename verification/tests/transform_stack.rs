use graphics_core::error::GameError;
use graphics_core::matrix::Matrix4;
use graphics_core::transform::TransformStack;

fn translation(x: i32, y: i32) -> Matrix4 {
    Matrix4::from_entries([1, 0, 0, x, 0, 1, 0, y, 0, 0, 1, 0, 0, 0, 0, 1])
}

fn scaling(sx: i32, sy: i32) -> Matrix4 {
    Matrix4::from_entries([sx, 0, 0, 0, 0, sy, 0, 0, 0, 0, 1, 0, 0, 0, 0, 1])
}

#[test]
fn new_stack_holds_identity() {
    let s = TransformStack::new();
    assert_eq!(s.len(), 1);
    assert_eq!(s.top(), Matrix4::identity());
}

#[test]
fn push_given_matrix_becomes_top() {
    let mut s = TransformStack::new();
    s.push(Some(translation(3, 4)));
    assert_eq!(s.len(), 2);
    assert_eq!(s.top(), translation(3, 4));
}

#[test]
fn push_none_copies_top() {
    let mut s = TransformStack::new();
    s.set(scaling(2, 5));
    s.push(None);
    assert_eq!(s.len(), 2);
    assert_eq!(s.top(), scaling(2, 5));
    s.pop().unwrap();
    assert_eq!(s.top(), scaling(2, 5));
}

#[test]
fn pop_restores_previous_top() {
    let mut s = TransformStack::new();
    s.push(Some(translation(1, 1)));
    s.push(Some(translation(2, 2)));
    assert_eq!(s.pop(), Ok(()));
    assert_eq!(s.top(), translation(1, 1));
    assert_eq!(s.pop(), Ok(()));
    assert_eq!(s.top(), Matrix4::identity());
    assert_eq!(s.len(), 1);
}

#[test]
fn pop_of_last_entry_is_refused() {
    let mut s = TransformStack::new();
    s.set(translation(7, 8));
    assert_eq!(s.pop(), Err(GameError::TransformStackUnderflow));
    assert_eq!(s.len(), 1);
    assert_eq!(s.top(), translation(7, 8));
    assert_eq!(s.pop(), Err(GameError::TransformStackUnderflow));
    assert_eq!(s.top(), translation(7, 8));
}

#[test]
fn origin_resets_top_only() {
    let mut s = TransformStack::new();
    s.set(translation(5, 6));
    s.push(Some(scaling(3, 3)));
    s.origin();
    assert_eq!(s.top(), Matrix4::identity());
    assert_eq!(s.len(), 2);
    s.pop().unwrap();
    assert_eq!(s.top(), translation(5, 6));
}

#[test]
fn mul_multiplies_from_the_left() {
    let mut s = TransformStack::new();
    s.set(translation(10, 20));
    assert_eq!(s.mul(scaling(2, 3)), Ok(()));
    // scale × translate: the translation is scaled too.
    assert_eq!(
        s.top(),
        Matrix4::from_entries([2, 0, 0, 20, 0, 3, 0, 60, 0, 0, 1, 0, 0, 0, 0, 1])
    );
}

#[test]
fn mul_overflow_leaves_stack_unchanged() {
    let mut s = TransformStack::new();
    s.set(scaling(i32::MAX, 1));
    assert_eq!(s.mul(scaling(2, 1)), Err(GameError::MatrixOverflow));
    assert_eq!(s.top(), scaling(i32::MAX, 1));
    assert_eq!(s.len(), 1);
}

#[test]
fn nested_frames_compose_in_push_order() {
    let base = translation(100, 200);
    let m1 = scaling(2, 2);
    let m2 = translation(-3, 5);
    let m3 = scaling(-1, 4);
    let mut s = TransformStack::new();
    s.set(base);
    for m in [m1, m2, m3] {
        s.push(None);
        s.mul(m).unwrap();
    }
    let by_hand = m3
        .checked_mul(&m2.checked_mul(&m1.checked_mul(&base).unwrap()).unwrap())
        .unwrap();
    assert_eq!(s.top(), by_hand);
    assert_eq!(
        by_hand,
        Matrix4::from_entries([-2, 0, 0, -197, 0, 8, 0, 1620, 0, 0, 1, 0, 0, 0, 0, 1])
    );
    assert_eq!(s.len(), 4);
    s.pop().unwrap();
    assert_eq!(s.top(), m2.checked_mul(&m1.checked_mul(&base).unwrap()).unwrap());
    s.pop().unwrap();
    assert_eq!(s.top(), m1.checked_mul(&base).unwrap());
    s.pop().unwrap();
    assert_eq!(s.top(), base);
    assert_eq!(s.pop(), Err(GameError::TransformStackUnderflow));
}

#[test]
fn top_is_the_product_of_the_open_frames() {
    let base = translation(1, 2);
    let a = scaling(3, 3);
    let b = translation(10, 0);
    let c = scaling(1, -2);
    let mut s = TransformStack::new();
    s.set(base);
    // enter a, enter b, leave, enter c: the frames a and c are open.
    s.push(None);
    s.mul(a).unwrap();
    s.push(None);
    s.mul(b).unwrap();
    s.pop().unwrap();
    s.push(None);
    s.mul(c).unwrap();
    let by_hand = c.checked_mul(&a.checked_mul(&base).unwrap()).unwrap();
    assert_eq!(s.top(), by_hand);
    assert_eq!(
        by_hand,
        Matrix4::from_entries([3, 0, 0, 3, 0, -6, 0, -12, 0, 0, 1, 0, 0, 0, 0, 1])
    );
    assert_eq!(s.len(), 3);
    // leave, leave: no frame is open and the top is the base again.
    s.pop().unwrap();
    s.pop().unwrap();
    assert_eq!(s.top(), base);
    assert_eq!(s.len(), 1);
}
