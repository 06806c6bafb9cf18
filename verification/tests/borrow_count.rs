use bcount::Bc;

fn do_nothing(_: &mut f64) {}

fn observe(_: &f64) { /* Do nothing */ }

#[test]
fn count() {
    let mut a = Bc::new(5.0);
    assert_eq!(a.count(), 0);

    *a = 89.0;
    assert_eq!(a.count(), 1);

    do_nothing(&mut a);
    assert_eq!(a.count(), 2);
}

#[test]
fn reset() {
    let mut a = Bc::new(3);

    assert_eq!(a.count(), 0);

    *a = 18;
    *a = 42;
    assert_eq!(a.count(), 2);

    a.reset();
    assert_eq!(a.count(), 0);
}

#[test]
fn overflow() {
    let mut a = Bc::with_count(3, usize::MAX - 1);

    *a = 18;
    *a = 18;
    assert_eq!(a.count(), 0);
}

#[test]
fn non_mutable() {
    let a = Bc::new(3.0);
    assert_eq!(a.count(), 0);

    observe(&a);
    observe(&a);
    observe(&a);
    assert_eq!(a.count(), 0);
}
