use rob::Rob;
use std::cell::Cell;
use std::rc::Rc;

/// A value that counts, in a counter shared with its clones, how often one of
/// them was dropped.
#[derive(Clone)]
struct TestObj(i32, Rc<Cell<usize>>);

impl Drop for TestObj {
    fn drop(&mut self) {
        self.1.set(self.1.get() + 1);
    }
}

fn counter() -> Rc<Cell<usize>> {
    Rc::new(Cell::new(0))
}

#[test]
fn test_from_value() {
    let drop_count = counter();
    let x = Rob::from_value(TestObj(123, drop_count.clone()));
    assert!(Rob::is_owned(&x));
    assert_eq!(x.0, 123);
    std::mem::drop(x);
    assert_eq!(drop_count.get(), 1);
}

#[test]
fn test_from_box() {
    let drop_count = counter();
    let x = Rob::from_box(Box::new(TestObj(123, drop_count.clone())));
    assert!(Rob::is_owned(&x));
    assert_eq!(x.0, 123);
    std::mem::drop(x);
    assert_eq!(drop_count.get(), 1);
}

#[test]
fn test_from_ref() {
    let drop_count = counter();
    let obj = TestObj(123, drop_count.clone());
    {
        let x = Rob::from_ref(&obj);
        assert!(!Rob::is_owned(&x));
        assert_eq!(x.0, 123);
        std::mem::drop(x);
        assert_eq!(drop_count.get(), 0);
    }
    std::mem::drop(obj);
    assert_eq!(drop_count.get(), 1);
}

#[test]
fn test_owned_into_box() {
    let drop_count = counter();
    let x = Rob::from_value(TestObj(123, drop_count.clone()));
    let b = Rob::into_box(x);
    assert_eq!(b.0, 123);
    std::mem::drop(b);
    assert_eq!(drop_count.get(), 1);
}

#[test]
fn test_borrowed_into_box() {
    let drop_count = counter();
    let obj = TestObj(123, drop_count.clone());
    {
        let x = Rob::from_ref(&obj);
        let b = Rob::into_box(x);
        assert_eq!(b.0, 123);
        std::mem::drop(b);
        assert_eq!(drop_count.get(), 1);
    }
    std::mem::drop(obj);
    assert_eq!(drop_count.get(), 2);
}
