use rc_borrow_mut::{RcBorrowMut, RcBox};
use std::cell::Cell;

struct Dropper {
    dead: Cell<bool>,
    dummy: i32,
}

impl Drop for Dropper {
    fn drop(&mut self) {
        assert!(self.dead.get());
    }
}

#[test]
fn mutate() {
    let mut rc = RcBox::new(0);
    rc.clone_strong();
    rc.downgrade();
    rc.drop_strong();
    let mut mutable = RcBox::borrow_mut(&mut rc);
    *mutable.deref_mut(&mut rc) += 1;
    assert!(!rc.upgrade());
    assert_eq!(
        format!("{} {:?}", mutable.deref(&rc), mutable.deref(&rc)),
        "1 1"
    );
    *mutable.deref_mut(&mut rc) += 1;
    mutable.release(&mut rc);
    assert!(rc.upgrade());
    assert_eq!(*rc.value(), 2);
}

#[test]
fn drop_weak() {
    let mut rc = RcBox::new(0);
    rc.downgrade();
    let mut mutable = RcBox::borrow_mut(&mut rc);
    *mutable.deref_mut(&mut rc) += 1;
    assert!(!rc.upgrade());
    rc.drop_weak();
    *mutable.deref_mut(&mut rc) += 1;
    mutable.release(&mut rc);
}

#[test]
#[should_panic]
fn panic() {
    let mut rc = RcBox::new(0);
    rc.clone_strong();
    let _ = RcBox::borrow_mut(&mut rc);
}

#[test]
fn unsize() {
    let mut rc: RcBox<Vec<i32>> = RcBox::new(vec![0, 2, 1]);
    let mut mutable = RcBox::borrow_mut(&mut rc);
    mutable.deref_mut(&mut rc).sort();
    mutable.release(&mut rc);
    assert_eq!(*rc.value(), vec![0, 1, 2]);
}

#[test]
fn dropper() {
    let mut rc: RcBox<Dropper> = RcBox::new(Dropper {
        dead: Cell::new(false),
        dummy: 0,
    });
    rc.downgrade();
    let mut mutable = RcBox::borrow_mut(&mut rc);
    mutable.deref_mut(&mut rc).dummy += 1;
    rc.drop_weak();
    mutable.release(&mut rc);
    rc.value().dead.set(true);
    drop(rc);
}
