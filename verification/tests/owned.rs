use std::cell::Cell;
use std::rc::Rc;

use llvm_safe::owned::{Disposal, DropInPlace, Owned};

struct Counted {
    disposals: Rc<Cell<u32>>,
    payload: u32,
}

impl DropInPlace for Counted {
    fn drop_in_place(&mut self, _leave: Disposal) {
        self.disposals.set(self.disposals.get() + 1);
    }
}

#[test]
fn owner_disposes_once_at_scope_exit() {
    let disposals = Rc::new(Cell::new(0));
    {
        let owned = Owned::from_raw(Counted { disposals: disposals.clone(), payload: 7 });
        assert_eq!(owned.payload, 7);
        assert_eq!(disposals.get(), 0);
    }
    assert_eq!(disposals.get(), 1);
}

#[test]
fn owner_gives_mutable_access() {
    let disposals = Rc::new(Cell::new(0));
    let mut owned = Owned::from_raw(Counted { disposals: disposals.clone(), payload: 1 });
    owned.payload = 5;
    assert_eq!(owned.payload, 5);
    drop(owned);
    assert_eq!(disposals.get(), 1);
}

#[test]
fn moved_owner_disposes_once() {
    let disposals = Rc::new(Cell::new(0));
    let first = Owned::from_raw(Counted { disposals: disposals.clone(), payload: 3 });
    let second = first;
    assert_eq!(disposals.get(), 0);
    drop(second);
    assert_eq!(disposals.get(), 1);
}

fn fails_after_owning(disposals: Rc<Cell<u32>>) -> Result<u32, &'static str> {
    let owned = Owned::from_raw(Counted { disposals, payload: 9 });
    if owned.payload > 5 {
        return Err("too large");
    }
    Ok(owned.payload)
}

#[test]
fn owner_disposes_once_when_an_error_propagates() {
    let disposals = Rc::new(Cell::new(0));
    assert_eq!(fails_after_owning(disposals.clone()), Err("too large"));
    assert_eq!(disposals.get(), 1);
}
