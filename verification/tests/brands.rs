use llvm_safe::id;
use llvm_safe::id::IdRef;

#[test]
fn with_hands_back_the_result_of_the_callback() {
    let result = id::with(|_brand| 41 + 1);
    assert_eq!(result, 42);
}

#[test]
fn with_calls_the_callback_once() {
    let mut calls = 0;
    id::with(|_brand| {
        calls += 1;
    });
    assert_eq!(calls, 1);
}

#[test]
fn with2_hands_back_the_result_of_the_callback() {
    let result = id::with2(|_first, _second| "both");
    assert_eq!(result, "both");
}

#[test]
fn nested_brands_are_independent() {
    let result = id::with(|outer| {
        let outer_ref = outer.as_ref();
        id::with(move |inner| {
            let _inner_ref = inner.as_ref();
            let _copy = outer_ref;
            7
        })
    });
    assert_eq!(result, 7);
}

#[test]
fn brand_references_have_no_size() {
    assert_eq!(std::mem::size_of::<IdRef<'static>>(), 0);
    assert_eq!(std::mem::size_of::<id::Id<'static>>(), 0);
    let _made: IdRef<'static> = IdRef::new();
}
