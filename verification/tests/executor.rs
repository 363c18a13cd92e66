use std::task::{RawWaker, Waker};

use ce_iam_core_wasm::noop_raw_waker;

#[test]
fn the_raw_waker_is_that_of_the_noop_waker() {
    let noop = Waker::noop();
    let parts: RawWaker = noop_raw_waker();
    assert_eq!(parts, RawWaker::new(noop.data(), noop.vtable()));
    assert_eq!(parts, noop_raw_waker());
}
