use cloud_mirror::util::BorrowWrapper;

#[test]
fn borrow_wrapper_derefs_to_value() {
    let w: BorrowWrapper<'_, u32> = BorrowWrapper::from(7u32);
    assert_eq!(*w, 7);
}
