use hostcall::contracts::{CustomAllocator, OtherContract};

#[test]
fn lib_default_works() {
    let custom_allocator = CustomAllocator::default();
    assert!(!custom_allocator.get());
}

#[test]
fn lib_it_works() {
    let mut custom_allocator = CustomAllocator::new(false);
    assert!(!custom_allocator.get());
    custom_allocator.flip();
    assert!(custom_allocator.get());
}

#[test]
fn flag_comes_back_after_two_flips() {
    let mut custom_allocator = CustomAllocator::new(true);
    custom_allocator.flip();
    assert!(!custom_allocator.get());
    custom_allocator.flip();
    assert!(custom_allocator.get());
}

#[test]
fn other_contract_flips() {
    let mut other = OtherContract::new(true);
    assert!(other.get());
    other.flip();
    assert!(!other.get());
    other.flip();
    assert!(other.get());
    assert!(!OtherContract::new(false).get());
}
