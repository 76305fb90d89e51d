use hostcall::buffer::{extract_from_slice, Input, Negotiated};

#[test]
fn narrowing_keeps_the_front() {
    let mut region = [1u8, 2, 3, 4, 5];
    let mut view: &mut [u8] = &mut region;
    extract_from_slice(&mut view, 3);
    assert_eq!(view, &[1u8, 2, 3]);
}

#[test]
fn narrowing_to_nothing() {
    let mut region = [1u8, 2, 3];
    let mut view: &mut [u8] = &mut region;
    extract_from_slice(&mut view, 0);
    assert!(view.is_empty());
}

#[test]
fn narrowing_to_the_whole() {
    let mut region = [7u8, 8];
    let mut view: &mut [u8] = &mut region;
    extract_from_slice(&mut view, 2);
    assert_eq!(view, &[7u8, 8]);
}

#[test]
fn narrowing_an_empty_region() {
    let mut region: [u8; 0] = [];
    let mut view: &mut [u8] = &mut region;
    extract_from_slice(&mut view, 0);
    assert_eq!(view.len(), 0);
}

#[test]
fn narrowing_twice_narrows_further() {
    let mut region = [9u8, 8, 7, 6];
    let mut view: &mut [u8] = &mut region;
    extract_from_slice(&mut view, 3);
    extract_from_slice(&mut view, 1);
    assert_eq!(view, &[9u8]);
}

#[test]
fn input_carries_its_length() {
    let bytes = [1u8, 2, 3, 4];
    assert_eq!(Input::new(&bytes).len, 4);
    assert_eq!(Input::new(&[]).len, 0);
}

#[test]
fn opening_records_the_capacity() {
    let mut region = [0u8; 16];
    let mut cell: u32 = 3;
    {
        let _pair = Negotiated::open(&mut region, &mut cell);
    }
    assert_eq!(cell, 16);
    assert_eq!(region.len(), 16);
}

#[test]
fn opening_an_empty_region_records_zero() {
    let mut region: [u8; 0] = [];
    let mut cell: u32 = 99;
    {
        let _pair = Negotiated::open(&mut region, &mut cell);
    }
    assert_eq!(cell, 0);
}
