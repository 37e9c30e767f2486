use fast_down_c::safe_ptr::SafePtr;

#[test]
fn safe_ptr_gives_back_its_value() {
    let mut p = SafePtr(5u32);
    assert_eq!(*p, 5);
    *p += 1;
    assert_eq!(p.into_inner(), 6);
}
