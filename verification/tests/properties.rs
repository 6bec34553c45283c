use rc_borrow_mut::{data_offset_align, data_offset_of, RcBorrowMut, RcBox};

#[test]
fn sole_owner_borrow_succeeds() {
    let mut rc = RcBox::new(41);
    let r = RcBox::try_borrow_mut(&mut rc);
    assert!(r.is_ok());
    let handle = r.unwrap();
    assert_eq!(*handle.deref(&rc), 41);
    assert_eq!(rc.strong_count(), 0);
    handle.release(&mut rc);
    assert_eq!(rc.strong_count(), 1);
    assert_eq!(*rc.value(), 41);
}

#[test]
fn shared_owners_borrow_fails() {
    let mut rc = RcBox::new(5);
    rc.clone_strong();
    let r = RcBox::try_borrow_mut(&mut rc);
    assert!(r.is_err());
    assert_eq!(rc.strong_count(), 2);
    assert_eq!(*rc.value(), 5);
    let msg = r.err().unwrap().message();
    assert_eq!(msg, "Cannot borrow mutably, other strong references exist.");
}

#[test]
fn weak_count_untouched_by_window() {
    let mut rc = RcBox::new(1);
    rc.downgrade();
    rc.downgrade();
    let handle = RcBox::borrow_mut(&mut rc);
    assert_eq!(rc.weak_count(), 2);
    assert_eq!(rc.strong_count(), 0);
    handle.release(&mut rc);
    assert_eq!(rc.weak_count(), 2);
    assert_eq!(rc.strong_count(), 1);
}

#[test]
fn upgrade_takes_a_strong_reference() {
    let mut rc = RcBox::new(9);
    rc.downgrade();
    assert!(rc.upgrade());
    assert_eq!(rc.strong_count(), 2);
    rc.drop_strong();
    assert_eq!(rc.strong_count(), 1);
}

#[test]
fn data_offset_matches_header_rounding() {
    let header = 2 * std::mem::size_of::<usize>();
    for align in [1usize, 2, 4, 8, 16, 32, 64] {
        let offset = data_offset_align(align);
        assert!(offset % align == 0);
        assert!(offset >= header);
        assert!(offset < header + align);
    }
    assert_eq!(data_offset_align(1), header);
    assert_eq!(data_offset_align(header), header);
    assert_eq!(data_offset_align(2 * header), 2 * header);
}

#[test]
fn data_offset_queries_payload_alignment() {
    assert_eq!(data_offset_of::<u8>(), data_offset_align(std::mem::align_of::<u8>()));
    assert_eq!(data_offset_of::<u64>(), data_offset_align(std::mem::align_of::<u64>()));
    assert_eq!(
        data_offset_of::<u128>(),
        data_offset_align(std::mem::align_of::<u128>())
    );
    assert_eq!(data_offset_of::<u8>(), 2 * std::mem::size_of::<usize>());
}
