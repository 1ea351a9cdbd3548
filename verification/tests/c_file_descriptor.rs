use tapdev::c_file_descriptor::CFileDescriptor;

#[test]
fn release_hands_the_handle_out_exactly_once() {
    let mut owner = CFileDescriptor::new(7);
    assert!(owner.is_open());
    assert_eq!(owner.release(), Some(7));
    assert!(!owner.is_open());
}

#[test]
fn releasing_an_already_released_owner_is_harmless() {
    let mut owner = CFileDescriptor::new(7);
    assert_eq!(owner.release(), Some(7));
    assert_eq!(owner.release(), None);
    assert_eq!(owner.release(), None);
    assert_eq!(owner.raw_fd(), 7);
}

#[test]
fn raw_fd_does_not_give_up_ownership() {
    let owner = CFileDescriptor::new(42);
    assert_eq!(owner.raw_fd(), 42);
    assert_eq!(owner.raw_fd(), 42);
    assert!(owner.is_open());
}
