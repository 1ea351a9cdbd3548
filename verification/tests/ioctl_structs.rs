use std::mem;

use tapdev::ioctl::GetTapDescriptorResult;
use tapdev::ioctl_structs::{
    tap_ifreq, IFF_NO_PI, IFF_TAP, IFNAMSIZ, IFR_FLAGS_OFFSET, IFR_NAME_OFFSET, PADDINGSIZE,
};

#[test]
fn new_bails_if_interface_len_zero() {
    assert!(match tap_ifreq::new("") {
        Err(GetTapDescriptorResult::InterfaceNameTooShort) => true,
        _ => false,
    });
}

#[test]
fn new_bails_if_interface_len_too_long() {
    assert!(match tap_ifreq::new("123456789ABCDEF0") {
        Err(GetTapDescriptorResult::InterfaceNameTooLong) => true,
        _ => false,
    });
}

#[test]
fn struct_is_correct_size() {
    assert!(mem::size_of::<tap_ifreq>() == mem::size_of::<libc::ifreq>());
}

#[test]
fn ifnamesize_is_correct() {
    assert!(IFNAMSIZ == libc::IFNAMSIZ);
}

#[test]
fn ifname_offset_is_correct() {
    match tap_ifreq::new("IFNAME") {
        Ok(_) => {
            assert!(IFR_NAME_OFFSET == 0);
        }
        _ => {
            panic!("Failed to create struct to measure memory!");
        }
    };
}

#[test]
fn ifr_name_member_size_is_correct() {
    match tap_ifreq::new("IFNAME") {
        Ok(t) => {
            assert!(mem::size_of_val(&t.ifr_name) == mem::size_of::<[libc::c_char; libc::IFNAMSIZ]>());
        }
        _ => {
            panic!("Failed to create struct to measure memory!");
        }
    };
}

#[test]
fn ifr_flags_offset_is_correct() {
    match tap_ifreq::new("IFNAME") {
        Ok(_) => {
            assert!(IFR_FLAGS_OFFSET == mem::size_of::<[libc::c_char; libc::IFNAMSIZ]>());
        }
        _ => {
            panic!("Failed to create struct to measure memory!");
        }
    };
}

#[test]
fn ifr_flags_member_size_is_correct() {
    match tap_ifreq::new("IFNAME") {
        Ok(t) => {
            assert!(mem::size_of_val(&t.ifr_flags) == mem::size_of::<libc::c_short>());
        }
        _ => {
            panic!("Failed to create struct to measure memory!");
        }
    };
}

#[test]
fn iff_tap_has_correct_value() {
    assert!(IFF_TAP as libc::c_int == libc::IFF_TAP);
}

#[test]
fn iff_no_pi_has_correct_value() {
    assert!(IFF_NO_PI as libc::c_int == libc::IFF_NO_PI);
}

#[test]
fn build_copies_name_and_pads_with_zeros() {
    let t = tap_ifreq::new("tap0").unwrap();
    assert_eq!(&t.ifr_name[..4], b"tap0");
    for i in 4..IFNAMSIZ {
        assert_eq!(t.ifr_name[i], 0);
    }
}

#[test]
fn build_name_is_always_zero_terminated() {
    let t = tap_ifreq::new("123456789ABCDEF").unwrap();
    assert_eq!(&t.ifr_name[..15], b"123456789ABCDEF");
    assert_eq!(t.ifr_name[15], 0);
}

#[test]
fn build_sets_fixed_flags_for_any_name() {
    for name in ["tap0", "a", "longer-name-ok"] {
        let t = tap_ifreq::new(name).unwrap();
        assert_eq!(t.ifr_flags, IFF_TAP | IFF_NO_PI);
        assert_eq!(t.ifr_flags, 0x1002);
    }
}

#[test]
fn build_leaves_padding_zeroed() {
    let t = tap_ifreq::new("tap0").unwrap();
    assert_eq!(t.ifr_padding, [0u8; PADDINGSIZE]);
}
