use vstd::prelude::*;
use vstd::string::StringSliceAdditionalSpecFns;

use crate::ioctl::GetTapDescriptorResult;

verus! {

/// Width of the kernel's interface-name field, terminator included.
pub const IFNAMSIZ: usize = 16;

/// Width of the reserved space that trails the flags field, chosen so that
/// the whole record is as large as the kernel's native interface-request
/// structure.
pub const PADDINGSIZE: usize = 22;

/// Flag bit: the requested device is a TAP device.
pub const IFF_TAP: u16 = 2;

/// Flag bit: deliver raw frames without the packet-information header.
pub const IFF_NO_PI: u16 = 0x1000;

/// Offset, in bytes, of the name field within the kernel's native record.
pub const IFR_NAME_OFFSET: usize = 0;

/// Offset, in bytes, of the 16-bit flags field within the kernel's native
/// record: it begins right after the name field.
pub const IFR_FLAGS_OFFSET: usize = 16;

/// The request record handed to the interface-creation ioctl.  Its three
/// fields mirror the kernel's native structure: the zero-terminated name at
/// `IFR_NAME_OFFSET`, the 16-bit flags at `IFR_FLAGS_OFFSET`, and the
/// reserved trailing space.  The caller that performs the ioctl lays these
/// fields out C-style at exactly those offsets.
pub struct tap_ifreq {
    pub ifr_name: [u8; IFNAMSIZ],
    pub ifr_flags: u16,
    pub ifr_padding: [u8; PADDINGSIZE],
}

/// An interface name of this byte length cannot be used: a name must be
/// non-empty.
pub open spec fn name_too_short(name: Seq<u8>) -> bool {
    name.len() == 0
}

/// An interface name of this byte length cannot be used: at least one zero
/// byte must still fit after it within the name field.
pub open spec fn name_too_long(name: Seq<u8>) -> bool {
    name.len() >= IFNAMSIZ
}

/// The byte lengths of the interface names that a request can carry.
pub open spec fn valid_interface_name(name: Seq<u8>) -> bool {
    1 <= name.len() < IFNAMSIZ
}

/// What a freshly built request holds for the interface name `name`: the
/// name's bytes at the start of the name field, zero bytes from there to the
/// field's end (so the name is always zero-terminated), the fixed TAP and
/// no-packet-information flags, and wholly zeroed reserved space.
pub open spec fn built_request(name: Seq<u8>, r: tap_ifreq) -> bool {
    &&& forall|i: int| 0 <= i < name.len() ==> r.ifr_name@[i] == name[i]
    &&& forall|i: int| name.len() <= i < IFNAMSIZ ==> r.ifr_name@[i] == 0u8
    &&& r.ifr_flags == (IFF_TAP | IFF_NO_PI)
    &&& forall|i: int| 0 <= i < PADDINGSIZE ==> r.ifr_padding@[i] == 0u8
}

/// The flags of a built request are fixed policy, never influenced by the
/// interface name: every request that `built_request` describes carries
/// exactly the TAP bit and the no-packet-information bit.
pub proof fn lemma_flags_are_fixed_policy(name: Seq<u8>, r: tap_ifreq)
    requires
        built_request(name, r),
    ensures
        r.ifr_flags == (IFF_TAP | IFF_NO_PI),
{
}

/// The name field of a built request is the interface name's bytes followed
/// by nothing but zero bytes up to the field's width; in particular the byte
/// right after the name is zero, so the field is always zero-terminated.
pub proof fn lemma_built_name_zero_padded(name: Seq<u8>, r: tap_ifreq)
    requires
        valid_interface_name(name),
        built_request(name, r),
    ensures
        r.ifr_name@ == name + Seq::new((IFNAMSIZ - name.len()) as nat, |i: int| 0u8),
        r.ifr_name@[name.len() as int] == 0u8,
{
    assert(r.ifr_name@ =~= name + Seq::new((IFNAMSIZ - name.len()) as nat, |i: int| 0u8));
}

impl tap_ifreq {
    /// Builds the request for `interface`, rejecting an empty name and one
    /// too long for a zero terminator to fit; on success the record holds
    /// the name, the fixed flags, and zeroed padding, exactly as
    /// `built_request` states.
    pub fn new(interface: &str) -> (r: Result<tap_ifreq, GetTapDescriptorResult>)
        ensures
            r is Ok <==> valid_interface_name(interface.spec_bytes()),
            name_too_short(interface.spec_bytes()) ==> r == Err::<tap_ifreq, GetTapDescriptorResult>(
                GetTapDescriptorResult::InterfaceNameTooShort,
            ),
            name_too_long(interface.spec_bytes()) ==> r == Err::<tap_ifreq, GetTapDescriptorResult>(
                GetTapDescriptorResult::InterfaceNameTooLong,
            ),
            valid_interface_name(interface.spec_bytes()) ==> (r matches Ok(req)
                && built_request(interface.spec_bytes(), req)),
    {
        let bytes: &[u8] = interface.as_bytes();
        let n: usize = bytes.len();
        if n == 0 {
            return Err(GetTapDescriptorResult::InterfaceNameTooShort);
        }
        // Only IFNAMSIZ - 1 bytes fit, as the name must be zero-terminated.
        if n >= IFNAMSIZ {
            return Err(GetTapDescriptorResult::InterfaceNameTooLong);
        }
        let mut ifr_name: [u8; IFNAMSIZ] = [0u8; IFNAMSIZ];
        let mut i: usize = 0;
        while i < n
            invariant
                bytes@ == interface.spec_bytes(),
                n == bytes@.len(),
                0 < n < IFNAMSIZ,
                i <= n,
                forall|j: int| 0 <= j < i ==> ifr_name@[j] == bytes@[j],
                forall|j: int| i <= j < IFNAMSIZ ==> ifr_name@[j] == 0u8,
            decreases n - i,
        {
            ifr_name[i] = bytes[i];
            i += 1;
        }
        Ok(tap_ifreq {
            ifr_name,
            ifr_flags: IFF_TAP | IFF_NO_PI,
            ifr_padding: [0u8; PADDINGSIZE],
        })
    }
}

} // verus!
