use vstd::prelude::*;

use crate::c_file_descriptor::CFileDescriptor;

verus! {

/// Operation code of the interface-creation ioctl on the clone device
/// (`TUNSETIFF`): attach the opened handle to the requested interface.
pub const TUNSETIFF: u64 = 0x400454ca;

/// Every outcome of trying to obtain a bound TAP descriptor: one variant per
/// failure, and the opened descriptor on success.
#[derive(Debug)]
pub enum GetTapDescriptorResult {
    FailedToOpenCloneDevice,
    InterfaceNameTooLong,
    InterfaceNameTooShort,
    IoctlFailed,
    FDOpened(CFileDescriptor),
}

/// The one-line description of each outcome.
pub open spec fn spec_message(r: GetTapDescriptorResult) -> Seq<char> {
    match r {
        GetTapDescriptorResult::FailedToOpenCloneDevice => "Failed to open tun clone device!"@,
        GetTapDescriptorResult::InterfaceNameTooLong => "Interface name was too long!"@,
        GetTapDescriptorResult::InterfaceNameTooShort => "Interface name was too short!"@,
        GetTapDescriptorResult::IoctlFailed => "Native ioctl call failed!"@,
        GetTapDescriptorResult::FDOpened(_) => "Device opened successfully"@,
    }
}

impl GetTapDescriptorResult {
    /// A human-readable description of this outcome.
    pub fn message(&self) -> (r: String)
        ensures
            r@ == spec_message(*self),
    {
        match self {
            GetTapDescriptorResult::FailedToOpenCloneDevice => "Failed to open tun clone device!".to_owned(),
            GetTapDescriptorResult::InterfaceNameTooLong => "Interface name was too long!".to_owned(),
            GetTapDescriptorResult::InterfaceNameTooShort => "Interface name was too short!".to_owned(),
            GetTapDescriptorResult::IoctlFailed => "Native ioctl call failed!".to_owned(),
            GetTapDescriptorResult::FDOpened(_) => "Device opened successfully".to_owned(),
        }
    }
}

/// Judges the OS result of opening the clone device.  A negative value is the
/// OS error sentinel: the attempt failed and no handle exists, so nothing has
/// to be released.  Any other value is a real handle, and ownership of it
/// passes to the returned descriptor owner at once, before anything else is
/// tried, so every later exit path can release it through that owner.
pub fn check_clone_device_fd(clone_fd: i32) -> (r: Result<CFileDescriptor, GetTapDescriptorResult>)
    ensures
        clone_fd < 0 ==> r == Err::<CFileDescriptor, GetTapDescriptorResult>(
            GetTapDescriptorResult::FailedToOpenCloneDevice,
        ),
        clone_fd >= 0 ==> (r matches Ok(owner) && owner@.fd == clone_fd && owner@.open),
{
    if clone_fd < 0 {
        Err(GetTapDescriptorResult::FailedToOpenCloneDevice)
    } else {
        Ok(CFileDescriptor::new(clone_fd))
    }
}

/// What to do after the interface-creation ioctl came back: either the
/// descriptor is bound and ready, or the kernel rejected the request and the
/// still-open owner must be released before the failure is reported.
pub enum IoctlStep {
    Accepted { result: GetTapDescriptorResult },
    Rejected { owner: CFileDescriptor, failure: GetTapDescriptorResult },
}

/// Judges the kernel's return value from the interface-creation ioctl.  A
/// negative value means the kernel rejected the request: the owner comes back
/// still open, together with the failure to report, so the caller releases
/// the handle and no descriptor leaks.  Any other value means the descriptor
/// is bound: ownership moves into the success result.
pub fn after_ioctl(owner: CFileDescriptor, ioctl_return_val: i32) -> (r: IoctlStep)
    ensures
        ioctl_return_val < 0 ==> (r matches IoctlStep::Rejected { owner: o, failure }
            && o == owner && failure == GetTapDescriptorResult::IoctlFailed),
        ioctl_return_val >= 0 ==> r == (IoctlStep::Accepted {
            result: GetTapDescriptorResult::FDOpened(owner),
        }),
{
    if ioctl_return_val < 0 {
        IoctlStep::Rejected { owner, failure: GetTapDescriptorResult::IoctlFailed }
    } else {
        IoctlStep::Accepted { result: GetTapDescriptorResult::FDOpened(owner) }
    }
}

} // verus!
