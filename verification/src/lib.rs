#![allow(non_camel_case_types)]

pub mod c_file_descriptor;
pub mod device_info;
pub mod frame_read;
pub mod ioctl;
pub mod ioctl_structs;
