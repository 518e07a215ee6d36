//! Trusted declarations for the host-introspection crate the collectors
//! read from. Every value crossing into verified code is a plain value;
//! nothing is promised about machine state, so no contract here claims
//! more than the shape of the data.

use vstd::prelude::*;

verus! {

/// Declares the host-introspection crate's system handle, so it can
/// stand in signatures; it stays opaque to verified code.
#[verifier::external_type_specification]
#[verifier::external_body]
pub struct ExSystem(sysinfo::System);

/// Declares the disk-list handle; opaque to verified code.
#[verifier::external_type_specification]
#[verifier::external_body]
pub struct ExDisks(sysinfo::Disks);

/// Declares the single-disk record the list hands out; opaque to
/// verified code.
#[verifier::external_type_specification]
#[verifier::external_body]
pub struct ExDisk(sysinfo::Disk);

/// Relies on sysinfo::System::name: the OS name, absent when unknown.
pub assume_specification[ sysinfo::System::name ]() -> (r: Option<String>);

/// Relies on sysinfo::System::os_version: the OS version, absent when unknown.
pub assume_specification[ sysinfo::System::os_version ]() -> (r: Option<String>);

/// Relies on sysinfo::System::kernel_version: the kernel version, absent when unknown.
pub assume_specification[ sysinfo::System::kernel_version ]() -> (r: Option<String>);

/// Relies on sysinfo::System::host_name: the hostname, absent when unknown.
pub assume_specification[ sysinfo::System::host_name ]() -> (r: Option<String>);

/// Relies on sysinfo::System::uptime: seconds since boot.
pub assume_specification[ sysinfo::System::uptime ]() -> (r: u64);

/// Relies on sysinfo::System::new: an empty system handle, nothing refreshed.
pub assume_specification[ sysinfo::System::new ]() -> (r: sysinfo::System);

/// Relies on sysinfo::System::refresh_memory: loads current memory figures.
pub assume_specification[ sysinfo::System::refresh_memory ](s: &mut sysinfo::System);

/// Relies on sysinfo::System::total_memory: total RAM in bytes.
pub assume_specification[ sysinfo::System::total_memory ](s: &sysinfo::System) -> (r: u64);

/// Relies on sysinfo::System::used_memory: used RAM in bytes.
pub assume_specification[ sysinfo::System::used_memory ](s: &sysinfo::System) -> (r: u64);

/// Relies on sysinfo::System::available_memory: available RAM in bytes.
pub assume_specification[ sysinfo::System::available_memory ](s: &sysinfo::System) -> (r: u64);

/// Relies on sysinfo::System::total_swap: total swap in bytes.
pub assume_specification[ sysinfo::System::total_swap ](s: &sysinfo::System) -> (r: u64);

/// Relies on sysinfo::System::used_swap: used swap in bytes.
pub assume_specification[ sysinfo::System::used_swap ](s: &sysinfo::System) -> (r: u64);

/// Relies on sysinfo::Disks::new_with_refreshed_list: the mounted disks.
pub assume_specification[ sysinfo::Disks::new_with_refreshed_list ]() -> (r: sysinfo::Disks);

/// Relies on sysinfo::Disks::list and the per-disk accessors mount_point,
/// file_system, total_space, available_space, is_removable and name: hands
/// each listed disk out as plain values, in list order, as
/// (mount point, filesystem, total bytes, available bytes, removable, label).
#[verifier::external_body]
pub fn disk_rows(disks: &sysinfo::Disks) -> (rows: Vec<(String, String, u64, u64, bool, String)>) {
    disks.list().iter().map(
        |d| (
            d.mount_point().to_string_lossy().to_string(),
            d.file_system().to_string_lossy().to_string(),
            d.total_space(),
            d.available_space(),
            d.is_removable(),
            d.name().to_string_lossy().to_string(),
        ),
    ).collect()
}

/// Relies on dirs::home_dir: the user's home directory, as text.
#[verifier::external_body]
pub fn home_dir_string() -> (r: Option<String>) {
    dirs::home_dir().map(|p| p.to_string_lossy().to_string())
}

/// Relies on users::get_current_username: the name of the current user.
#[verifier::external_body]
pub fn current_username() -> (r: Option<String>) {
    users::get_current_username().map(|s| s.to_string_lossy().to_string())
}

} // verus!
