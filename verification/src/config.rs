//! The description of the machine that is wanted.
//!
//! These are plain values. Building one never fails: what a field must satisfy
//! is checked by the step that consumes it.

use vstd::prelude::*;

verus! {

/// A disk image on the host.
#[derive(Clone, Debug, PartialEq, Eq)]
pub struct Disk {
    /// Where the image lies on the host.
    pub path: String,
    /// Whether the guest may only read it.
    pub read_only: bool,
}

/// What a [`Disk`] is to the contracts.
pub struct DiskView {
    pub path: Seq<char>,
    pub read_only: bool,
}

impl View for Disk {
    type V = DiskView;

    open spec fn view(&self) -> DiskView {
        DiskView { path: self.path@, read_only: self.read_only }
    }
}

/// The guest's network interface.
#[derive(Clone, Debug, PartialEq, Eq)]
pub struct NetConfig {
    /// Name of an unused TAP interface on the host, which must exist.
    pub tap_iface_name: String,
    /// The guest's hardware address; `None` asks for the default.
    pub vm_mac: Option<[u8; 6]>,
}

/// What a [`NetConfig`] is to the contracts.
pub struct NetConfigView {
    pub tap_iface_name: Seq<char>,
    pub vm_mac: Option<[u8; 6]>,
}

impl View for NetConfig {
    type V = NetConfigView;

    open spec fn view(&self) -> NetConfigView {
        NetConfigView { tap_iface_name: self.tap_iface_name@, vm_mac: self.vm_mac }
    }
}

/// The machine that is wanted.
///
/// The kernel image and the initial ramdisk are open handles that the caller
/// keeps; it hands copies of them over when the boot configuration is built.
#[derive(Clone, Debug, PartialEq, Eq)]
pub struct Vm {
    /// Number of virtual CPUs.
    pub vcpu_count: u8,
    /// Guest memory, in MiB.
    pub mem_size_mib: usize,
    /// The kernel command line.
    pub kernel_cmdline: String,
    /// Host-side socket path of the vsock device, if the guest gets one.
    pub vsock: Option<String>,
    /// The root filesystem; absent when the guest boots from a ramdisk alone.
    pub rootfs: Option<Disk>,
    /// Further disks, in the order in which the guest sees them.
    pub extra_disks: Vec<Disk>,
    /// The network interface, if the guest gets one.
    pub net_config: Option<NetConfig>,
    /// Whether guest memory is backed by huge pages.
    pub use_hugepages: bool,
}

/// What a [`Vm`] is to the contracts.
pub struct VmView {
    pub vcpu_count: u8,
    pub mem_size_mib: usize,
    pub kernel_cmdline: Seq<char>,
    pub vsock: Option<Seq<char>>,
    pub rootfs: Option<DiskView>,
    pub extra_disks: Seq<DiskView>,
    pub net_config: Option<NetConfigView>,
    pub use_hugepages: bool,
}

impl View for Vm {
    type V = VmView;

    open spec fn view(&self) -> VmView {
        VmView {
            vcpu_count: self.vcpu_count,
            mem_size_mib: self.mem_size_mib,
            kernel_cmdline: self.kernel_cmdline@,
            vsock: match self.vsock {
                Some(path) => Some(path@),
                None => None,
            },
            rootfs: match self.rootfs {
                Some(disk) => Some(disk@),
                None => None,
            },
            extra_disks: self.extra_disks@.map_values(|d: Disk| d@),
            net_config: match self.net_config {
                Some(net) => Some(net@),
                None => None,
            },
            use_hugepages: self.use_hugepages,
        }
    }
}

} // verus!
