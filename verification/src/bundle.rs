//! The resource bundle: everything the engine is given to build the guest.
//!
//! The bundle joins the machine configuration, the boot configuration and the
//! device topology. It is built in one go and not changed afterwards. Nothing
//! of the engine exists yet when a fault is found here.

use vstd::prelude::*;

use crate::cmdline::{byte_len, cmdline_fault, kernel_cmdline, parsed_cmdline, CMDLINE_CAPACITY};
use crate::config::{Vm, VmView};
use crate::devices::{topology_of, DeviceTopology};
use crate::error::ConfigError;

verus! {

/// How guest memory is backed.
#[derive(Clone, Copy, Debug, PartialEq, Eq, Structural)]
pub enum HugePages {
    /// Ordinary pages.
    Off,
    /// 2 MiB pages from hugetlbfs.
    Hugetlbfs2M,
}

/// The machine configuration. Only the CPU count, the memory size and the
/// backing of the memory follow the description; the rest is fixed.
#[derive(Clone, Copy, Debug, PartialEq, Eq, Structural)]
pub struct MachineConfig {
    pub vcpu_count: u8,
    pub mem_size_mib: usize,
    /// Whether the guest sees hyperthreading.
    pub smt: bool,
    /// Whether a CPU feature template is applied.
    pub cpu_template: bool,
    pub track_dirty_pages: bool,
    pub huge_pages: HugePages,
}

/// The machine configuration of a description.
pub open spec fn machine_of(vm: VmView) -> MachineConfig {
    MachineConfig {
        vcpu_count: vm.vcpu_count,
        mem_size_mib: vm.mem_size_mib,
        smt: false,
        cpu_template: false,
        track_dirty_pages: false,
        huge_pages: if vm.use_hugepages {
            HugePages::Hugetlbfs2M
        } else {
            HugePages::Off
        },
    }
}

/// What came of copying one of the caller's handles for the engine.
#[derive(Clone, Debug, PartialEq, Eq)]
pub enum HandleCopy<K> {
    /// The copy.
    Ready(K),
    /// The handle could not be copied.
    Failed,
}

/// The boot configuration: the parsed command line and the engine's own
/// handles to the kernel image and, if there is one, to the ramdisk.
#[derive(Debug)]
pub struct BootConfig<K> {
    pub cmdline: linux_loader::cmdline::Cmdline,
    pub kernel: K,
    pub initrd: Option<K>,
}

/// Everything the engine is given.
#[derive(Debug)]
pub struct ResourceBundle<K> {
    pub machine: MachineConfig,
    pub boot: BootConfig<K>,
    pub devices: DeviceTopology,
    /// Whether the guest gets a boot timer device.
    pub boot_timer: bool,
}

/// The first fault of a boot configuration, if it has one: the ramdisk handle
/// is looked at first, then the command line, then the kernel handle.
pub open spec fn boot_fault<K>(
    initrd: Option<HandleCopy<K>>,
    cmdline: Option<ConfigError>,
    kernel: HandleCopy<K>,
) -> Option<ConfigError> {
    if initrd == Some(HandleCopy::<K>::Failed) {
        Some(ConfigError::InitrdHandle)
    } else if cmdline is Some {
        cmdline
    } else if kernel is Failed {
        Some(ConfigError::KernelHandle)
    } else {
        None
    }
}

/// The ramdisk handle of a boot configuration without fault.
pub open spec fn initrd_of<K>(initrd: Option<HandleCopy<K>>) -> Option<K> {
    match initrd {
        Some(HandleCopy::Ready(handle)) => Some(handle),
        _ => None,
    }
}

/// The parsed command line of a description whose command line has no fault.
pub open spec fn cmdline_of(vm: VmView) -> linux_loader::cmdline::Cmdline {
    parsed_cmdline(vm.kernel_cmdline, CMDLINE_CAPACITY)->Ok_0
}

/// The first fault that keeps a description from booting with the given
/// handles, if there is one.
pub open spec fn boot_fault_of<K>(
    vm: VmView,
    kernel: HandleCopy<K>,
    initrd: Option<HandleCopy<K>>,
) -> Option<ConfigError> {
    boot_fault(
        initrd,
        cmdline_fault(
            byte_len(vm.kernel_cmdline),
            parsed_cmdline(vm.kernel_cmdline, CMDLINE_CAPACITY) is Ok,
        ),
        kernel,
    )
}

/// Joins a checked command line and the copied handles into the boot
/// configuration, or returns the first fault among them.
pub fn boot_config_from<K>(
    cmdline: Result<linux_loader::cmdline::Cmdline, ConfigError>,
    kernel: HandleCopy<K>,
    initrd: Option<HandleCopy<K>>,
) -> (r: Result<BootConfig<K>, ConfigError>)
    ensures
        match boot_fault(
            initrd,
            match cmdline {
                Ok(_) => None,
                Err(e) => Some(e),
            },
            kernel,
        ) {
            Some(e) => r is Err && r->Err_0 == e,
            None => r is Ok && r->Ok_0.cmdline == cmdline->Ok_0 && r->Ok_0.kernel
                == kernel->Ready_0 && r->Ok_0.initrd == initrd_of(initrd),
        },
{
    let initrd = match initrd {
        Some(HandleCopy::Failed) => {
            return Err(ConfigError::InitrdHandle);
        },
        Some(HandleCopy::Ready(handle)) => Some(handle),
        None => None,
    };
    let cmdline = match cmdline {
        Ok(cmdline) => cmdline,
        Err(e) => {
            return Err(e);
        },
    };
    match kernel {
        HandleCopy::Ready(kernel) => Ok(BootConfig { cmdline, kernel, initrd }),
        HandleCopy::Failed => Err(ConfigError::KernelHandle),
    }
}

impl Vm {
    /// The machine configuration of this description.
    pub fn machine_config(&self) -> (r: MachineConfig)
        ensures
            r == machine_of(self@),
    {
        MachineConfig {
            vcpu_count: self.vcpu_count,
            mem_size_mib: self.mem_size_mib,
            smt: false,
            cpu_template: false,
            track_dirty_pages: false,
            huge_pages: if self.use_hugepages {
                HugePages::Hugetlbfs2M
            } else {
                HugePages::Off
            },
        }
    }

    /// The boot configuration of this description with the given handles, or
    /// the first fault.
    ///
    /// With both handles ready and a command line of less than 4096 bytes
    /// there is no fault.
    pub fn boot_config<K>(&self, kernel: HandleCopy<K>, initrd: Option<HandleCopy<K>>) -> (r:
        Result<BootConfig<K>, ConfigError>)
        ensures
            match boot_fault_of(self@, kernel, initrd) {
                Some(e) => r is Err && r->Err_0 == e,
                None => r is Ok && r->Ok_0.cmdline == cmdline_of(self@) && r->Ok_0.kernel
                    == kernel->Ready_0 && r->Ok_0.initrd == initrd_of(initrd),
            },
            initrd != Some(HandleCopy::<K>::Failed) && kernel is Ready && byte_len(
                self@.kernel_cmdline,
            ) < CMDLINE_CAPACITY ==> r is Ok,
    {
        let cmdline = kernel_cmdline(self.kernel_cmdline.as_str());
        boot_config_from(cmdline, kernel, initrd)
    }

    /// The resource bundle of this description with the given handles, or the
    /// first fault.
    ///
    /// With both handles ready and a command line of less than 4096 bytes
    /// there is no fault.
    pub fn resource_bundle<K>(&self, kernel: HandleCopy<K>, initrd: Option<HandleCopy<K>>) -> (r:
        Result<ResourceBundle<K>, ConfigError>)
        ensures
            match boot_fault_of(self@, kernel, initrd) {
                Some(e) => r is Err && r->Err_0 == e,
                None => r is Ok && r->Ok_0.machine == machine_of(self@) && r->Ok_0.boot.cmdline
                    == cmdline_of(self@) && r->Ok_0.boot.kernel == kernel->Ready_0
                    && r->Ok_0.boot.initrd == initrd_of(initrd) && r->Ok_0.devices@
                    == topology_of(self@) && !r->Ok_0.boot_timer,
            },
            initrd != Some(HandleCopy::<K>::Failed) && kernel is Ready && byte_len(
                self@.kernel_cmdline,
            ) < CMDLINE_CAPACITY ==> r is Ok,
    {
        let machine = self.machine_config();
        let boot = match self.boot_config(kernel, initrd) {
            Ok(boot) => boot,
            Err(e) => {
                return Err(e);
            },
        };
        match self.device_topology() {
            Ok(devices) => Ok(ResourceBundle { machine, boot, devices, boot_timer: false }),
            Err(e) => Err(e),
        }
    }
}

/// A command line of more than 4096 bytes is a fault, whatever the parser
/// makes of it and whatever became of the handles.
pub proof fn law_long_cmdline_refused<K>(
    vm: VmView,
    kernel: HandleCopy<K>,
    initrd: Option<HandleCopy<K>>,
)
    requires
        byte_len(vm.kernel_cmdline) > CMDLINE_CAPACITY,
    ensures
        boot_fault_of(vm, kernel, initrd) is Some,
        initrd != Some(HandleCopy::<K>::Failed) ==> boot_fault_of(vm, kernel, initrd) == Some(
            ConfigError::CmdlineTooLong,
        ),
{
}

/// A handle that could not be copied is a fault, and the faults come in a
/// fixed order: the ramdisk handle, the command line, the kernel handle.
pub proof fn law_fault_order<K>(vm: VmView, kernel: HandleCopy<K>, initrd: Option<HandleCopy<K>>)
    ensures
        initrd == Some(HandleCopy::<K>::Failed) ==> boot_fault_of(vm, kernel, initrd) == Some(
            ConfigError::InitrdHandle,
        ),
        kernel is Failed ==> boot_fault_of(vm, kernel, initrd) is Some,
        boot_fault_of(vm, kernel, initrd) == Some(ConfigError::KernelHandle) ==> initrd != Some(
            HandleCopy::<K>::Failed,
        ) && byte_len(vm.kernel_cmdline) <= CMDLINE_CAPACITY && parsed_cmdline(
            vm.kernel_cmdline,
            CMDLINE_CAPACITY,
        ) is Ok,
{
}

/// The fixed part of the machine configuration: the guest sees no
/// hyperthreading, no CPU template is applied, dirty pages are not tracked.
/// Huge pages back the memory exactly if the description asks for them.
pub proof fn law_machine_fixed(vm: VmView)
    ensures
        !machine_of(vm).smt,
        !machine_of(vm).cpu_template,
        !machine_of(vm).track_dirty_pages,
        machine_of(vm).huge_pages == HugePages::Hugetlbfs2M <==> vm.use_hugepages,
        machine_of(vm).vcpu_count == vm.vcpu_count,
        machine_of(vm).mem_size_mib == vm.mem_size_mib,
{
}

} // verus!
