use linux_loader::cmdline::Cmdline;
use microvm::bundle::boot_config_from;
use microvm::cmdline::{cmdline_verdict, kernel_cmdline, CMDLINE_CAPACITY};
use microvm::{ConfigError, Disk, HandleCopy, HugePages, MachineConfig, NetConfig, Vm};

fn vm_with_cmdline(cmdline: &str) -> Vm {
    Vm {
        vcpu_count: 2,
        mem_size_mib: 256,
        kernel_cmdline: cmdline.to_string(),
        vsock: None,
        rootfs: Some(Disk { path: "rootfs.ext4".to_string(), read_only: false }),
        extra_disks: vec![],
        net_config: Some(NetConfig { tap_iface_name: "mytap0".to_string(), vm_mac: None }),
        use_hugepages: false,
    }
}

fn ready(name: &str) -> HandleCopy<String> {
    HandleCopy::Ready(name.to_string())
}

fn text_of(cmdline: &Cmdline) -> String {
    cmdline.as_cstring().unwrap().into_string().unwrap()
}

#[test]
fn machine_config_follows_the_description() {
    let mut vm = vm_with_cmdline("quiet");
    assert_eq!(
        vm.machine_config(),
        MachineConfig {
            vcpu_count: 2,
            mem_size_mib: 256,
            smt: false,
            cpu_template: false,
            track_dirty_pages: false,
            huge_pages: HugePages::Off,
        }
    );
    vm.use_hugepages = true;
    vm.vcpu_count = 8;
    vm.mem_size_mib = 4096;
    assert_eq!(
        vm.machine_config(),
        MachineConfig {
            vcpu_count: 8,
            mem_size_mib: 4096,
            smt: false,
            cpu_template: false,
            track_dirty_pages: false,
            huge_pages: HugePages::Hugetlbfs2M,
        }
    );
}

#[test]
fn bundle_joins_machine_boot_and_devices() {
    let vm = vm_with_cmdline("quiet panic=-1 reboot=t init=/goinit");
    let bundle = vm.resource_bundle(ready("vmlinux"), None).unwrap();
    assert_eq!(bundle.machine, vm.machine_config());
    assert_eq!(bundle.devices, vm.device_topology().unwrap());
    assert_eq!(bundle.boot.kernel, "vmlinux");
    assert_eq!(bundle.boot.initrd, None);
    assert_eq!(text_of(&bundle.boot.cmdline), "quiet panic=-1 reboot=t init=/goinit");
    assert!(!bundle.boot_timer);
}

#[test]
fn handles_are_handed_on_as_they_come() {
    let vm = vm_with_cmdline("panic=-1 reboot=t init=/init");
    let boot = vm.boot_config(ready("vmlinux"), Some(ready("bootstrap-initrd.cpio.gz"))).unwrap();
    assert_eq!(boot.kernel, "vmlinux");
    assert_eq!(boot.initrd, Some("bootstrap-initrd.cpio.gz".to_string()));
    let boot = vm.boot_config(HandleCopy::Ready(7u32), None).unwrap();
    assert_eq!(boot.kernel, 7);
    assert_eq!(boot.initrd, None);
}

#[test]
fn the_command_line_is_parsed_not_copied() {
    let parsed = kernel_cmdline("  console=ttyS0 quiet   --   /sbin/init  -v ").unwrap();
    assert_eq!(text_of(&parsed), "console=ttyS0 quiet -- /sbin/init  -v");
    let parsed = kernel_cmdline("  quiet  ").unwrap();
    assert_eq!(text_of(&parsed), "quiet");
    let vm = vm_with_cmdline(" quiet panic=-1 -- init ");
    let bundle = vm.resource_bundle(ready("vmlinux"), None).unwrap();
    assert_eq!(text_of(&bundle.boot.cmdline), "quiet panic=-1 -- init");
}

#[test]
fn cmdline_longer_than_4096_bytes_is_rejected() {
    let vm = vm_with_cmdline(&"a".repeat(4097));
    assert_eq!(vm.resource_bundle(ready("vmlinux"), None).err(), Some(ConfigError::CmdlineTooLong));
    assert_eq!(vm.boot_config(ready("vmlinux"), None).err(), Some(ConfigError::CmdlineTooLong));
    assert_eq!(vm.launch(ready("vmlinux"), None).err(), Some(ConfigError::CmdlineTooLong));
    let vm = vm_with_cmdline(&"a".repeat(100_000));
    assert_eq!(vm.resource_bundle(ready("vmlinux"), None).err(), Some(ConfigError::CmdlineTooLong));
}

#[test]
fn cmdline_of_blanks_longer_than_4096_bytes_is_rejected() {
    let padded = format!("quiet{}", " ".repeat(4092));
    assert_eq!(padded.len(), 4097);
    assert_eq!(kernel_cmdline(&padded).err(), Some(ConfigError::CmdlineTooLong));
    assert_eq!(kernel_cmdline(&" ".repeat(5000)).err(), Some(ConfigError::CmdlineTooLong));
}

#[test]
fn cmdline_length_is_counted_in_bytes() {
    let text = "é".repeat(2049);
    assert_eq!(text.chars().count(), 2049);
    assert_eq!(text.len(), 4098);
    assert_eq!(kernel_cmdline(&text).err(), Some(ConfigError::CmdlineTooLong));
    let text = "é".repeat(2047);
    assert_eq!(text.len(), 4094);
    assert!(kernel_cmdline(&text).is_ok());
}

#[test]
fn cmdline_at_the_limit() {
    assert_eq!(CMDLINE_CAPACITY, 4096);
    assert!(kernel_cmdline(&"a".repeat(4095)).is_ok());
    assert_eq!(kernel_cmdline(&"a".repeat(4096)).err(), Some(ConfigError::CmdlineRejected));
    let padded = format!("{} ", "a".repeat(4095));
    assert_eq!(padded.len(), 4096);
    assert_eq!(text_of(&kernel_cmdline(&padded).unwrap()), "a".repeat(4095));
    assert!(kernel_cmdline("").is_ok());
}

#[test]
fn the_verdict_follows_the_length_and_the_parser() {
    let taken = || Cmdline::try_from("quiet", 4096);
    let refused = || Cmdline::try_from("quiet", 2);
    assert!(refused().is_err());
    assert_eq!(text_of(&cmdline_verdict(5, taken()).unwrap()), "quiet");
    assert_eq!(text_of(&cmdline_verdict(4096, taken()).unwrap()), "quiet");
    assert_eq!(cmdline_verdict(4097, taken()).err(), Some(ConfigError::CmdlineTooLong));
    assert_eq!(cmdline_verdict(usize::MAX, taken()).err(), Some(ConfigError::CmdlineTooLong));
    assert_eq!(cmdline_verdict(5, refused()).err(), Some(ConfigError::CmdlineRejected));
    assert_eq!(cmdline_verdict(4096, refused()).err(), Some(ConfigError::CmdlineRejected));
    assert_eq!(cmdline_verdict(4097, refused()).err(), Some(ConfigError::CmdlineTooLong));
}

#[test]
fn a_ramdisk_handle_that_failed_is_the_first_fault() {
    let vm = vm_with_cmdline(&"a".repeat(5000));
    let failed: HandleCopy<String> = HandleCopy::Failed;
    assert_eq!(
        vm.resource_bundle(HandleCopy::Failed, Some(failed.clone())).err(),
        Some(ConfigError::InitrdHandle)
    );
    let vm = vm_with_cmdline("quiet");
    assert_eq!(
        vm.resource_bundle(ready("vmlinux"), Some(failed)).err(),
        Some(ConfigError::InitrdHandle)
    );
}

#[test]
fn a_kernel_handle_that_failed_is_the_last_fault() {
    let failed: HandleCopy<String> = HandleCopy::Failed;
    let vm = vm_with_cmdline("quiet");
    assert_eq!(vm.resource_bundle(failed.clone(), None).err(), Some(ConfigError::KernelHandle));
    assert_eq!(
        vm.resource_bundle(failed.clone(), Some(ready("initrd"))).err(),
        Some(ConfigError::KernelHandle)
    );
    let vm = vm_with_cmdline(&"a".repeat(4096));
    assert_eq!(vm.resource_bundle(failed.clone(), None).err(), Some(ConfigError::CmdlineRejected));
    let vm = vm_with_cmdline(&"a".repeat(4097));
    assert_eq!(vm.resource_bundle(failed, None).err(), Some(ConfigError::CmdlineTooLong));
}

#[test]
fn boot_config_from_its_parts() {
    let cmdline = || kernel_cmdline("quiet");
    let failed = || -> HandleCopy<u8> { HandleCopy::Failed };
    let boot = boot_config_from(cmdline(), HandleCopy::Ready(1u8), Some(HandleCopy::Ready(2u8)));
    let boot = boot.unwrap();
    assert_eq!((boot.kernel, boot.initrd), (1, Some(2)));
    assert_eq!(text_of(&boot.cmdline), "quiet");
    assert_eq!(
        boot_config_from(Err(ConfigError::CmdlineTooLong), failed(), Some(failed())).err(),
        Some(ConfigError::InitrdHandle)
    );
    assert_eq!(
        boot_config_from(Err(ConfigError::CmdlineTooLong), failed(), None).err(),
        Some(ConfigError::CmdlineTooLong)
    );
    assert_eq!(
        boot_config_from(Err(ConfigError::CmdlineRejected), HandleCopy::Ready(1u8), None).err(),
        Some(ConfigError::CmdlineRejected)
    );
    assert_eq!(boot_config_from(cmdline(), failed(), None).err(), Some(ConfigError::KernelHandle));
}

#[test]
fn config_faults_have_words() {
    assert_eq!(ConfigError::InitrdHandle.message(), "the ramdisk handle could not be copied");
    assert_eq!(
        ConfigError::CmdlineTooLong.message(),
        "the kernel command line is longer than 4096 bytes"
    );
    assert_eq!(ConfigError::CmdlineRejected.message(), "the kernel command line was refused");
    assert_eq!(ConfigError::KernelHandle.message(), "the kernel handle could not be copied");
    assert_eq!(ConfigError::SecondRootDevice.message(), "a second root disk was asked for");
    assert_eq!(ConfigError::SecondNetDevice.message(), "a second network interface was asked for");
    assert_eq!(ConfigError::SecondVsockDevice.message(), "a second vsock device was asked for");
}
