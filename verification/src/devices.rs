//! Device assembly: from the description to the devices the guest gets.
//!
//! The description is first turned into a list of requests, one per device.
//! One routine then takes the requests in order and builds the topology: it
//! numbers the drives, fills in what is the same for every device of a kind,
//! and refuses a second root disk, network interface or vsock device.

use vstd::prelude::*;

use crate::config::{Disk, DiskView, NetConfig, NetConfigView, Vm, VmView};
use crate::error::ConfigError;
use crate::ids::{
    block_drive_id, block_id, lemma_block_id_injective, lemma_block_id_zero, net_id, net_iface_id,
};
use crate::mac::{resolve_mac, resolved_mac, DEFAULT_GUEST_MAC};

verus! {

/// The context id of the guest on its vsock device.
pub const VSOCK_GUEST_CID: u32 = 3;

/// How the host caches a drive's writes.
#[derive(Clone, Copy, Debug, PartialEq, Eq, Structural)]
pub enum CachePolicy {
    /// Writes are not flushed to the host's disk on the guest's request:
    /// faster, and unsafe for the image if the host fails.
    Unsafe,
    /// The guest's flush requests are honoured.
    Writeback,
}

/// One drive of the guest.
#[derive(Clone, Debug, PartialEq, Eq)]
pub struct BlockDevice {
    pub drive_id: String,
    pub is_root_device: bool,
    pub read_only: bool,
    pub path_on_host: String,
    pub cache: CachePolicy,
}

/// What a [`BlockDevice`] is to the contracts.
pub struct BlockDeviceView {
    pub drive_id: Seq<char>,
    pub is_root_device: bool,
    pub read_only: bool,
    pub path_on_host: Seq<char>,
    pub cache: CachePolicy,
}

impl View for BlockDevice {
    type V = BlockDeviceView;

    open spec fn view(&self) -> BlockDeviceView {
        BlockDeviceView {
            drive_id: self.drive_id@,
            is_root_device: self.is_root_device,
            read_only: self.read_only,
            path_on_host: self.path_on_host@,
            cache: self.cache,
        }
    }
}

/// The guest's network interface.
#[derive(Clone, Debug, PartialEq, Eq)]
pub struct NetDevice {
    pub iface_id: String,
    pub host_dev_name: String,
    pub guest_mac: [u8; 6],
}

/// What a [`NetDevice`] is to the contracts.
pub struct NetDeviceView {
    pub iface_id: Seq<char>,
    pub host_dev_name: Seq<char>,
    pub guest_mac: [u8; 6],
}

impl View for NetDevice {
    type V = NetDeviceView;

    open spec fn view(&self) -> NetDeviceView {
        NetDeviceView {
            iface_id: self.iface_id@,
            host_dev_name: self.host_dev_name@,
            guest_mac: self.guest_mac,
        }
    }
}

/// The guest's vsock device.
#[derive(Clone, Debug, PartialEq, Eq)]
pub struct VsockDevice {
    pub guest_cid: u32,
    pub uds_path: String,
}

/// What a [`VsockDevice`] is to the contracts.
pub struct VsockDeviceView {
    pub guest_cid: u32,
    pub uds_path: Seq<char>,
}

impl View for VsockDevice {
    type V = VsockDeviceView;

    open spec fn view(&self) -> VsockDeviceView {
        VsockDeviceView { guest_cid: self.guest_cid, uds_path: self.uds_path@ }
    }
}

/// A request for one device.
#[derive(Clone, Debug, PartialEq, Eq)]
pub enum DeviceRequest {
    /// The drive that holds the root filesystem.
    RootDisk(Disk),
    /// A further drive.
    ExtraDisk(Disk),
    /// The network interface.
    Net(NetConfig),
    /// The vsock device, with its socket path on the host.
    Vsock(String),
}

/// What a [`DeviceRequest`] is to the contracts.
pub enum DeviceRequestView {
    RootDisk(DiskView),
    ExtraDisk(DiskView),
    Net(NetConfigView),
    Vsock(Seq<char>),
}

impl View for DeviceRequest {
    type V = DeviceRequestView;

    open spec fn view(&self) -> DeviceRequestView {
        match self {
            DeviceRequest::RootDisk(d) => DeviceRequestView::RootDisk(d@),
            DeviceRequest::ExtraDisk(d) => DeviceRequestView::ExtraDisk(d@),
            DeviceRequest::Net(n) => DeviceRequestView::Net(n@),
            DeviceRequest::Vsock(p) => DeviceRequestView::Vsock(p@),
        }
    }
}

/// The root drive made from a disk: number 0.
pub open spec fn root_block(disk: DiskView) -> BlockDeviceView {
    BlockDeviceView {
        drive_id: block_id(0),
        is_root_device: true,
        read_only: disk.read_only,
        path_on_host: disk.path,
        cache: CachePolicy::Unsafe,
    }
}

/// The further drive with the given number made from a disk.
pub open spec fn extra_block(number: nat, disk: DiskView) -> BlockDeviceView {
    BlockDeviceView {
        drive_id: block_id(number),
        is_root_device: false,
        read_only: disk.read_only,
        path_on_host: disk.path,
        cache: CachePolicy::Unsafe,
    }
}

/// The network interface made from its description.
pub open spec fn net_device(net: NetConfigView) -> NetDeviceView {
    NetDeviceView {
        iface_id: net_id(),
        host_dev_name: net.tap_iface_name,
        guest_mac: resolved_mac(net.vm_mac),
    }
}

/// The vsock device with the given socket path.
pub open spec fn vsock_device(path: Seq<char>) -> VsockDeviceView {
    VsockDeviceView { guest_cid: VSOCK_GUEST_CID, uds_path: path }
}

/// What a [`DeviceTopology`] is to the contracts: the drives in the order in
/// which the guest sees them, and the two devices of which there is at most
/// one.
pub struct DeviceTopologyView {
    pub blocks: Seq<BlockDeviceView>,
    pub net: Option<NetDeviceView>,
    pub vsock: Option<VsockDeviceView>,
}

impl DeviceTopologyView {
    /// No device at all.
    pub open spec fn empty() -> DeviceTopologyView {
        DeviceTopologyView { blocks: Seq::empty(), net: None, vsock: None }
    }

    /// Whether there is a root drive. It is the first of the drives.
    pub open spec fn has_root(self) -> bool {
        self.blocks.len() > 0 && self.blocks[0].is_root_device
    }

    /// The number of drives that are not the root drive.
    pub open spec fn extra_count(self) -> nat {
        if self.has_root() {
            (self.blocks.len() - 1) as nat
        } else {
            self.blocks.len()
        }
    }

    /// The number of the drive at position `i`: the root drive has number 0,
    /// and the further drives are numbered from 1 in their order.
    pub open spec fn number_at(self, i: int) -> nat {
        if self.has_root() {
            i as nat
        } else {
            (i + 1) as nat
        }
    }

    /// What holds of every topology: only the first drive can be the root
    /// drive, each drive is named after its number, every drive has the
    /// cache policy `Unsafe`, the network interface is `net0`, and the
    /// guest's context id on the vsock device is 3.
    pub open spec fn wf(self) -> bool {
        &&& forall|i: int|
            0 <= i < self.blocks.len() ==> {
                &&& (#[trigger] self.blocks[i]).is_root_device == (i == 0 && self.has_root())
                &&& self.blocks[i].drive_id == block_id(self.number_at(i))
                &&& self.blocks[i].cache == CachePolicy::Unsafe
            }
        &&& self.net matches Some(net) ==> net.iface_id == net_id()
        &&& self.vsock matches Some(vsock) ==> vsock.guest_cid == VSOCK_GUEST_CID
    }

    /// The topology with one more device, or why the request is refused.
    pub open spec fn accept(self, request: DeviceRequestView) -> Result<
        DeviceTopologyView,
        ConfigError,
    > {
        match request {
            DeviceRequestView::RootDisk(disk) => {
                if self.has_root() {
                    Err(ConfigError::SecondRootDevice)
                } else {
                    Ok(
                        DeviceTopologyView {
                            blocks: seq![root_block(disk)] + self.blocks,
                            ..self
                        },
                    )
                }
            },
            DeviceRequestView::ExtraDisk(disk) => Ok(
                DeviceTopologyView {
                    blocks: self.blocks.push(extra_block(self.extra_count() + 1, disk)),
                    ..self
                },
            ),
            DeviceRequestView::Net(net) => {
                if self.net is Some {
                    Err(ConfigError::SecondNetDevice)
                } else {
                    Ok(DeviceTopologyView { net: Some(net_device(net)), ..self })
                }
            },
            DeviceRequestView::Vsock(path) => {
                if self.vsock is Some {
                    Err(ConfigError::SecondVsockDevice)
                } else {
                    Ok(DeviceTopologyView { vsock: Some(vsock_device(path)), ..self })
                }
            },
        }
    }
}

/// Accepting a device keeps a topology well formed.
pub proof fn lemma_accept_wf(t: DeviceTopologyView, request: DeviceRequestView)
    requires
        t.wf(),
    ensures
        t.accept(request) matches Ok(next) ==> next.wf(),
{
    match t.accept(request) {
        Ok(next) => {
            assert forall|i: int| 0 <= i < next.blocks.len() implies {
                &&& (#[trigger] next.blocks[i]).is_root_device == (i == 0 && next.has_root())
                &&& next.blocks[i].drive_id == block_id(next.number_at(i))
                &&& next.blocks[i].cache == CachePolicy::Unsafe
            } by {
                match request {
                    DeviceRequestView::RootDisk(disk) => {
                        if i > 0 {
                            assert(next.blocks[i] == t.blocks[i - 1]);
                        }
                    },
                    DeviceRequestView::ExtraDisk(disk) => {
                        if i < t.blocks.len() {
                            assert(next.blocks[i] == t.blocks[i]);
                        }
                        if t.blocks.len() > 0 {
                            assert(next.blocks[0] == t.blocks[0]);
                        }
                    },
                    _ => {},
                }
            }
        },
        Err(_) => {},
    }
}

/// The views of a sequence of drives.
pub open spec fn blocks_view(blocks: Seq<BlockDevice>) -> Seq<BlockDeviceView> {
    blocks.map_values(|b: BlockDevice| b@)
}

/// The view of a network interface that may be absent.
pub open spec fn net_view(net: Option<NetDevice>) -> Option<NetDeviceView> {
    match net {
        Some(n) => Some(n@),
        None => None,
    }
}

/// The view of a vsock device that may be absent.
pub open spec fn vsock_view(vsock: Option<VsockDevice>) -> Option<VsockDeviceView> {
    match vsock {
        Some(v) => Some(v@),
        None => None,
    }
}

/// The devices of one guest. Every value of this type is well formed in the
/// sense of [`DeviceTopologyView::wf`].
#[derive(Debug, PartialEq, Eq)]
pub struct DeviceTopology {
    blocks: Vec<BlockDevice>,
    net: Option<NetDevice>,
    vsock: Option<VsockDevice>,
}

impl View for DeviceTopology {
    type V = DeviceTopologyView;

    closed spec fn view(&self) -> DeviceTopologyView {
        DeviceTopologyView {
            blocks: blocks_view(self.blocks@),
            net: net_view(self.net),
            vsock: vsock_view(self.vsock),
        }
    }
}

/// The view of the outcome of an assembly step.
pub open spec fn outcome_view(r: Result<DeviceTopology, ConfigError>) -> Result<
    DeviceTopologyView,
    ConfigError,
> {
    match r {
        Ok(t) => Ok(t@),
        Err(e) => Err(e),
    }
}

impl DeviceTopology {
    #[verifier::type_invariant]
    spec fn well_formed(self) -> bool {
        self@.wf()
    }

    /// The topology without any device.
    pub fn new() -> (t: DeviceTopology)
        ensures
            t@ == DeviceTopologyView::empty(),
            t@.wf(),
    {
        let t = DeviceTopology { blocks: Vec::new(), net: None, vsock: None };
        assert(t@.blocks =~= Seq::empty());
        t
    }

    /// Adds the device that `request` asks for, or says why it is refused.
    pub fn accept(self, request: &DeviceRequest) -> (r: Result<DeviceTopology, ConfigError>)
        ensures
            outcome_view(r) == self@.accept(request@),
            r matches Ok(t) ==> t@.wf(),
    {
        proof {
            use_type_invariant(&self);
            lemma_accept_wf(self@, request@);
        }
        let ghost before = self@;
        let has_root = self.blocks.len() > 0 && self.blocks[0].is_root_device;
        assert(has_root == before.has_root());
        match request {
            DeviceRequest::RootDisk(disk) => {
                if has_root {
                    return Err(ConfigError::SecondRootDevice);
                }
                let entry = BlockDevice {
                    drive_id: block_drive_id(0),
                    is_root_device: true,
                    read_only: disk.read_only,
                    path_on_host: disk.path.clone(),
                    cache: CachePolicy::Unsafe,
                };
                let mut blocks = self.blocks;
                blocks.insert(0, entry);
                assert(blocks_view(blocks@) =~= seq![root_block(disk@)] + before.blocks);
                Ok(DeviceTopology { blocks, net: self.net, vsock: self.vsock })
            },
            DeviceRequest::ExtraDisk(disk) => {
                // Counted in a wider type, so that the next number always fits.
                let count: u128 = self.blocks.len() as u128;
                let number: u128 = if has_root {
                    count
                } else {
                    count + 1
                };
                let entry = BlockDevice {
                    drive_id: block_drive_id(number),
                    is_root_device: false,
                    read_only: disk.read_only,
                    path_on_host: disk.path.clone(),
                    cache: CachePolicy::Unsafe,
                };
                let mut blocks = self.blocks;
                blocks.push(entry);
                assert(blocks_view(blocks@) =~= before.blocks.push(
                    extra_block(before.extra_count() + 1, disk@),
                ));
                Ok(DeviceTopology { blocks, net: self.net, vsock: self.vsock })
            },
            DeviceRequest::Net(net) => {
                if self.net.is_some() {
                    return Err(ConfigError::SecondNetDevice);
                }
                let entry = NetDevice {
                    iface_id: net_iface_id(),
                    host_dev_name: net.tap_iface_name.clone(),
                    guest_mac: resolve_mac(net.vm_mac),
                };
                Ok(DeviceTopology { blocks: self.blocks, net: Some(entry), vsock: self.vsock })
            },
            DeviceRequest::Vsock(path) => {
                if self.vsock.is_some() {
                    return Err(ConfigError::SecondVsockDevice);
                }
                let entry = VsockDevice { guest_cid: VSOCK_GUEST_CID, uds_path: path.clone() };
                Ok(DeviceTopology { blocks: self.blocks, net: self.net, vsock: Some(entry) })
            },
        }
    }

    /// The drives, in the order in which the guest sees them.
    pub fn blocks(&self) -> (r: &Vec<BlockDevice>)
        ensures
            blocks_view(r@) == self@.blocks,
            self@.wf(),
    {
        proof {
            use_type_invariant(self);
        }
        &self.blocks
    }

    /// The network interface, if there is one.
    pub fn net(&self) -> (r: &Option<NetDevice>)
        ensures
            net_view(*r) == self@.net,
            self@.wf(),
    {
        proof {
            use_type_invariant(self);
        }
        &self.net
    }

    /// The vsock device, if there is one.
    pub fn vsock(&self) -> (r: &Option<VsockDevice>)
        ensures
            vsock_view(*r) == self@.vsock,
            self@.wf(),
    {
        proof {
            use_type_invariant(self);
        }
        &self.vsock
    }
}

/// The views of a sequence of requests.
pub open spec fn requests_view(requests: Seq<DeviceRequest>) -> Seq<DeviceRequestView> {
    requests.map_values(|r: DeviceRequest| r@)
}

/// The topology that the requests give when they are accepted one after the
/// other, or the fault of the first request that is refused.
pub open spec fn assembled(requests: Seq<DeviceRequestView>) -> Result<
    DeviceTopologyView,
    ConfigError,
>
    decreases requests.len(),
{
    if requests.len() == 0 {
        Ok(DeviceTopologyView::empty())
    } else {
        match assembled(requests.drop_last()) {
            Ok(t) => t.accept(requests.last()),
            Err(e) => Err(e),
        }
    }
}

/// One more request is one more step.
pub proof fn lemma_assembled_push(requests: Seq<DeviceRequestView>, last: DeviceRequestView)
    ensures
        assembled(requests.push(last)) == match assembled(requests) {
            Ok(t) => t.accept(last),
            Err(e) => Err::<DeviceTopologyView, ConfigError>(e),
        },
{
    assert(requests.push(last).drop_last() =~= requests);
}

/// Whatever is assembled is well formed.
pub proof fn lemma_assembled_wf(requests: Seq<DeviceRequestView>)
    ensures
        assembled(requests) matches Ok(t) ==> t.wf(),
    decreases requests.len(),
{
    if requests.len() > 0 {
        lemma_assembled_wf(requests.drop_last());
        if let Ok(t) = assembled(requests.drop_last()) {
            lemma_accept_wf(t, requests.last());
        }
    }
}

/// Once a request is refused, the requests after it change nothing.
proof fn lemma_assembled_refused(requests: Seq<DeviceRequestView>, i: int)
    requires
        0 <= i <= requests.len(),
        assembled(requests.take(i)) is Err,
    ensures
        assembled(requests) == assembled(requests.take(i)),
    decreases requests.len() - i,
{
    if i == requests.len() {
        assert(requests.take(i) =~= requests);
    } else {
        assert(requests.take(i + 1).drop_last() =~= requests.take(i));
        lemma_assembled_refused(requests, i + 1);
    }
}

/// Builds the topology from the requests, taken in order.
pub fn assemble(requests: &Vec<DeviceRequest>) -> (r: Result<DeviceTopology, ConfigError>)
    ensures
        outcome_view(r) == assembled(requests_view(requests@)),
        r matches Ok(t) ==> t@.wf(),
{
    let ghost all = requests_view(requests@);
    let mut topology = DeviceTopology::new();
    let mut i: usize = 0;
    assert(all.take(0) =~= Seq::empty());
    while i < requests.len()
        invariant
            i <= requests.len(),
            all == requests_view(requests@),
            assembled(all.take(i as int)) == Ok::<DeviceTopologyView, ConfigError>(topology@),
            topology@.wf(),
        decreases requests.len() - i,
    {
        proof {
            assert(all.take(i + 1).drop_last() =~= all.take(i as int));
            assert(all.take(i + 1).last() == requests@[i as int]@);
        }
        match topology.accept(&requests[i]) {
            Ok(next) => {
                topology = next;
            },
            Err(e) => {
                proof {
                    lemma_assembled_refused(all, i + 1);
                }
                return Err(e);
            },
        }
        i += 1;
    }
    assert(all.take(i as int) =~= all);
    Ok(topology)
}

/// The request for the network interface, if the description has one.
pub open spec fn net_requests(net: Option<NetConfigView>) -> Seq<DeviceRequestView> {
    match net {
        Some(n) => seq![DeviceRequestView::Net(n)],
        None => Seq::empty(),
    }
}

/// The request for the root drive, if the description has one.
pub open spec fn root_requests(rootfs: Option<DiskView>) -> Seq<DeviceRequestView> {
    match rootfs {
        Some(d) => seq![DeviceRequestView::RootDisk(d)],
        None => Seq::empty(),
    }
}

/// The requests for the further drives, in their order.
pub open spec fn extra_requests(disks: Seq<DiskView>) -> Seq<DeviceRequestView> {
    disks.map_values(|d: DiskView| DeviceRequestView::ExtraDisk(d))
}

/// The request for the vsock device, if the description has one.
pub open spec fn vsock_requests(vsock: Option<Seq<char>>) -> Seq<DeviceRequestView> {
    match vsock {
        Some(path) => seq![DeviceRequestView::Vsock(path)],
        None => Seq::empty(),
    }
}

/// The requests that a description stands for: the network interface, the
/// root drive, the further drives in their order, the vsock device.
pub open spec fn requests_of(vm: VmView) -> Seq<DeviceRequestView> {
    net_requests(vm.net_config) + root_requests(vm.rootfs) + extra_requests(vm.extra_disks)
        + vsock_requests(vm.vsock)
}

/// The drives of a description: the root drive first, as `block0`, if there
/// is one; then the further drives in their order, as `block1`, `block2`, ...
pub open spec fn blocks_of(rootfs: Option<DiskView>, extras: Seq<DiskView>) -> Seq<
    BlockDeviceView,
> {
    let rest = Seq::new(extras.len(), |i: int| extra_block((i + 1) as nat, extras[i]));
    match rootfs {
        Some(d) => seq![root_block(d)] + rest,
        None => rest,
    }
}

/// The devices of a description.
pub open spec fn topology_of(vm: VmView) -> DeviceTopologyView {
    DeviceTopologyView {
        blocks: blocks_of(vm.rootfs, vm.extra_disks),
        net: match vm.net_config {
            Some(n) => Some(net_device(n)),
            None => None,
        },
        vsock: match vm.vsock {
            Some(path) => Some(vsock_device(path)),
            None => None,
        },
    }
}

/// The requests of a description up to the `k`-th further drive are all
/// accepted, and give the drives up to that one.
proof fn lemma_assembled_drives(vm: VmView, k: int)
    requires
        0 <= k <= vm.extra_disks.len(),
    ensures
        assembled(
            net_requests(vm.net_config) + root_requests(vm.rootfs) + extra_requests(
                vm.extra_disks.take(k),
            ),
        ) == Ok::<DeviceTopologyView, ConfigError>(
            DeviceTopologyView {
                blocks: blocks_of(vm.rootfs, vm.extra_disks.take(k)),
                vsock: None,
                ..topology_of(vm)
            },
        ),
    decreases k,
{
    let head = net_requests(vm.net_config) + root_requests(vm.rootfs);
    let none = Seq::<DeviceRequestView>::empty();
    if k == 0 {
        assert(extra_requests(vm.extra_disks.take(0)) =~= none);
        assert(head + none =~= head);
        assert(blocks_of(vm.rootfs, vm.extra_disks.take(0)) =~= match vm.rootfs {
            Some(d) => seq![root_block(d)],
            None => Seq::empty(),
        });
        let after_net = match vm.net_config {
            Some(n) => DeviceTopologyView {
                net: Some(net_device(n)),
                ..DeviceTopologyView::empty()
            },
            None => DeviceTopologyView::empty(),
        };
        match vm.net_config {
            Some(n) => {
                assert(net_requests(vm.net_config) =~= none.push(DeviceRequestView::Net(n)));
                lemma_assembled_push(none, DeviceRequestView::Net(n));
            },
            None => {},
        }
        assert(assembled(net_requests(vm.net_config)) == Ok::<DeviceTopologyView, ConfigError>(
            after_net,
        ));
        match vm.rootfs {
            Some(d) => {
                assert(head =~= net_requests(vm.net_config).push(DeviceRequestView::RootDisk(d)));
                lemma_assembled_push(net_requests(vm.net_config), DeviceRequestView::RootDisk(d));
                assert(seq![root_block(d)] + after_net.blocks =~= seq![root_block(d)]);
            },
            None => {
                assert(head =~= net_requests(vm.net_config));
            },
        }
    } else {
        lemma_assembled_drives(vm, k - 1);
        let disk = vm.extra_disks[k - 1];
        let shorter = vm.extra_disks.take(k - 1);
        let before = head + extra_requests(shorter);
        assert(head + extra_requests(vm.extra_disks.take(k)) =~= before.push(
            DeviceRequestView::ExtraDisk(disk),
        ));
        lemma_assembled_push(before, DeviceRequestView::ExtraDisk(disk));
        let t = DeviceTopologyView {
            blocks: blocks_of(vm.rootfs, shorter),
            vsock: None,
            ..topology_of(vm)
        };
        assert(t.extra_count() == k - 1);
        assert(t.blocks.push(extra_block(k as nat, disk)) =~= blocks_of(
            vm.rootfs,
            vm.extra_disks.take(k),
        ));
    }
}

/// Every request of a description is accepted, and together they give the
/// devices of the description.
pub proof fn lemma_assembled_requests(vm: VmView)
    ensures
        assembled(requests_of(vm)) == Ok::<DeviceTopologyView, ConfigError>(topology_of(vm)),
{
    let k = vm.extra_disks.len() as int;
    lemma_assembled_drives(vm, k);
    assert(vm.extra_disks.take(k) =~= vm.extra_disks);
    let drives = net_requests(vm.net_config) + root_requests(vm.rootfs) + extra_requests(
        vm.extra_disks,
    );
    match vm.vsock {
        Some(path) => {
            assert(requests_of(vm) =~= drives.push(DeviceRequestView::Vsock(path)));
            lemma_assembled_push(drives, DeviceRequestView::Vsock(path));
        },
        None => {
            assert(requests_of(vm) =~= drives);
        },
    }
}

fn copy_disk(disk: &Disk) -> (r: Disk)
    ensures
        r@ == disk@,
{
    Disk { path: disk.path.clone(), read_only: disk.read_only }
}

impl Vm {
    /// The requests for the devices of this description: the network
    /// interface, the root drive, the further drives in their order, the
    /// vsock device.
    pub fn device_requests(&self) -> (r: Vec<DeviceRequest>)
        ensures
            requests_view(r@) == requests_of(self@),
    {
        let ghost head = net_requests(self@.net_config) + root_requests(self@.rootfs);
        let mut requests: Vec<DeviceRequest> = Vec::new();
        if let Some(net) = &self.net_config {
            requests.push(
                DeviceRequest::Net(
                    NetConfig { tap_iface_name: net.tap_iface_name.clone(), vm_mac: net.vm_mac },
                ),
            );
        }
        assert(requests_view(requests@) =~= net_requests(self@.net_config));
        if let Some(root) = &self.rootfs {
            requests.push(DeviceRequest::RootDisk(copy_disk(root)));
        }
        assert(requests_view(requests@) =~= head);
        let mut i: usize = 0;
        assert(head + extra_requests(self@.extra_disks.take(0)) =~= head);
        while i < self.extra_disks.len()
            invariant
                i <= self.extra_disks.len(),
                head == net_requests(self@.net_config) + root_requests(self@.rootfs),
                requests_view(requests@) == head + extra_requests(
                    self@.extra_disks.take(i as int),
                ),
            decreases self.extra_disks.len() - i,
        {
            let ghost before = requests_view(requests@);
            requests.push(DeviceRequest::ExtraDisk(copy_disk(&self.extra_disks[i])));
            assert(requests_view(requests@) =~= before.push(
                DeviceRequestView::ExtraDisk(self@.extra_disks[i as int]),
            ));
            assert(head + extra_requests(self@.extra_disks.take(i + 1)) =~= before.push(
                DeviceRequestView::ExtraDisk(self@.extra_disks[i as int]),
            ));
            i += 1;
        }
        assert(self@.extra_disks.take(i as int) =~= self@.extra_disks);
        let ghost drives = requests_view(requests@);
        if let Some(path) = &self.vsock {
            requests.push(DeviceRequest::Vsock(path.clone()));
        }
        assert(requests_view(requests@) =~= drives + vsock_requests(self@.vsock));
        requests
    }

    /// The devices of this description. The assembly refuses none of a
    /// description's own requests, so the result is never an error.
    pub fn device_topology(&self) -> (r: Result<DeviceTopology, ConfigError>)
        ensures
            outcome_view(r) == Ok::<DeviceTopologyView, ConfigError>(topology_of(self@)),
            r matches Ok(t) ==> t@.wf(),
    {
        let requests = self.device_requests();
        proof {
            lemma_assembled_requests(self@);
        }
        assemble(&requests)
    }
}

/// In a well-formed topology no two drives have the same identifier.
pub proof fn law_drive_ids_distinct(t: DeviceTopologyView, i: int, j: int)
    requires
        t.wf(),
        0 <= i < t.blocks.len(),
        0 <= j < t.blocks.len(),
        i != j,
    ensures
        t.blocks[i].drive_id != t.blocks[j].drive_id,
{
    if t.blocks[i].drive_id == t.blocks[j].drive_id {
        lemma_block_id_injective(t.number_at(i), t.number_at(j));
    }
}

/// In a well-formed topology the drives' numbers rise with their positions,
/// and only the first drive can be the root drive, which is `block0`.
pub proof fn law_drives_in_order(t: DeviceTopologyView, i: int, j: int)
    requires
        t.wf(),
        0 <= i < j < t.blocks.len(),
    ensures
        t.blocks[i].drive_id == block_id(t.number_at(i)),
        t.blocks[j].drive_id == block_id(t.number_at(j)),
        t.number_at(i) < t.number_at(j),
        !t.blocks[j].is_root_device,
        t.blocks[i].is_root_device ==> i == 0 && t.blocks[i].drive_id == "block0"@,
{
    lemma_block_id_zero();
}

/// The devices of a description are a well-formed topology.
pub proof fn law_topology_wf(vm: VmView)
    ensures
        topology_of(vm).wf(),
{
    lemma_assembled_requests(vm);
    lemma_assembled_wf(requests_of(vm));
}

/// A description with a root disk and no further disk has exactly one drive:
/// `block0`, the root drive.
pub proof fn law_root_disk_alone(vm: VmView)
    requires
        vm.rootfs is Some,
        vm.extra_disks.len() == 0,
    ensures
        topology_of(vm).blocks.len() == 1,
        topology_of(vm).blocks[0].drive_id == "block0"@,
        topology_of(vm).blocks[0].is_root_device,
{
    lemma_block_id_zero();
}

/// A description with a root disk and `K` further disks has `K + 1` drives.
/// The drive at position `i` is `block` followed by `i`, so the numbers are
/// 0 to `K` in the order of the description and no identifier comes twice.
/// The drive at position 0 is the root drive and no other is.
pub proof fn law_drives_with_root(vm: VmView)
    requires
        vm.rootfs is Some,
    ensures
        topology_of(vm).blocks.len() == vm.extra_disks.len() + 1,
        topology_of(vm).blocks[0].drive_id == "block0"@,
        forall|i: int|
            0 <= i <= vm.extra_disks.len() ==> {
                &&& (#[trigger] topology_of(vm).blocks[i]).drive_id == block_id(i as nat)
                &&& topology_of(vm).blocks[i].is_root_device == (i == 0)
            },
        forall|i: int, j: int|
            0 <= i <= vm.extra_disks.len() && 0 <= j <= vm.extra_disks.len() && i != j ==> (
            #[trigger] topology_of(vm).blocks[i]).drive_id != (#[trigger] topology_of(
                vm,
            ).blocks[j]).drive_id,
{
    lemma_block_id_zero();
    let t = topology_of(vm);
    law_topology_wf(vm);
    assert forall|i: int, j: int|
        0 <= i <= vm.extra_disks.len() && 0 <= j <= vm.extra_disks.len() && i != j implies (
    #[trigger] t.blocks[i]).drive_id != (#[trigger] t.blocks[j]).drive_id by {
        law_drive_ids_distinct(t, i, j);
    }
}

/// A description without a root disk and with `K` further disks has `K`
/// drives, none of them the root drive: `block1` to `block` followed by `K`,
/// in the order of the description.
pub proof fn law_drives_without_root(vm: VmView)
    requires
        vm.rootfs is None,
    ensures
        topology_of(vm).blocks.len() == vm.extra_disks.len(),
        forall|i: int|
            0 <= i < vm.extra_disks.len() ==> {
                &&& (#[trigger] topology_of(vm).blocks[i]).drive_id == block_id((i + 1) as nat)
                &&& !topology_of(vm).blocks[i].is_root_device
            },
{
}

/// What a drive's position in the topology is, given the position of its
/// disk among the further disks of the description.
pub open spec fn drive_position(vm: VmView, k: int) -> int {
    if vm.rootfs is Some {
        k + 1
    } else {
        k
    }
}

/// Every drive is read-only exactly if its disk is, and lies where its disk
/// lies: nothing is flipped or moved on the way.
pub proof fn law_disks_passed_through(vm: VmView)
    ensures
        vm.rootfs matches Some(disk) ==> {
            &&& topology_of(vm).blocks[0].read_only == disk.read_only
            &&& topology_of(vm).blocks[0].path_on_host == disk.path
        },
        forall|k: int|
            0 <= k < vm.extra_disks.len() ==> {
                &&& topology_of(vm).blocks[drive_position(vm, k)].read_only == (
                #[trigger] vm.extra_disks[k]).read_only
                &&& topology_of(vm).blocks[drive_position(vm, k)].path_on_host
                    == vm.extra_disks[k].path
            },
{
}

/// Every drive has the cache policy `Unsafe`.
pub proof fn law_cache_policy(vm: VmView, i: int)
    requires
        0 <= i < topology_of(vm).blocks.len(),
    ensures
        topology_of(vm).blocks[i].cache == CachePolicy::Unsafe,
{
    law_topology_wf(vm);
}

/// A description whose network interface names no address gets the default
/// address, `02:00:00:00:00:00`; one that names an address gets that one.
/// The interface is `net0` on the TAP device that the description names.
pub proof fn law_net_device(vm: VmView)
    requires
        vm.net_config is Some,
    ensures
        topology_of(vm).net is Some,
        topology_of(vm).net->0.iface_id == "net0"@,
        topology_of(vm).net->0.host_dev_name == vm.net_config->0.tap_iface_name,
        vm.net_config->0.vm_mac is None ==> topology_of(vm).net->0.guest_mac
            == DEFAULT_GUEST_MAC,
        vm.net_config->0.vm_mac matches Some(mac) ==> topology_of(vm).net->0.guest_mac == mac,
        DEFAULT_GUEST_MAC@ == seq![0x02u8, 0x00u8, 0x00u8, 0x00u8, 0x00u8, 0x00u8],
{
    assert(DEFAULT_GUEST_MAC@ =~= seq![0x02u8, 0x00u8, 0x00u8, 0x00u8, 0x00u8, 0x00u8]);
}

/// A description without a network interface gets no network device.
pub proof fn law_no_net_device(vm: VmView)
    requires
        vm.net_config is None,
    ensures
        topology_of(vm).net is None,
{
}

/// A description gets a vsock device exactly if it names a socket path. The
/// device has that path, and the guest's context id on it is 3.
pub proof fn law_vsock_device(vm: VmView)
    ensures
        topology_of(vm).vsock is Some <==> vm.vsock is Some,
        vm.vsock matches Some(path) ==> topology_of(vm).vsock == Some(
            VsockDeviceView { guest_cid: 3, uds_path: path },
        ),
{
}

/// Assembly reads nothing but the description: two descriptions that are the
/// same give the same devices, and so does one description assembled twice.
pub proof fn law_assembly_repeatable(
    a: Vm,
    b: Vm,
    first: Result<DeviceTopology, ConfigError>,
    second: Result<DeviceTopology, ConfigError>,
)
    requires
        a@ == b@,
        outcome_view(first) == Ok::<DeviceTopologyView, ConfigError>(topology_of(a@)),
        outcome_view(second) == Ok::<DeviceTopologyView, ConfigError>(topology_of(b@)),
    ensures
        first is Ok,
        second is Ok,
        first->Ok_0@ == second->Ok_0@,
{
}

} // verus!
