//! The launch of a machine: what the engine is given to build the guest, and
//! the state in which the run starts.
//!
//! A launch exists only for a description without fault. So the engine is
//! asked for nothing before the description has been checked in full.

use vstd::prelude::*;

use crate::bundle::{
    boot_fault_of, cmdline_of, initrd_of, machine_of, HandleCopy, ResourceBundle,
};
use crate::cmdline::{byte_len, CMDLINE_CAPACITY};
use crate::config::Vm;
use crate::devices::topology_of;
use crate::error::ConfigError;
use crate::supervise::{Action, State};

verus! {

/// Whether the instance has been started.
#[derive(Clone, Copy, Debug, PartialEq, Eq, Structural)]
pub enum InstanceState {
    NotStarted,
    Running,
    Paused,
}

/// What the engine is told about the instance it builds.
#[derive(Clone, Debug, PartialEq, Eq)]
pub struct InstanceInfo {
    pub id: String,
    pub state: InstanceState,
    pub vmm_version: String,
    pub app_name: String,
}

/// Everything that the engine's construction call is given, and the state of
/// the run before that call.
#[derive(Debug)]
pub struct Launch<K> {
    pub instance: InstanceInfo,
    pub resources: ResourceBundle<K>,
    pub state: State,
}

/// What the engine is told about every instance.
pub fn instance_info() -> (r: InstanceInfo)
    ensures
        r.id@ == "anonymous-instance"@,
        r.state == InstanceState::NotStarted,
        r.vmm_version@ == "Amazing version"@,
        r.app_name@ == "cpu-template-helper"@,
{
    InstanceInfo {
        id: "anonymous-instance".to_owned(),
        state: InstanceState::NotStarted,
        vmm_version: "Amazing version".to_owned(),
        app_name: "cpu-template-helper".to_owned(),
    }
}

impl Vm {
    /// Checks this description with the given handles and prepares its
    /// launch, or returns the first fault. The run then starts with the
    /// engine's construction call.
    ///
    /// With both handles ready and a command line of less than 4096 bytes
    /// there is no fault.
    pub fn launch<K>(&self, kernel: HandleCopy<K>, initrd: Option<HandleCopy<K>>) -> (r: Result<
        Launch<K>,
        ConfigError,
    >)
        ensures
            match boot_fault_of(self@, kernel, initrd) {
                Some(e) => r is Err && r->Err_0 == e,
                None => {
                    &&& r is Ok
                    &&& r->Ok_0.state == State::Constructing
                    &&& r->Ok_0.state.action() == Action::Construct
                    &&& r->Ok_0.instance.id@ == "anonymous-instance"@
                    &&& r->Ok_0.instance.state == InstanceState::NotStarted
                    &&& r->Ok_0.instance.vmm_version@ == "Amazing version"@
                    &&& r->Ok_0.instance.app_name@ == "cpu-template-helper"@
                    &&& r->Ok_0.resources.machine == machine_of(self@)
                    &&& r->Ok_0.resources.boot.cmdline == cmdline_of(self@)
                    &&& r->Ok_0.resources.boot.kernel == kernel->Ready_0
                    &&& r->Ok_0.resources.boot.initrd == initrd_of(initrd)
                    &&& r->Ok_0.resources.devices@ == topology_of(self@)
                    &&& !r->Ok_0.resources.boot_timer
                },
            },
            initrd != Some(HandleCopy::<K>::Failed) && kernel is Ready && byte_len(
                self@.kernel_cmdline,
            ) < CMDLINE_CAPACITY ==> r is Ok,
    {
        match self.resource_bundle(kernel, initrd) {
            Ok(resources) => Ok(
                Launch { instance: instance_info(), resources, state: State::start() },
            ),
            Err(e) => Err(e),
        }
    }
}

} // verus!
