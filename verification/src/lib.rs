//! Planning and supervision of a microVM launch.
//!
//! A [`Vm`] describes the machine that is wanted. From it the library derives
//! the device topology and the resource bundle that a virtualization engine is
//! given, and it holds the decisions of the loop that supervises the guest
//! until it stops. Driving the engine itself is left to the caller.

pub mod bundle;
pub mod cmdline;
pub mod config;
pub mod devices;
pub mod error;
pub mod ids;
pub mod launch;
pub mod mac;
pub mod supervise;

pub use bundle::{BootConfig, HandleCopy, HugePages, MachineConfig, ResourceBundle};
pub use config::{Disk, NetConfig, Vm};
pub use devices::{BlockDevice, CachePolicy, DeviceRequest, DeviceTopology, NetDevice, VsockDevice};
pub use error::ConfigError;
pub use launch::{InstanceInfo, InstanceState, Launch};
pub use supervise::{Action, EngineError, Event, ExitStatus, GuestExit, State};
