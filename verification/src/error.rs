//! Why a description cannot be turned into a launch.

use vstd::prelude::*;

verus! {

/// A fault in the description, found before the engine is given anything.
#[derive(Clone, Copy, Debug, PartialEq, Eq, Structural)]
pub enum ConfigError {
    /// The ramdisk handle could not be copied for the engine.
    InitrdHandle,
    /// The kernel command line is longer than the limit.
    CmdlineTooLong,
    /// The kernel command line was refused by the command line parser.
    CmdlineRejected,
    /// The kernel handle could not be copied for the engine.
    KernelHandle,
    /// A second root disk was asked for.
    SecondRootDevice,
    /// A second network interface was asked for.
    SecondNetDevice,
    /// A second vsock device was asked for.
    SecondVsockDevice,
}

impl ConfigError {
    /// The fault in words.
    pub open spec fn text(self) -> Seq<char> {
        match self {
            ConfigError::InitrdHandle => "the ramdisk handle could not be copied"@,
            ConfigError::CmdlineTooLong => "the kernel command line is longer than 4096 bytes"@,
            ConfigError::CmdlineRejected => "the kernel command line was refused"@,
            ConfigError::KernelHandle => "the kernel handle could not be copied"@,
            ConfigError::SecondRootDevice => "a second root disk was asked for"@,
            ConfigError::SecondNetDevice => "a second network interface was asked for"@,
            ConfigError::SecondVsockDevice => "a second vsock device was asked for"@,
        }
    }

    /// The fault in words.
    pub fn message(&self) -> (r: String)
        ensures
            r@ == self.text(),
    {
        match self {
            ConfigError::InitrdHandle => "the ramdisk handle could not be copied".to_owned(),
            ConfigError::CmdlineTooLong => "the kernel command line is longer than 4096 bytes"
                .to_owned(),
            ConfigError::CmdlineRejected => "the kernel command line was refused".to_owned(),
            ConfigError::KernelHandle => "the kernel handle could not be copied".to_owned(),
            ConfigError::SecondRootDevice => "a second root disk was asked for".to_owned(),
            ConfigError::SecondNetDevice => "a second network interface was asked for".to_owned(),
            ConfigError::SecondVsockDevice => "a second vsock device was asked for".to_owned(),
        }
    }
}

} // verus!
