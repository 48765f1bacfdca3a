//! The kernel command line.
//!
//! A command line must fit in 4096 bytes and must be taken by the command line
//! parser of the `linux-loader` crate, which splits it into the kernel's
//! arguments and those of the init process. The parsed value is opaque here:
//! it is kept as it comes, for the engine.

use vstd::prelude::*;

use crate::error::ConfigError;

verus! {

/// The parsed command line of the `linux-loader` crate. Nothing is known of
/// what a value holds.
#[verifier::external_type_specification]
#[verifier::external_body]
pub struct ExCmdline(linux_loader::cmdline::Cmdline);

/// The fault type of the `linux-loader` crate's command line functions.
#[verifier::external_type_specification]
#[verifier::external_body]
pub struct ExCmdlineFault(linux_loader::cmdline::Error);

/// The most bytes a command line may have, and the capacity that the parser is
/// given, which counts the terminating zero byte too.
pub const CMDLINE_CAPACITY: usize = 4096;

/// The length of a text in bytes, as UTF-8.
pub open spec fn byte_len(text: Seq<char>) -> nat {
    vstd::utf8::encode_utf8(text).len()
}

/// What `linux_loader::cmdline::Cmdline::try_from` returns for `raw` at the
/// given capacity: the parsed command line, or the parser's fault.
pub uninterp spec fn parsed_cmdline(raw: Seq<char>, capacity: usize) -> Result<
    linux_loader::cmdline::Cmdline,
    linux_loader::cmdline::Error,
>;

/// `linux_loader::cmdline::Cmdline::try_from`: what the parser returns depends
/// on `raw` and the capacity alone. A capacity of 0 is always refused. A text
/// shorter than the capacity is always taken, since the parser only ever drops
/// bytes of `raw` and counts one more for the terminator.
#[verifier::external_body]
pub(crate) fn parse_cmdline(raw: &str, capacity: usize) -> (r: Result<
    linux_loader::cmdline::Cmdline,
    linux_loader::cmdline::Error,
>)
    ensures
        r == parsed_cmdline(raw@, capacity),
        capacity == 0 ==> r is Err,
        byte_len(raw@) < capacity ==> r is Ok,
{
    linux_loader::cmdline::Cmdline::try_from(raw, capacity)
}

/// The fault of a command line of `bytes` bytes, if it has one; `accepted`
/// says whether the parser took it.
pub open spec fn cmdline_fault(bytes: nat, accepted: bool) -> Option<ConfigError> {
    if bytes > CMDLINE_CAPACITY {
        Some(ConfigError::CmdlineTooLong)
    } else if !accepted {
        Some(ConfigError::CmdlineRejected)
    } else {
        None
    }
}

/// Decides on a command line of `bytes` bytes from what the parser returned
/// for it: too long a text is refused whatever the parser said, and otherwise
/// the parser's verdict stands and its value is handed on as it is.
pub fn cmdline_verdict(
    bytes: usize,
    parsed: Result<linux_loader::cmdline::Cmdline, linux_loader::cmdline::Error>,
) -> (r: Result<linux_loader::cmdline::Cmdline, ConfigError>)
    ensures
        match cmdline_fault(bytes as nat, parsed is Ok) {
            Some(e) => r == Err::<linux_loader::cmdline::Cmdline, ConfigError>(e),
            None => r is Ok && r->Ok_0 == parsed->Ok_0,
        },
{
    if bytes > CMDLINE_CAPACITY {
        return Err(ConfigError::CmdlineTooLong);
    }
    match parsed {
        Ok(cmdline) => Ok(cmdline),
        Err(_) => Err(ConfigError::CmdlineRejected),
    }
}

/// Checks and parses a kernel command line.
///
/// A text of more than 4096 bytes is refused as too long. Any other is
/// refused exactly if the parser refuses it at a capacity of 4096, and else
/// the result is what the parser returned. The parser takes every text of
/// less than 4096 bytes.
pub fn kernel_cmdline(text: &str) -> (r: Result<linux_loader::cmdline::Cmdline, ConfigError>)
    ensures
        match cmdline_fault(byte_len(text@), parsed_cmdline(text@, CMDLINE_CAPACITY) is Ok) {
            Some(e) => r == Err::<linux_loader::cmdline::Cmdline, ConfigError>(e),
            None => r is Ok && r->Ok_0 == parsed_cmdline(text@, CMDLINE_CAPACITY)->Ok_0,
        },
        byte_len(text@) < CMDLINE_CAPACITY ==> r is Ok,
{
    let parsed = parse_cmdline(text, CMDLINE_CAPACITY);
    cmdline_verdict(text.as_bytes().len(), parsed)
}

} // verus!
