//! The character devices that every container gets, and the environment
//! that every command inside a container starts with.
use vstd::prelude::*;

verus! {

/// Permission bits of every device node: read and write for everyone.
pub const NODE_MODE: u32 = 0o666;

/// A character device node: where it lives inside the container, and its
/// device number as a major and a minor number.
#[derive(Debug, PartialEq, Eq)]
pub struct DeviceSpec {
    pub path: String,
    pub major: u64,
    pub minor: u64,
}

impl View for DeviceSpec {
    type V = (Seq<char>, u64, u64);

    open spec fn view(&self) -> (Seq<char>, u64, u64) {
        (self.path@, self.major, self.minor)
    }
}

/// The device table: null (1, 3), zero (1, 5), random (1, 8) and
/// urandom (1, 9), under `/dev`.
pub open spec fn device_table_spec() -> Seq<(Seq<char>, u64, u64)> {
    seq![
        ("/dev/null"@, 1u64, 3u64),
        ("/dev/zero"@, 1u64, 5u64),
        ("/dev/random"@, 1u64, 8u64),
        ("/dev/urandom"@, 1u64, 9u64),
    ]
}

fn device(path: &str, major: u64, minor: u64) -> (d: DeviceSpec)
    ensures
        d@ == (path@, major, minor),
{
    DeviceSpec { path: String::from_str(path), major, minor }
}

/// The devices created inside every container, in the order they are made.
pub fn device_table() -> (r: Vec<DeviceSpec>)
    ensures
        r@.len() == device_table_spec().len(),
        forall|i: int| 0 <= i < r@.len() ==> #[trigger] r@[i]@ == device_table_spec()[i],
{
    let r = vec![
        device("/dev/null", 1, 3),
        device("/dev/zero", 1, 5),
        device("/dev/random", 1, 8),
        device("/dev/urandom", 1, 9),
    ];
    assert forall|i: int| 0 <= i < r@.len() implies #[trigger] r@[i]@ == device_table_spec()[i] by {
        if i == 0 {} else if i == 1 {} else if i == 2 {} else {}
    }
    r
}

/// The device number that glibc's `makedev` builds from a major and a minor
/// number: the low twelve bits of the major number at bits 8 to 19, the rest
/// from bit 44, the low byte of the minor number at bits 0 to 7, the rest
/// from bit 20.
pub open spec fn dev_number(major: u64, minor: u64) -> u64 {
    ((major & 0xffff_f000u64) << 32u64) | ((major & 0x0000_0fffu64) << 8u64) | ((minor
        & 0xffff_ff00u64) << 12u64) | (minor & 0x0000_00ffu64)
}

/// Relies on `nix::sys::stat::makedev`, which combines the two numbers with
/// exactly the shifts and masks of `dev_number`.
#[verifier::external_body]
pub(crate) fn device_number(major: u64, minor: u64) -> (r: u64)
    ensures
        r == dev_number(major, minor),
{
    nix::sys::stat::makedev(major, minor)
}

/// The variables that a command inside a container finds, and nothing else.
pub open spec fn environment_spec() -> Seq<(Seq<char>, Seq<char>)> {
    seq![("PATH"@, "/sbin:/bin/:/usr/bin/:/usr/sbin"@), ("TERM"@, "xterm-256color"@)]
}

/// The environment of a command inside a container, as (name, value) pairs.
pub fn environment() -> (r: Vec<(String, String)>)
    ensures
        r@.len() == environment_spec().len(),
        forall|i: int|
            0 <= i < r@.len() ==> (#[trigger] r@[i]).0@ == environment_spec()[i].0 && r@[i].1@
                == environment_spec()[i].1,
{
    let r = vec![
        (String::from_str("PATH"), String::from_str("/sbin:/bin/:/usr/bin/:/usr/sbin")),
        (String::from_str("TERM"), String::from_str("xterm-256color")),
    ];
    assert forall|i: int| 0 <= i < r@.len() implies (#[trigger] r@[i]).0@ == environment_spec()[i].0
        && r@[i].1@ == environment_spec()[i].1 by {
        if i == 0 {} else {}
    }
    r
}

} // verus!
