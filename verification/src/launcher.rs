//! The host side: how the emulator is started on a kernel image.
//!
//! Starting a process is left to the launcher binary. What is decided here
//! is the command line it starts, and the status it leaves with.

use vstd::prelude::*;
use vstd::string::StringExecFns;

verus! {

/// The emulator the launcher starts.
pub const QEMU_PROGRAM: &'static str = "C:\\Program Files\\qemu\\qemu-system-x86_64.exe";

/// The arguments the emulator is started with: the kernel image as a raw
/// drive, and the emulated serial port tied to the launcher's own standard
/// input and output.
pub open spec fn qemu_argument_list(image: Seq<char>) -> Seq<Seq<char>> {
    seq!["-drive"@, "format=raw,file="@ + image, "-serial"@, "stdio"@]
}

/// Composes the arguments the emulator is started with on the disk image at
/// `image`.
pub fn qemu_arguments(image: &str) -> (arguments: Vec<String>)
    ensures
        arguments@.len() == 4,
        forall|i: int| 0 <= i < 4 ==> (#[trigger] arguments@[i])@ == qemu_argument_list(image@)[i],
{
    let mut arguments: Vec<String> = Vec::new();
    arguments.push(String::from_str("-drive"));
    arguments.push(String::from_str("format=raw,file=").concat(image));
    arguments.push(String::from_str("-serial"));
    arguments.push(String::from_str("stdio"));
    arguments
}

/// The status the launcher leaves with: zero when the emulator reported
/// success, one when it did not.
pub fn exit_status(emulator_succeeded: bool) -> (status: i32)
    ensures
        status == if emulator_succeeded { 0i32 } else { 1i32 },
{
    if emulator_succeeded {
        0
    } else {
        1
    }
}

} // verus!
