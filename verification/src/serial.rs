//! The serial line, as far as the kernel decides anything about it.
//!
//! Driving the UART is port I/O and belongs to the kernel binary. What is
//! decided here is whether a print may go out at all, what bytes it comes
//! to, and which error the caller sees. A [`SerialLine`] collects the bytes;
//! the binary drains them into the port.

use vstd::prelude::*;
use vstd::utf8::encode_utf8;
use crate::error::{KernelError, KernelResult, SafeWrite};
use crate::format::render;

verus! {

/// The kernel's end of the serial line.
#[derive(Debug)]
pub struct SerialLine {
    open: bool,
    pending: Vec<u8>,
}

impl SerialLine {
    /// The bytes that have been printed and not yet handed to the port,
    /// oldest first.
    pub closed spec fn view(&self) -> Seq<u8> {
        self.pending@
    }

    /// Whether the port behind the line has been set up.
    pub closed spec fn spec_is_open(&self) -> bool {
        self.open
    }

    /// A line whose port has not been set up yet.
    pub fn new() -> (line: SerialLine)
        ensures
            !line.is_open(),
            line@ == Seq::<u8>::empty(),
    {
        SerialLine { open: false, pending: Vec::new() }
    }

    /// Whether the port behind the line has been set up.
    #[verifier::when_used_as_spec(spec_is_open)]
    pub fn is_open(&self) -> (open: bool)
        ensures
            open == self.spec_is_open(),
    {
        self.open
    }

    /// Records that the port has been set up: from now on prints go out.
    pub fn open(&mut self)
        ensures
            final(self).is_open(),
            final(self)@ == old(self)@,
    {
        self.open = true;
    }

    /// Hands over the bytes that wait for the port, oldest first, and
    /// leaves none behind.
    pub fn take_pending(&mut self) -> (bytes: Vec<u8>)
        ensures
            bytes@ == old(self)@,
            final(self)@ == Seq::<u8>::empty(),
            final(self).is_open() == old(self).is_open(),
    {
        let mut bytes: Vec<u8> = Vec::new();
        core::mem::swap(&mut self.pending, &mut bytes);
        bytes
    }

    /// Queues `bytes` for the port.
    ///
    /// Fails with [`KernelError::SerialInitFailed`], and queues nothing,
    /// while the port has not been set up.
    pub fn send(&mut self, bytes: &[u8]) -> (outcome: KernelResult<()>)
        ensures
            final(self).is_open() == old(self).is_open(),
            old(self).is_open() ==> outcome == Ok::<(), KernelError>(()) && final(self)@ == old(
                self,
            )@ + bytes@,
            !old(self).is_open() ==> outcome == Err::<(), KernelError>(
                KernelError::SerialInitFailed,
            ) && final(self)@ == old(self)@,
    {
        if self.open {
            self.pending.extend_from_slice(bytes);
            Ok(())
        } else {
            Err(KernelError::SerialInitFailed)
        }
    }

    /// Queues text that the caller's formatting machinery has produced, or
    /// reports that it produced none.
    ///
    /// While the port has not been set up the call fails with
    /// [`KernelError::SerialInitFailed`] whatever the formatting came to.
    /// Otherwise a formatting failure becomes [`KernelError::WriteFailed`]
    /// and nothing is queued; formatted text is queued as its UTF-8 bytes.
    pub fn send_rendered(&mut self, rendered: Result<String, core::fmt::Error>) -> (outcome:
        KernelResult<()>)
        ensures
            final(self).is_open() == old(self).is_open(),
            match (old(self).is_open(), rendered) {
                (true, Ok(text)) => outcome == Ok::<(), KernelError>(()) && final(self)@ == old(
                    self,
                )@ + encode_utf8(text@),
                (true, Err(_)) => outcome == Err::<(), KernelError>(KernelError::WriteFailed)
                    && final(self)@ == old(self)@,
                (false, _) => outcome == Err::<(), KernelError>(KernelError::SerialInitFailed)
                    && final(self)@ == old(self)@,
            },
    {
        if !self.open {
            return Err(KernelError::SerialInitFailed);
        }
        match rendered {
            Ok(text) => self.send(text.as_str().as_bytes()),
            Err(e) => Err(KernelError::from(e)),
        }
    }
}

impl SafeWrite for SerialLine {
    /// Queues the UTF-8 bytes of `s` for the port.
    fn safe_write_str(&mut self, s: &str) -> (outcome: KernelResult<()>)
        ensures
            final(self).is_open() == old(self).is_open(),
            old(self).is_open() ==> outcome == Ok::<(), KernelError>(()) && final(self)@ == old(
                self,
            )@ + encode_utf8(s@),
            !old(self).is_open() ==> outcome == Err::<(), KernelError>(
                KernelError::SerialInitFailed,
            ) && final(self)@ == old(self)@,
    {
        self.send(s.as_bytes())
    }

    /// Formats `args` and queues the text for the port. While the port has
    /// not been set up the call fails before anything is formatted.
    fn safe_write_fmt(&mut self, args: core::fmt::Arguments<'_>) -> (outcome: KernelResult<()>)
        ensures
            final(self).is_open() == old(self).is_open(),
            old(self).is_open() ==> match outcome {
                Ok(()) => exists|text: Seq<char>|
                    final(self)@ == old(self)@ + #[trigger] encode_utf8(text),
                Err(e) => e == KernelError::WriteFailed && final(self)@ == old(self)@,
            },
            !old(self).is_open() ==> outcome == Err::<(), KernelError>(
                KernelError::SerialInitFailed,
            ) && final(self)@ == old(self)@,
    {
        if !self.open {
            return Err(KernelError::SerialInitFailed);
        }
        let rendered = render(args);
        self.send_rendered(rendered)
    }
}

/// Prints formatted text on the serial line.
///
/// Fails with [`KernelError::SerialInitFailed`] while the port has not been
/// set up, and with [`KernelError::WriteFailed`] when formatting fails;
/// either way nothing is queued.
pub fn _print(line: &mut SerialLine, args: core::fmt::Arguments<'_>) -> (outcome: KernelResult<()>)
    ensures
        final(line).is_open() == old(line).is_open(),
        old(line).is_open() ==> match outcome {
            Ok(()) => exists|text: Seq<char>|
                final(line)@ == old(line)@ + #[trigger] encode_utf8(text),
            Err(e) => e == KernelError::WriteFailed && final(line)@ == old(line)@,
        },
        !old(line).is_open() ==> outcome == Err::<(), KernelError>(KernelError::SerialInitFailed)
            && final(line)@ == old(line)@,
{
    line.safe_write_fmt(args)
}

/// Prints formatted text on the serial line if that is possible and does
/// nothing if it is not. It reports no failure.
pub fn _print_safe(line: &mut SerialLine, args: core::fmt::Arguments<'_>)
    ensures
        final(line).is_open() == old(line).is_open(),
        final(line)@ == old(line)@ || (old(line).is_open() && exists|text: Seq<char>|
            final(line)@ == old(line)@ + #[trigger] encode_utf8(text)),
{
    let _ = line.safe_write_fmt(args);
}

} // verus!
