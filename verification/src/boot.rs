//! The boot sequence, as far as it decides anything.
//!
//! Booting alternates outside work (bringing up the logger, asking the
//! bootloader for a framebuffer, binding the console to it) with decisions:
//! what comes next, and whether a failure is fatal. Every failure before the
//! console is bound is. The decisions are [`next_step`]; the kernel binary
//! does the work and reports back.

use vstd::prelude::*;
use crate::error::{KernelError, KernelResult};

verus! {

/// What has just happened during boot.
pub enum BootEvent {
    /// The bootloader has handed over control.
    Entered,
    /// The logging facade has been brought up, or could not be.
    LoggingUp(KernelResult<()>),
    /// The boot information has been searched for a framebuffer.
    FramebufferSought { found: bool },
    /// The console has been bound to the framebuffer, or could not be.
    ConsoleBound(KernelResult<()>),
    /// The startup messages have been printed.
    Greeted,
}

/// Why boot cannot go on.
#[derive(Debug, Clone, Copy, PartialEq, Eq, Structural)]
pub enum BootFailure {
    /// The logging facade could not be brought up.
    Logger(KernelError),
    /// The bootloader supplied no framebuffer.
    NoFramebuffer,
    /// The console could not be bound to the framebuffer.
    Console(KernelError),
}

/// What the kernel does next during boot.
#[derive(Debug, Clone, Copy, PartialEq, Eq, Structural)]
pub enum BootAction {
    /// Bring up the logging facade.
    BringUpLogging,
    /// Search the boot information for a framebuffer.
    FindFramebuffer,
    /// Bind the console to the framebuffer.
    BindConsole,
    /// Print the startup messages.
    Greet,
    /// Boot is done: wait for interrupts for ever.
    Idle,
    /// Boot has failed: report the failure and halt.
    Halt(BootFailure),
}

/// The next step of boot after `event`.
pub open spec fn boot_step(event: BootEvent) -> BootAction {
    match event {
        BootEvent::Entered => BootAction::BringUpLogging,
        BootEvent::LoggingUp(Ok(())) => BootAction::FindFramebuffer,
        BootEvent::LoggingUp(Err(e)) => BootAction::Halt(BootFailure::Logger(e)),
        BootEvent::FramebufferSought { found: true } => BootAction::BindConsole,
        BootEvent::FramebufferSought { found: false } => BootAction::Halt(
            BootFailure::NoFramebuffer,
        ),
        BootEvent::ConsoleBound(Ok(())) => BootAction::Greet,
        BootEvent::ConsoleBound(Err(e)) => BootAction::Halt(BootFailure::Console(e)),
        BootEvent::Greeted => BootAction::Idle,
    }
}

/// Decides the next step of boot.
///
/// The order is fixed: logging, framebuffer, console, greeting, idle. A
/// failure of any of the first three halts boot; the console is bound at
/// most once, because nothing leads back to [`BootAction::BindConsole`].
pub fn next_step(event: BootEvent) -> (action: BootAction)
    ensures
        action == boot_step(event),
{
    match event {
        BootEvent::Entered => BootAction::BringUpLogging,
        BootEvent::LoggingUp(Ok(())) => BootAction::FindFramebuffer,
        BootEvent::LoggingUp(Err(e)) => BootAction::Halt(BootFailure::Logger(e)),
        BootEvent::FramebufferSought { found: true } => BootAction::BindConsole,
        BootEvent::FramebufferSought { found: false } => BootAction::Halt(
            BootFailure::NoFramebuffer,
        ),
        BootEvent::ConsoleBound(Ok(())) => BootAction::Greet,
        BootEvent::ConsoleBound(Err(e)) => BootAction::Halt(BootFailure::Console(e)),
        BootEvent::Greeted => BootAction::Idle,
    }
}

impl BootFailure {
    /// What the failure is called in the panic message.
    pub open spec fn headline_text(self) -> Seq<char> {
        match self {
            BootFailure::Logger(_) => "Failed to initialize logger"@,
            BootFailure::NoFramebuffer => "No framebuffer provided"@,
            BootFailure::Console(_) => "Failed to initialize VGA"@,
        }
    }

    /// The error behind the failure, where there is one.
    pub open spec fn spec_cause(&self) -> Option<KernelError> {
        match *self {
            BootFailure::Logger(e) => Some(e),
            BootFailure::NoFramebuffer => None,
            BootFailure::Console(e) => Some(e),
        }
    }

    /// What the failure is called in the panic message.
    pub fn headline(&self) -> (text: &'static str)
        ensures
            text@ == self.headline_text(),
    {
        match self {
            BootFailure::Logger(_) => "Failed to initialize logger",
            BootFailure::NoFramebuffer => "No framebuffer provided",
            BootFailure::Console(_) => "Failed to initialize VGA",
        }
    }

    /// The error behind the failure, where there is one.
    #[verifier::when_used_as_spec(spec_cause)]
    pub fn cause(&self) -> (cause: Option<KernelError>)
        ensures
            cause == self.spec_cause(),
    {
        match self {
            BootFailure::Logger(e) => Some(*e),
            BootFailure::NoFramebuffer => None,
            BootFailure::Console(e) => Some(*e),
        }
    }
}

/// Number of startup messages.
pub const STARTUP_MESSAGE_COUNT: usize = 7;

/// The startup messages, in the order they are printed.
pub open spec fn startup_message_text(index: int) -> Option<Seq<char>> {
    if index == 0 {
        Some("=== UTOPIA KERNEL STARTED ==="@)
    } else if index == 1 {
        Some("STEP 1: VGA INIT OK"@)
    } else if index == 2 {
        Some("STEP 2: KERNEL RUNNING"@)
    } else if index == 3 {
        Some("STEP 3: VGA OUTPUT TEST"@)
    } else if index == 4 {
        Some("STEP 4: ALL SYSTEMS OK!"@)
    } else if index == 5 {
        Some("========================="@)
    } else if index == 6 {
        Some("STEP 5: ENTERING MAIN LOOP..."@)
    } else {
        None
    }
}

/// The startup message with the given number, counting from zero, or
/// nothing when there are no more.
pub fn startup_message(index: usize) -> (message: Option<&'static str>)
    ensures
        message is Some <==> index < STARTUP_MESSAGE_COUNT,
        match message {
            Some(text) => startup_message_text(index as int) == Some(text@),
            None => startup_message_text(index as int) is None,
        },
{
    if index == 0 {
        Some("=== UTOPIA KERNEL STARTED ===")
    } else if index == 1 {
        Some("STEP 1: VGA INIT OK")
    } else if index == 2 {
        Some("STEP 2: KERNEL RUNNING")
    } else if index == 3 {
        Some("STEP 3: VGA OUTPUT TEST")
    } else if index == 4 {
        Some("STEP 4: ALL SYSTEMS OK!")
    } else if index == 5 {
        Some("=========================")
    } else if index == 6 {
        Some("STEP 5: ENTERING MAIN LOOP...")
    } else {
        None
    }
}

} // verus!
