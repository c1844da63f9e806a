use utopia_kernel::boot::{
    next_step, startup_message, BootAction, BootEvent, BootFailure, STARTUP_MESSAGE_COUNT,
};
use utopia_kernel::constants::qemu::{EXIT_FAILED, EXIT_PORT, EXIT_SUCCESS};
use utopia_kernel::error::KernelError;
use utopia_kernel::qemu::QemuExitCode;

#[test]
fn boot_runs_logging_then_framebuffer_then_console_then_greeting() {
    assert_eq!(next_step(BootEvent::Entered), BootAction::BringUpLogging);
    assert_eq!(next_step(BootEvent::LoggingUp(Ok(()))), BootAction::FindFramebuffer);
    assert_eq!(
        next_step(BootEvent::FramebufferSought { found: true }),
        BootAction::BindConsole
    );
    assert_eq!(next_step(BootEvent::ConsoleBound(Ok(()))), BootAction::Greet);
    assert_eq!(next_step(BootEvent::Greeted), BootAction::Idle);
}

#[test]
fn a_logger_failure_halts_boot() {
    assert_eq!(
        next_step(BootEvent::LoggingUp(Err(KernelError::LoggerInitFailed))),
        BootAction::Halt(BootFailure::Logger(KernelError::LoggerInitFailed))
    );
}

#[test]
fn a_missing_framebuffer_halts_boot() {
    assert_eq!(
        next_step(BootEvent::FramebufferSought { found: false }),
        BootAction::Halt(BootFailure::NoFramebuffer)
    );
}

#[test]
fn a_console_failure_halts_boot() {
    assert_eq!(
        next_step(BootEvent::ConsoleBound(Err(KernelError::FrameBufferUnavailable))),
        BootAction::Halt(BootFailure::Console(KernelError::FrameBufferUnavailable))
    );
}

#[test]
fn boot_failures_have_a_headline_and_a_cause() {
    let logger = BootFailure::Logger(KernelError::SerialInitFailed);
    assert_eq!(logger.headline(), "Failed to initialize logger");
    assert_eq!(logger.cause(), Some(KernelError::SerialInitFailed));
    assert_eq!(BootFailure::NoFramebuffer.headline(), "No framebuffer provided");
    assert_eq!(BootFailure::NoFramebuffer.cause(), None);
    let console = BootFailure::Console(KernelError::HardwareError);
    assert_eq!(console.headline(), "Failed to initialize VGA");
    assert_eq!(console.cause(), Some(KernelError::HardwareError));
}

#[test]
fn there_are_seven_startup_messages() {
    assert_eq!(STARTUP_MESSAGE_COUNT, 7);
    assert_eq!(startup_message(0), Some("=== UTOPIA KERNEL STARTED ==="));
    assert_eq!(startup_message(1), Some("STEP 1: VGA INIT OK"));
    assert_eq!(startup_message(2), Some("STEP 2: KERNEL RUNNING"));
    assert_eq!(startup_message(3), Some("STEP 3: VGA OUTPUT TEST"));
    assert_eq!(startup_message(4), Some("STEP 4: ALL SYSTEMS OK!"));
    assert_eq!(startup_message(5), Some("========================="));
    assert_eq!(startup_message(6), Some("STEP 5: ENTERING MAIN LOOP..."));
    assert_eq!(startup_message(7), None);
    assert_eq!(startup_message(usize::MAX), None);
}

#[test]
fn exit_codes_are_the_values_the_exit_device_expects() {
    assert_eq!(QemuExitCode::Success.code(), 0x10);
    assert_eq!(QemuExitCode::Failed.code(), 0x11);
    assert_eq!(QemuExitCode::Success.code(), EXIT_SUCCESS);
    assert_eq!(QemuExitCode::Failed.code(), EXIT_FAILED);
    assert_eq!(EXIT_PORT, 0xf4);
}
