//! The console behind a lock.
//!
//! The kernel keeps its one console in a `spin::Mutex`. A writer that must
//! never block, and never fail, asks for the lock without waiting and gives
//! up when another writer holds it: a panic that strikes in the middle of a
//! write can then still reach the halt, instead of spinning for ever on a
//! lock that its own interrupted write holds.

use vstd::prelude::*;
use crate::console::Console;
use crate::error::{KernelError, KernelResult};
use crate::format::render;

verus! {

/// `spin::Mutex`, the lock the kernel keeps its console in.
#[verifier::external_type_specification]
#[verifier::external_body]
#[verifier::reject_recursive_types(T)]
#[verifier::reject_recursive_types(R)]
pub struct ExMutex<T: ?Sized, R>(spin::mutex::Mutex<T, R>);

/// `spin::MutexGuard`, which stands for a held lock and releases it when
/// dropped.
#[verifier::external_type_specification]
#[verifier::external_body]
#[verifier::reject_recursive_types(T)]
pub struct ExMutexGuard<'a, T: 'a + ?Sized>(spin::mutex::MutexGuard<'a, T>);

/// `spin::relax::Spin`, the default waiting strategy of the lock.
#[verifier::external_type_specification]
#[verifier::external_body]
pub struct ExSpin(spin::relax::Spin);

/// `spin::Mutex::try_lock`: returns at once, with a guard when the lock was
/// free and with nothing when it was held. Which of the two depends on the
/// other holders, so nothing is claimed of the result.
pub assume_specification<T: ?Sized, R>[ spin::mutex::Mutex::<T, R>::try_lock ](
    lock: &spin::mutex::Mutex<T, R>,
) -> (guard: Option<spin::mutex::MutexGuard<'_, T>>)
;

/// `DerefMut::deref_mut` of `spin::MutexGuard`: the console under the held
/// lock.
///
/// Trusted: the body is not verified. The console's state is whatever the
/// last holder left, so nothing is claimed of it.
#[verifier::external_body]
fn held<'g, 'l, 'a>(guard: &'g mut spin::mutex::MutexGuard<'l, Console<'a>>) -> (console: &'g mut Console<'a>) {
    core::ops::DerefMut::deref_mut(guard)
}

/// Writes `text` to the console under a lock that may or may not have been
/// acquired: writes and says what came of it if there is a guard, does
/// nothing if there is none. The lock is released on return.
pub fn write_under(guard: Option<spin::MutexGuard<'_, Console<'_>>>, text: &[u8]) -> (outcome:
    Option<KernelResult<()>>)
    ensures
        outcome is Some <==> guard is Some,
        outcome matches Some(Err(e)) ==> e == KernelError::FrameBufferUnavailable,
{
    match guard {
        Some(mut guard) => {
            let console = held(&mut guard);
            Some(console.write(text))
        },
        None => None,
    }
}

/// Writes `text` to the console if its lock is free, and says what came of
/// it; returns nothing, without waiting and without drawing, if the lock is
/// held.
pub fn try_write(lock: &spin::Mutex<Console<'_>>, text: &[u8]) -> (outcome: Option<
    KernelResult<()>,
>)
    ensures
        outcome matches Some(Err(e)) ==> e == KernelError::FrameBufferUnavailable,
{
    write_under(lock.try_lock(), text)
}

/// Writes `text` to the console if that can be done at once, and otherwise
/// does nothing: it never waits for the lock and never reports a failure.
/// This is the path for writers that must not fail, the logger and the
/// panic handler.
pub fn write_best_effort(lock: &spin::Mutex<Console<'_>>, text: &[u8]) {
    let _ = try_write(lock, text);
}

/// Formats `args` and writes the text to the console if that can be done
/// at once; otherwise, or if formatting fails, does nothing. It never waits
/// for the lock and never reports a failure.
pub fn print_best_effort(lock: &spin::Mutex<Console<'_>>, args: core::fmt::Arguments<'_>) {
    match render(args) {
        Ok(text) => write_best_effort(lock, text.as_str().as_bytes()),
        Err(_) => {},
    }
}

} // verus!
