//! A small LED driver client, illustrating how a driver uses the syscall
//! facade: every operation is one Command syscall, and no driver bypasses
//! the facade to issue raw syscalls.

use vstd::prelude::*;
use crate::fake::Kernel;
use crate::fake::LED_DRIVER_NUM;
use crate::fake::LEDS_COUNT;
use crate::fake::LED_ON;
use crate::fake::LED_OFF;
use crate::fake::LED_TOGGLE;
use crate::command_return::lemma_lo32_of_u32;

verus! {

/// The LED driver client.
pub struct Leds;

impl Leds {
    /// Asks the LED driver how many LEDs exist; nothing is reported when
    /// the driver is not installed.
    pub fn count(kernel: &mut Kernel) -> (r: Option<u32>)
        requires
            old(kernel).wf(),
            old(kernel).running(),
        ensures
            final(kernel).wf(),
            final(kernel).running(),
            final(kernel).leds_view() == old(kernel).leds_view(),
            final(kernel).drivers@ == old(kernel).drivers@,
            final(kernel).upcalls@ == old(kernel).upcalls@,
            final(kernel).allows_rw@ == old(kernel).allows_rw@,
            final(kernel).allows_ro@ == old(kernel).allows_ro@,
            final(kernel).pending@ == old(kernel).pending@,
            final(kernel).memory_break == old(kernel).memory_break,
            r == if old(kernel).leds_view() is Some {
                Some(old(kernel).leds_view()->0.len() as u32)
            } else {
                None::<u32>
            },
    {
        let cr = kernel.command(LED_DRIVER_NUM, LEDS_COUNT, 0, 0);
        proof {
            if old(kernel).leds_view() is Some {
                lemma_lo32_of_u32(old(kernel).leds_view()->0.len() as u32);
            }
            assert(final(kernel).leds_view() == old(kernel).leds_view());
        }
        cr.get_success_u32()
    }

    /// Turns one LED on; out of range or without the driver, nothing
    /// changes.
    pub fn on(kernel: &mut Kernel, led: u32)
        requires
            old(kernel).wf(),
            old(kernel).running(),
        ensures
            final(kernel).wf(),
            final(kernel).running(),
            final(kernel).drivers@ == old(kernel).drivers@,
            final(kernel).upcalls@ == old(kernel).upcalls@,
            final(kernel).allows_rw@ == old(kernel).allows_rw@,
            final(kernel).allows_ro@ == old(kernel).allows_ro@,
            final(kernel).pending@ == old(kernel).pending@,
            final(kernel).memory_break == old(kernel).memory_break,
            final(kernel).leds_view() == if old(kernel).leds_view() is Some && (led as int) < old(
                kernel,
            ).leds_view()->0.len() {
                Some(old(kernel).leds_view()->0.update(led as int, true))
            } else {
                old(kernel).leds_view()
            },
    {
        let _ = kernel.command(LED_DRIVER_NUM, LED_ON, led as usize, 0);
    }

    /// Turns one LED off; out of range or without the driver, nothing
    /// changes.
    pub fn off(kernel: &mut Kernel, led: u32)
        requires
            old(kernel).wf(),
            old(kernel).running(),
        ensures
            final(kernel).wf(),
            final(kernel).running(),
            final(kernel).drivers@ == old(kernel).drivers@,
            final(kernel).upcalls@ == old(kernel).upcalls@,
            final(kernel).allows_rw@ == old(kernel).allows_rw@,
            final(kernel).allows_ro@ == old(kernel).allows_ro@,
            final(kernel).pending@ == old(kernel).pending@,
            final(kernel).memory_break == old(kernel).memory_break,
            final(kernel).leds_view() == if old(kernel).leds_view() is Some && (led as int) < old(
                kernel,
            ).leds_view()->0.len() {
                Some(old(kernel).leds_view()->0.update(led as int, false))
            } else {
                old(kernel).leds_view()
            },
    {
        let _ = kernel.command(LED_DRIVER_NUM, LED_OFF, led as usize, 0);
    }

    /// Toggles one LED; out of range or without the driver, nothing
    /// changes.
    pub fn toggle(kernel: &mut Kernel, led: u32)
        requires
            old(kernel).wf(),
            old(kernel).running(),
        ensures
            final(kernel).wf(),
            final(kernel).running(),
            final(kernel).drivers@ == old(kernel).drivers@,
            final(kernel).upcalls@ == old(kernel).upcalls@,
            final(kernel).allows_rw@ == old(kernel).allows_rw@,
            final(kernel).allows_ro@ == old(kernel).allows_ro@,
            final(kernel).pending@ == old(kernel).pending@,
            final(kernel).memory_break == old(kernel).memory_break,
            final(kernel).leds_view() == if old(kernel).leds_view() is Some && (led as int) < old(
                kernel,
            ).leds_view()->0.len() {
                Some(
                    old(kernel).leds_view()->0.update(
                        led as int,
                        !old(kernel).leds_view()->0[led as int],
                    ),
                )
            } else {
                old(kernel).leds_view()
            },
    {
        let _ = kernel.command(LED_DRIVER_NUM, LED_TOGGLE, led as usize, 0);
    }
}

} // verus!
