//! Quad SPI (QSPI) bus: the pin roles each flash bank accepts, and the
//! kernel clock prescaler.
use vstd::prelude::*;

verus! {

/// Used to indicate that an IO pin is not used by the QSPI interface.
pub struct NoIo {}

/// Indicates a set of pins can be used for the QSPI interface on bank 1.
pub trait PinsBank1 {}

pub trait PinIo0Bank1 {}

pub trait PinIo1Bank1 {}

pub trait PinIo2Bank1 {}

pub trait PinIo3Bank1 {}

/// Indicates a set of pins can be used for the QSPI interface on bank 2.
pub trait PinsBank2 {}

pub trait PinSckBank2 {}

pub trait PinIo0Bank2 {}

pub trait PinIo1Bank2 {}

pub trait PinIo2Bank2 {}

pub trait PinIo3Bank2 {}

pub trait PinSck {}

impl<SCK: PinSck, IO0: PinIo0Bank1, IO1: PinIo1Bank1, IO2: PinIo2Bank1, IO3: PinIo3Bank1> PinsBank1 for (
    SCK,
    IO0,
    IO1,
    IO2,
    IO3,
) {

}

impl<SCK: PinSck, IO0: PinIo0Bank2, IO1: PinIo1Bank2, IO2: PinIo2Bank2, IO3: PinIo3Bank2> PinsBank2 for (
    SCK,
    IO0,
    IO1,
    IO2,
    IO3,
) {

}

impl PinIo1Bank1 for NoIo {

}

impl PinIo2Bank1 for NoIo {

}

impl PinIo3Bank1 for NoIo {

}

impl PinIo1Bank2 for NoIo {

}

impl PinIo2Bank2 for NoIo {

}

impl PinIo3Bank2 for NoIo {

}

/// Why the QSPI clock cannot be set up.
#[derive(Copy, Clone, Debug, PartialEq, Eq, Structural)]
pub enum QspiClockError {
    /// The QSPI kernel clock is not running.
    KernelClockNotRunning,
    /// The requested bus frequency needs a division outside 1..=256.
    InvalidFrequency,
}

/// Division of the kernel clock that gives a bus frequency at most the
/// requested one.
pub open spec fn qspi_divisor(kernel_ck: int, frequency: int) -> int {
    (kernel_ck + frequency - 1) / frequency
}

/// Prescaler field for a bus at most `frequency` from kernel clock
/// `kernel_ck`: the smallest division not over the requested frequency,
/// minus one.
pub fn qspi_prescaler(kernel_ck: Option<u32>, frequency: u32) -> (r: Result<u8, QspiClockError>)
    ensures
        kernel_ck is None ==> r == Err::<u8, QspiClockError>(QspiClockError::KernelClockNotRunning),
        kernel_ck matches Some(k) ==> (if frequency > 0 && 1 <= qspi_divisor(k as int, frequency as int)
            <= 256 {
            r == Ok::<u8, QspiClockError>((qspi_divisor(k as int, frequency as int) - 1) as u8)
        } else {
            r == Err::<u8, QspiClockError>(QspiClockError::InvalidFrequency)
        }),
{
    let k = match kernel_ck {
        None => {
            return Err(QspiClockError::KernelClockNotRunning);
        },
        Some(k) => k,
    };
    if frequency == 0 {
        return Err(QspiClockError::InvalidFrequency);
    }
    let divisor: u64 = (k as u64 + frequency as u64 - 1) / frequency as u64;
    if divisor >= 1 && divisor <= 256 {
        Ok((divisor - 1) as u8)
    } else {
        Err(QspiClockError::InvalidFrequency)
    }
}

} // verus!
