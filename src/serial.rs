//! Serial interface: the baud-rate divider.

use vstd::prelude::*;

verus! {

/// A baud rate the interface cannot be set to.
#[derive(Clone, Copy, Debug, PartialEq, Eq)]
pub struct Error {
    _0: (),
}

impl Error {
    /// The error of an interface that cannot take the request now.
    pub fn new() -> Error {
        Error { _0: () }
    }
}

/// The baud-rate register's divider: a 12-bit mantissa and a 4-bit fraction.
#[derive(Clone, Copy, Debug, PartialEq, Eq, Structural)]
pub struct BaudDivider {
    pub mantissa: u16,
    pub fraction: u8,
}

/// The 16-bit divider register value for a bus clock of `pclk` Hz and the
/// given baud rate; the quotient is kept to its low 16 bits.
pub open spec fn spec_divider(pclk: u32, baud_rate: u32) -> int {
    (pclk as int / baud_rate as int) % 0x10000
}

/// The divider that sets the interface to `baud_rate` bits per second from a
/// bus clock of `pclk` Hz. A baud rate of zero is refused.
pub fn baud_divider(pclk: u32, baud_rate: u32) -> (r: Result<BaudDivider, Error>)
    ensures
        baud_rate == 0 ==> r is Err,
        baud_rate != 0 ==> r == Ok::<BaudDivider, Error>(
            BaudDivider {
                mantissa: (spec_divider(pclk, baud_rate) / 16) as u16,
                fraction: (spec_divider(pclk, baud_rate) % 16) as u8,
            },
        ),
{
    if baud_rate == 0 {
        return Err(Error { _0: () });
    }
    let brr: u16 = ((pclk / baud_rate) % 0x10000) as u16;
    assert(brr & 0xf == brr % 16 && brr >> 4 == brr / 16) by (bit_vector);
    let fraction = (brr & 0xf) as u8;
    let mantissa = brr >> 4;
    Ok(BaudDivider { mantissa, fraction })
}

} // verus!
