//! Clock frequencies of the board, in Hz.

use vstd::prelude::*;

verus! {

/// Frequency of the APB1 bus, which clocks USART2.
pub const APB1: u32 = 42_000_000;

} // verus!
