//! Elementary responses of stable systems and the transfer functions that
//! superpose them.
pub mod decaying_exponentials;
pub mod decaying_sinusoid;
pub mod first_order_transfer_fn;
pub mod first_order_transfer_fn_with_zeroes;
pub mod second_order_transfer_fn;
pub mod step_fn;
