//! Time-domain responses of linear process-control elements, computed by
//! superposition of closed-form elementary responses.
//!
//! A transfer function answers every change of its input with an
//! elementary response in closed form, scaled by the increment and switched
//! on after the dead time.  Its output is an offset plus the sum of the
//! responses that are still moving; a response that has settled is folded
//! into the offset and forgotten, so that memory is bounded by the input
//! changes within the decay window and not by the length of the simulation.
//! Nothing is integrated numerically.
//!
//! Numbers.  Every quantity is a whole number of billionths of its unit,
//! and arithmetic on them is exact integer arithmetic with one rounding per
//! product or quotient (`fixed_point`, `quantities`).  Two inputs differ
//! exactly when they differ in the ninth decimal place.  Sums are held wide
//! and narrowed once.  A step fails, and then changes nothing, only where
//! something that has to be stored leaves the `i64` range: the increment of
//! the input, the start time or the final value of a new response, the new
//! offset, the time since the start of an active response, or the output
//! itself.
//!
//! The kernel.  `exp`, `sin` and `cos` are not computed here.  The library
//! computes their arguments and combines their values; the values come
//! from a kernel that the caller passes in (`kernel`), and every contract
//! that depends on them is stated for whatever values the kernel returned.
//! Arguments are handed over wide, so that none is out of range however
//! long a response is evaluated after its time constant.  Readings are
//! taken into the range where the function lives, `[0, 1]` for an
//! exponential and `[-1, 1]` for a sine or cosine, so that no reading makes
//! an evaluation fail.  Where settling depends on the size of an
//! exponential, the kernel is asked for it in billionths of a billionth.
//!
//! Time.  A simulation presents its times in increasing order, but no
//! function asks for it: every contract says what is returned for whatever
//! time is given, and the laws that hold only of increasing times say so.
//!
//! Layers, from the leaves up: the elementary responses and the transfer
//! functions that spawn them (`stable_transfer_functions`), the accumulator
//! that they share (`superposition`, with its laws for one step in
//! `superposition_laws` and for whole runs in `run_laws`), the transfer
//! functions given by polynomial coefficients
//! (`transfer_fn_wrapper_and_enums`), and the controllers (`controllers`).
pub mod controllers;
pub mod errors;
pub mod fixed_point;
pub mod kernel;
pub mod prelude;
pub mod quantities;
pub mod run_laws;
pub mod stable_transfer_functions;
pub mod superposition;
pub mod superposition_laws;
pub mod transfer_fn_wrapper_and_enums;
