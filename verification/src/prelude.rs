//! The types that a simulation needs, in one place.
pub use crate::controllers::filtered_derivative_controller::FilteredDerivativeController;
pub use crate::controllers::integral_controller::IntegralController;
pub use crate::controllers::proportional_controller::ProportionalController;
pub use crate::controllers::AnalogController;
pub use crate::errors::ChemEngProcessControlSimulatorError;
pub use crate::kernel::Transcendental;
pub use crate::quantities::{Frequency, Ratio, Time, TimeSquared};
pub use crate::transfer_fn_wrapper_and_enums::generic_first_order::TransferFnFirstOrder;
pub use crate::transfer_fn_wrapper_and_enums::generic_second_order::TransferFnSecondOrder;
pub use crate::transfer_fn_wrapper_and_enums::{TransferFn, TransferFnTraits};
