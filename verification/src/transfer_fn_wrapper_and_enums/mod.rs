//! Transfer functions given by the coefficients of their polynomials.
pub mod generic_first_order;
pub mod generic_second_order;

use crate::errors::{ChemEngProcessControlSimulatorError, SimulatorResult, unimplemented_regime};
use crate::kernel::{callable, KernelRelation, relation_of, Transcendental};
use crate::quantities::{Ratio, Time};
use crate::transfer_fn_wrapper_and_enums::generic_first_order::TransferFnFirstOrder;
use crate::transfer_fn_wrapper_and_enums::generic_second_order::TransferFnSecondOrder;
use vstd::prelude::*;

verus! {

/// What every transfer function and every controller offers: a dead time
/// that can be set, a step that takes an input at a time and returns the
/// output there, and the name of its log file.
pub trait TransferFnTraits: Sized {
    /// The value is well formed.
    spec fn valid(&self) -> bool;

    /// `after` is this value with dead time `dead_time` and nothing else
    /// changed.
    spec fn delayed_to(&self, after: &Self, dead_time: Time) -> bool;

    /// `after` and `result` are what the value may become and return
    /// after the input `user_input` at `time_of_input`, for a kernel of
    /// which `kernel` is known.
    spec fn outcome(
        &self,
        user_input: Ratio,
        time_of_input: Time,
        kernel: KernelRelation,
        after: Self,
        result: SimulatorResult<Ratio>,
    ) -> bool;

    /// Whether the value is well formed.
    fn is_valid(&self) -> (b: bool)
        ensures
            b == self.valid(),
    ;

    /// Sets the dead time.
    fn set_dead_time(&mut self, dead_time: Time)
        requires
            old(self).valid(),
        ensures
            final(self).valid(),
            old(self).delayed_to(final(self), dead_time),
    ;

    /// Takes the input `user_input` at `time_of_input` and returns the
    /// output there.  On failure nothing changes.
    fn set_user_input_and_calc<K: Fn(Transcendental, i128) -> i64>(
        &mut self,
        user_input: Ratio,
        time_of_input: Time,
        kernel: &K,
    ) -> (r: SimulatorResult<Ratio>)
        requires
            old(self).valid(),
            callable(kernel),
        ensures
            final(self).valid(),
            old(self).outcome(user_input, time_of_input, relation_of(kernel), *final(self), r),
            r is Err ==> *final(self) == *old(self),
    ;

    /// What the name of the log file ends in; none where the kind has no
    /// closed form.
    spec fn mark(&self) -> Option<Seq<char>>;

    /// The name of the log file: `name` followed by the mark of the kind;
    /// unimplemented where there is none.
    fn log_file_name(&self, name: String) -> (r: SimulatorResult<String>)
        ensures
            match self.mark() {
                Some(mark) => r matches Ok(title) && title@ == name@ + mark,
                None => r == unimplemented_regime::<String>(),
            },
    ;
}

/// A transfer function of either order.
#[derive(Debug, PartialEq, PartialOrd, Clone)]
pub enum TransferFn {
    FirstOrder(TransferFnFirstOrder),
    SecondOrder(TransferFnSecondOrder),
}

impl TransferFn {
    /// The transfer function held is well formed.
    pub open spec fn wf(&self) -> bool {
        match *self {
            TransferFn::FirstOrder(first_order) => first_order.wf(),
            TransferFn::SecondOrder(second_order) => second_order.wf(),
        }
    }

    /// `after` and `result` are what the transfer function may become and
    /// return after the input `input` at `t`: those of the transfer
    /// function held.
    pub open spec fn step_result(
        &self,
        input: Ratio,
        t: Time,
        kernel: KernelRelation,
        after: Self,
        result: SimulatorResult<Ratio>,
    ) -> bool {
        match *self {
            TransferFn::FirstOrder(first_order) => after matches TransferFn::FirstOrder(next)
                && first_order.step_result(input, t, kernel, next, result),
            TransferFn::SecondOrder(second_order) => after matches TransferFn::SecondOrder(next)
                && second_order.step_result(input, t, kernel, next, result),
        }
    }

    /// `after` is this transfer function with the dead time of every part
    /// set to `dead_time` and nothing else changed.
    pub open spec fn delayed_by(&self, after: &Self, dead_time: Time) -> bool {
        match *self {
            TransferFn::FirstOrder(first_order) => *after matches TransferFn::FirstOrder(next)
                && first_order.delayed_by(&next, dead_time),
            TransferFn::SecondOrder(second_order) => *after matches TransferFn::SecondOrder(next)
                && second_order.delayed_by(&next, dead_time),
        }
    }

    /// The first-order transfer function held; the type error where the
    /// order is the second.
    pub fn try_into_first_order(self) -> (r: SimulatorResult<TransferFnFirstOrder>)
        ensures
            match self {
                TransferFn::FirstOrder(first_order) => r == Ok::<
                    TransferFnFirstOrder,
                    ChemEngProcessControlSimulatorError,
                >(first_order),
                TransferFn::SecondOrder(_) => r == Err::<
                    TransferFnFirstOrder,
                    ChemEngProcessControlSimulatorError,
                >(ChemEngProcessControlSimulatorError::WrongTransferFnType),
            },
    {
        match self {
            TransferFn::FirstOrder(first_order) => Ok(first_order),
            TransferFn::SecondOrder(_) =>
                Err(ChemEngProcessControlSimulatorError::WrongTransferFnType),
        }
    }

    /// The second-order transfer function held; the type error where the
    /// order is the first.
    pub fn try_into_second_order(self) -> (r: SimulatorResult<TransferFnSecondOrder>)
        ensures
            match self {
                TransferFn::SecondOrder(second_order) => r == Ok::<
                    TransferFnSecondOrder,
                    ChemEngProcessControlSimulatorError,
                >(second_order),
                TransferFn::FirstOrder(_) => r == Err::<
                    TransferFnSecondOrder,
                    ChemEngProcessControlSimulatorError,
                >(ChemEngProcessControlSimulatorError::WrongTransferFnType),
            },
    {
        match self {
            TransferFn::SecondOrder(second_order) => Ok(second_order),
            TransferFn::FirstOrder(_) =>
                Err(ChemEngProcessControlSimulatorError::WrongTransferFnType),
        }
    }

    /// What the name of the log file ends in: the mark of the transfer
    /// function held.
    pub open spec fn log_mark(&self) -> Option<Seq<char>> {
        match *self {
            TransferFn::FirstOrder(first_order) => first_order.log_mark(),
            TransferFn::SecondOrder(second_order) => second_order.log_mark(),
        }
    }

    /// The name of the log file: that of the transfer function held.
    pub fn log_file_name(&self, name: String) -> (r: SimulatorResult<String>)
        ensures
            match self.log_mark() {
                Some(mark) => r matches Ok(title) && title@ == name@ + mark,
                None => r == unimplemented_regime::<String>(),
            },
    {
        match self {
            TransferFn::FirstOrder(first_order) => first_order.log_file_name(name),
            TransferFn::SecondOrder(second_order) => second_order.log_file_name(name),
        }
    }

    /// Whether the value is well formed: what every other function asks
    /// of it.
    pub fn is_well_formed(&self) -> (b: bool)
        ensures
            b == self.wf(),
    {
        match self {
            TransferFn::FirstOrder(first_order) => first_order.is_well_formed(),
            TransferFn::SecondOrder(second_order) => second_order.is_well_formed(),
        }
    }

    /// Sets the dead time of the transfer function held.
    pub fn set_dead_time(&mut self, dead_time: Time)
        requires
            old(self).wf(),
        ensures
            final(self).wf(),
            old(self).delayed_by(final(self), dead_time),
    {
        match self {
            TransferFn::FirstOrder(first_order) => first_order.set_dead_time(dead_time),
            TransferFn::SecondOrder(second_order) => second_order.set_dead_time(dead_time),
        }
    }

    /// Takes the input `user_input` at `time_of_input` and returns the
    /// output of the transfer function held.  On failure nothing changes.
    pub fn set_user_input_and_calc<K: Fn(Transcendental, i128) -> i64>(
        &mut self,
        user_input: Ratio,
        time_of_input: Time,
        kernel: &K,
    ) -> (r: SimulatorResult<Ratio>)
        requires
            old(self).wf(),
            callable(kernel),
        ensures
            final(self).wf(),
            old(self).step_result(user_input, time_of_input, relation_of(kernel), *final(self), r),
            r is Err ==> *final(self) == *old(self),
    {
        match self {
            TransferFn::FirstOrder(first_order) => first_order.set_user_input_and_calc(
                user_input,
                time_of_input,
                kernel,
            ),
            TransferFn::SecondOrder(second_order) => second_order.set_user_input_and_calc(
                user_input,
                time_of_input,
                kernel,
            ),
        }
    }
}

impl From<TransferFnFirstOrder> for TransferFn {
    fn from(first_order: TransferFnFirstOrder) -> (r: TransferFn) {
        TransferFn::FirstOrder(first_order)
    }
}

impl vstd::std_specs::convert::FromSpecImpl<TransferFnFirstOrder> for TransferFn {
    open spec fn obeys_from_spec() -> bool {
        true
    }

    open spec fn from_spec(first_order: TransferFnFirstOrder) -> TransferFn {
        TransferFn::FirstOrder(first_order)
    }
}

impl From<TransferFnSecondOrder> for TransferFn {
    fn from(second_order: TransferFnSecondOrder) -> (r: TransferFn) {
        TransferFn::SecondOrder(second_order)
    }
}

impl vstd::std_specs::convert::FromSpecImpl<TransferFnSecondOrder> for TransferFn {
    open spec fn obeys_from_spec() -> bool {
        true
    }

    open spec fn from_spec(second_order: TransferFnSecondOrder) -> TransferFn {
        TransferFn::SecondOrder(second_order)
    }
}

impl TransferFnTraits for TransferFn {
    open spec fn valid(&self) -> bool {
        self.wf()
    }

    open spec fn delayed_to(&self, after: &Self, dead_time: Time) -> bool {
        self.delayed_by(after, dead_time)
    }

    open spec fn mark(&self) -> Option<Seq<char>> {
        self.log_mark()
    }

    open spec fn outcome(
        &self,
        user_input: Ratio,
        time_of_input: Time,
        kernel: KernelRelation,
        after: Self,
        result: SimulatorResult<Ratio>,
    ) -> bool {
        self.step_result(user_input, time_of_input, kernel, after, result)
    }

    fn is_valid(&self) -> (b: bool) {
        TransferFn::is_well_formed(self)
    }

    fn set_dead_time(&mut self, dead_time: Time) {
        TransferFn::set_dead_time(self, dead_time)
    }

    fn set_user_input_and_calc<K: Fn(Transcendental, i128) -> i64>(
        &mut self,
        user_input: Ratio,
        time_of_input: Time,
        kernel: &K,
    ) -> (r: SimulatorResult<Ratio>) {
        TransferFn::set_user_input_and_calc(self, user_input, time_of_input, kernel)
    }

    fn log_file_name(&self, name: String) -> (r: SimulatorResult<String>) {
        TransferFn::log_file_name(self, name)
    }
}

impl TransferFnTraits for TransferFnFirstOrder {
    open spec fn valid(&self) -> bool {
        self.wf()
    }

    open spec fn delayed_to(&self, after: &Self, dead_time: Time) -> bool {
        self.delayed_by(after, dead_time)
    }

    open spec fn mark(&self) -> Option<Seq<char>> {
        self.log_mark()
    }

    open spec fn outcome(
        &self,
        user_input: Ratio,
        time_of_input: Time,
        kernel: KernelRelation,
        after: Self,
        result: SimulatorResult<Ratio>,
    ) -> bool {
        self.step_result(user_input, time_of_input, kernel, after, result)
    }

    fn is_valid(&self) -> (b: bool) {
        TransferFnFirstOrder::is_well_formed(self)
    }

    fn set_dead_time(&mut self, dead_time: Time) {
        TransferFnFirstOrder::set_dead_time(self, dead_time)
    }

    fn set_user_input_and_calc<K: Fn(Transcendental, i128) -> i64>(
        &mut self,
        user_input: Ratio,
        time_of_input: Time,
        kernel: &K,
    ) -> (r: SimulatorResult<Ratio>) {
        TransferFnFirstOrder::set_user_input_and_calc(self, user_input, time_of_input, kernel)
    }

    fn log_file_name(&self, name: String) -> (r: SimulatorResult<String>) {
        TransferFnFirstOrder::log_file_name(self, name)
    }
}

impl TransferFnTraits for TransferFnSecondOrder {
    open spec fn valid(&self) -> bool {
        self.wf()
    }

    open spec fn delayed_to(&self, after: &Self, dead_time: Time) -> bool {
        self.delayed_by(after, dead_time)
    }

    open spec fn mark(&self) -> Option<Seq<char>> {
        self.log_mark()
    }

    open spec fn outcome(
        &self,
        user_input: Ratio,
        time_of_input: Time,
        kernel: KernelRelation,
        after: Self,
        result: SimulatorResult<Ratio>,
    ) -> bool {
        self.step_result(user_input, time_of_input, kernel, after, result)
    }

    fn is_valid(&self) -> (b: bool) {
        TransferFnSecondOrder::is_well_formed(self)
    }

    fn set_dead_time(&mut self, dead_time: Time) {
        TransferFnSecondOrder::set_dead_time(self, dead_time)
    }

    fn set_user_input_and_calc<K: Fn(Transcendental, i128) -> i64>(
        &mut self,
        user_input: Ratio,
        time_of_input: Time,
        kernel: &K,
    ) -> (r: SimulatorResult<Ratio>) {
        TransferFnSecondOrder::set_user_input_and_calc(self, user_input, time_of_input, kernel)
    }

    fn log_file_name(&self, name: String) -> (r: SimulatorResult<String>) {
        TransferFnSecondOrder::log_file_name(self, name)
    }
}

impl TryFrom<TransferFn> for TransferFnFirstOrder {
    type Error = ChemEngProcessControlSimulatorError;

    fn try_from(generic_transfer_function: TransferFn) -> (r: Result<Self, Self::Error>) {
        generic_transfer_function.try_into_first_order()
    }
}

impl vstd::std_specs::convert::TryFromSpecImpl<TransferFn> for TransferFnFirstOrder {
    open spec fn obeys_try_from_spec() -> bool {
        true
    }

    open spec fn try_from_spec(generic_transfer_function: TransferFn) -> Result<Self, Self::Error> {
        match generic_transfer_function {
            TransferFn::FirstOrder(held) => Ok(held),
            TransferFn::SecondOrder(_) =>
                Err(ChemEngProcessControlSimulatorError::WrongTransferFnType),
        }
    }
}

impl TryFrom<TransferFn> for TransferFnSecondOrder {
    type Error = ChemEngProcessControlSimulatorError;

    fn try_from(generic_transfer_function: TransferFn) -> (r: Result<Self, Self::Error>) {
        generic_transfer_function.try_into_second_order()
    }
}

impl vstd::std_specs::convert::TryFromSpecImpl<TransferFn> for TransferFnSecondOrder {
    open spec fn obeys_try_from_spec() -> bool {
        true
    }

    open spec fn try_from_spec(generic_transfer_function: TransferFn) -> Result<Self, Self::Error> {
        match generic_transfer_function {
            TransferFn::SecondOrder(held) => Ok(held),
            TransferFn::FirstOrder(_) =>
                Err(ChemEngProcessControlSimulatorError::WrongTransferFnType),
        }
    }
}

} // verus!
