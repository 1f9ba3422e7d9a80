//! The transcendental kernel.
//!
//! Closed-form responses need `exp`, `sin` and `cos`.  The library computes
//! the arguments exactly and combines the values exactly; the values
//! themselves come from a kernel that the caller supplies, a function from a
//! request and an argument in billionths to a value in billionths.  The
//! argument is wide, so that every argument that the library forms can be
//! handed over.  Nothing is assumed of the kernel but that it can be called:
//! every contract that depends on it is stated for whatever values it
//! returned, each taken into the range where the function lies.
use vstd::prelude::*;

verus! {

/// The functions asked of a kernel.
#[derive(Clone, Copy, Debug, PartialEq, Eq, Structural)]
pub enum Transcendental {
    /// `exp(-x)`.
    ExpNeg,
    /// `exp(-x)` in billionths of a billionth, for what must tell `1e-10`
    /// from `1e-9`.
    ExpNegFine,
    /// `sin(x)`, `x` in radians.
    Sine,
    /// `cos(x)`, `x` in radians.
    Cosine,
}

/// The arguments at which one elementary response needs the kernel.
#[derive(Clone, Copy, Debug, PartialEq, Eq, Structural)]
pub struct KernelQuery {
    /// Argument of the (slower) decaying exponential.
    pub decay: Option<i128>,
    /// Argument of the second, faster decaying exponential.
    pub second_decay: Option<i128>,
    /// Argument of the sine.
    pub sine: Option<i128>,
    /// Argument of the cosine.
    pub cosine: Option<i128>,
}

/// What the kernel answered to one query; 0 where nothing was asked.
#[derive(Clone, Copy, Debug, PartialEq, Eq, Structural)]
pub struct KernelReading {
    pub decay: i64,
    pub second_decay: i64,
    pub sine: i64,
    pub cosine: i64,
}

/// What is known of a kernel: which value it may return for which
/// function at which argument.
pub type KernelRelation = spec_fn(Transcendental, i128, i64) -> bool;

/// What is known of the kernel `kernel`: `y` is a value that it may return
/// for `function` at `x`.
pub open spec fn relation_of<K: Fn(Transcendental, i128) -> i64>(kernel: &K) -> KernelRelation {
    |function: Transcendental, x: i128, y: i64| call_ensures(*kernel, (function, x), y)
}

/// `kernel` can be called on every request.
pub open spec fn callable<K: Fn(Transcendental, i128) -> i64>(kernel: &K) -> bool {
    forall|function: Transcendental, x: i128| call_requires(*kernel, (function, x))
}

/// `y` is what `kernel` may have answered to an optional request.
pub open spec fn answers_one(
    kernel: KernelRelation,
    function: Transcendental,
    x: Option<i128>,
    y: i64,
) -> bool {
    match x {
        Some(x) => kernel(function, x, y),
        None => y == 0,
    }
}

/// `reading` is what `kernel` may have answered to `query`.
pub open spec fn answers(
    kernel: KernelRelation,
    query: KernelQuery,
    reading: KernelReading,
) -> bool {
    &&& answers_one(kernel, Transcendental::ExpNeg, query.decay, reading.decay)
    &&& answers_one(kernel, Transcendental::ExpNeg, query.second_decay, reading.second_decay)
    &&& answers_one(kernel, Transcendental::Sine, query.sine, reading.sine)
    &&& answers_one(kernel, Transcendental::Cosine, query.cosine, reading.cosine)
}

/// `readings` is what `kernel` may have answered, in billionths of a
/// billionth, to the optional arguments `asked`, one by one.
pub open spec fn answers_fine(
    kernel: KernelRelation,
    asked: Seq<Option<i128>>,
    readings: Seq<i64>,
) -> bool {
    &&& readings.len() == asked.len()
    &&& forall|i: int|
        0 <= i < asked.len() ==> answers_one(
            kernel,
            Transcendental::ExpNegFine,
            #[trigger] asked[i],
            readings[i],
        )
}

/// `readings` is what `kernel` may have answered to `queries`, one by one.
pub open spec fn answers_all(
    kernel: KernelRelation,
    queries: Seq<KernelQuery>,
    readings: Seq<KernelReading>,
) -> bool {
    &&& readings.len() == queries.len()
    &&& forall|i: int| 0 <= i < queries.len() ==> answers(
        kernel,
        #[trigger] queries[i],
        readings[i],
    )
}

impl KernelQuery {
    /// The query that asks nothing.
    pub fn nothing() -> (q: Self)
        ensures
            q == (KernelQuery { decay: None, second_decay: None, sine: None, cosine: None }),
    {
        KernelQuery { decay: None, second_decay: None, sine: None, cosine: None }
    }
}

/// Asks the kernel for one optional value.
pub fn consult_one<K: Fn(Transcendental, i128) -> i64>(
    kernel: &K,
    function: Transcendental,
    x: Option<i128>,
) -> (y: i64)
    requires
        callable(kernel),
    ensures
        answers_one(relation_of(kernel), function, x, y),
{
    match x {
        Some(x) => kernel(function, x),
        None => 0,
    }
}

/// Asks the kernel for the values of one query.
pub fn consult<K: Fn(Transcendental, i128) -> i64>(
    kernel: &K,
    query: &KernelQuery,
) -> (reading: KernelReading)
    requires
        callable(kernel),
    ensures
        answers(relation_of(kernel), *query, reading),
{
    let decay: i64 = consult_one(kernel, Transcendental::ExpNeg, query.decay);
    let second_decay: i64 = consult_one(kernel, Transcendental::ExpNeg, query.second_decay);
    let sine: i64 = consult_one(kernel, Transcendental::Sine, query.sine);
    let cosine: i64 = consult_one(kernel, Transcendental::Cosine, query.cosine);
    KernelReading { decay, second_decay, sine, cosine }
}

/// Asks the kernel for the values of a list of queries, in order.
pub fn consult_all<K: Fn(Transcendental, i128) -> i64>(
    kernel: &K,
    queries: &Vec<KernelQuery>,
) -> (readings: Vec<KernelReading>)
    requires
        callable(kernel),
    ensures
        answers_all(relation_of(kernel), queries@, readings@),
{
    let mut readings: Vec<KernelReading> = Vec::new();
    let mut i: usize = 0;
    while i < queries.len()
        invariant
            callable(kernel),
            i <= queries.len(),
            readings.len() == i,
            forall|j: int|
                0 <= j < i ==> answers(relation_of(kernel), #[trigger] queries@[j], readings@[j]),
        decreases queries.len() - i,
    {
        let reading = consult(kernel, &queries[i]);
        readings.push(reading);
        i = i + 1;
    }
    readings
}

/// Asks the kernel for a list of optional fine exponentials, in order.
pub fn consult_fine<K: Fn(Transcendental, i128) -> i64>(
    kernel: &K,
    asked: &Vec<Option<i128>>,
) -> (readings: Vec<i64>)
    requires
        callable(kernel),
    ensures
        answers_fine(relation_of(kernel), asked@, readings@),
{
    let mut readings: Vec<i64> = Vec::new();
    let mut i: usize = 0;
    while i < asked.len()
        invariant
            callable(kernel),
            i <= asked.len(),
            readings.len() == i,
            forall|j: int|
                0 <= j < i ==> answers_one(
                    relation_of(kernel),
                    Transcendental::ExpNegFine,
                    #[trigger] asked@[j],
                    readings@[j],
                ),
        decreases asked.len() - i,
    {
        let reading = consult_one(kernel, Transcendental::ExpNegFine, asked[i]);
        readings.push(reading);
        i = i + 1;
    }
    readings
}

} // verus!
