//! The two-call enumeration protocol.
//!
//! A native entry point that enumerates is called twice. The first call
//! names no buffer and learns how many records there are. The second call
//! names a buffer of that many slots, and the native layer fills it and
//! confirms the count. What the second call confirms must fit the buffer
//! that the first call sized: a native layer that reports more is in
//! breach of the protocol, and the enumeration fails rather than read past
//! the buffer. Each record is then converted to its safe counterpart.
//!
//! The front end makes the two calls. Between them it asks
//! [`Counted::capacity`] for the size of the buffer; after them it hands
//! both answers to [`enumerate`].

use vstd::prelude::*;
use crate::error::Error;
use crate::native::{INCOMPLETE, SUCCESS};

verus! {

/// A safe record that is made from a native one.
pub trait FromNative: Sized {
    /// The record as the native layer writes it, in plain values.
    type Native;

    /// `out` is what the conversion of `raw` gives.
    spec fn converts(raw: Self::Native, out: Result<Self, Error>) -> bool;

    /// Converts a native record.
    fn from_native(raw: &Self::Native) -> (out: Result<Self, Error>)
        ensures
            Self::converts(*raw, out),
    ;
}

/// The answer to the first call, which names no buffer.
#[derive(Debug, Clone, Copy, PartialEq, Eq, Structural)]
pub struct Counted {
    /// The result code of the call.
    pub code: i32,
    /// The number of records that the native layer has.
    pub count: u32,
}

/// The answer to the second call, which names a buffer.
#[derive(Debug, PartialEq, Eq)]
pub struct Filled<R> {
    /// The result code of the call.
    pub code: i32,
    /// The number of records that the native layer says it wrote.
    pub count: u32,
    /// The records found in the buffer, in the order in which they stand
    /// there.
    pub records: Vec<R>,
}

impl Counted {
    /// The size of the buffer for the second call, or the error that ends
    /// the enumeration before it.
    pub open spec fn sized(self) -> Result<u32, Error> {
        if self.code == SUCCESS {
            Ok(self.count)
        } else {
            Err(Error::Native(self.code))
        }
    }

    /// Decides between the two calls: how many slots the buffer of the
    /// second call gets, or that there is no second call.
    pub fn capacity(&self) -> (res: Result<u32, Error>)
        ensures
            res == self.sized(),
    {
        if self.code == SUCCESS {
            Ok(self.count)
        } else {
            Err(Error::Native(self.code))
        }
    }
}

/// Whether the two answers are in keeping with the protocol, and if not,
/// the error that says so: the code of the first call that failed, or
/// `INCOMPLETE` where the second call confirms more records than the buffer
/// holds or other than it delivered.
pub open spec fn accepted<R>(first: Counted, second: Filled<R>) -> Result<(), Error> {
    if first.code != SUCCESS {
        Err(Error::Native(first.code))
    } else if second.code != SUCCESS {
        Err(Error::Native(second.code))
    } else if second.count > first.count || second.records@.len() != second.count {
        Err(Error::Native(INCOMPLETE))
    } else {
        Ok(())
    }
}

/// Decides whether the answers to the two calls are in keeping with the
/// protocol, before any record is looked at.
pub fn accept<R>(first: Counted, second: &Filled<R>) -> (res: Result<(), Error>)
    ensures
        res == accepted(first, *second),
{
    if first.code != SUCCESS {
        Err(Error::Native(first.code))
    } else if second.code != SUCCESS {
        Err(Error::Native(second.code))
    } else if second.count > first.count || second.records.len() != second.count as usize {
        Err(Error::Native(INCOMPLETE))
    } else {
        Ok(())
    }
}

/// Some safe record is the conversion of `raw`.
pub open spec fn convertible<T: FromNative>(raw: T::Native) -> bool {
    exists|value: T| T::converts(raw, Ok(value))
}

/// `res` is what converting the records one by one, in order, gives: all
/// of them converted, in the same order, or the error of the first record
/// that does not convert.
pub open spec fn converted_in_order<T: FromNative>(
    records: Seq<T::Native>,
    res: Result<Vec<T>, Error>,
) -> bool {
    match res {
        Ok(out) => {
            &&& out@.len() == records.len()
            &&& forall|i: int|
                0 <= i < records.len() ==> T::converts(records[i], Ok(#[trigger] out@[i]))
        },
        Err(e) => exists|i: int|
            {
                &&& 0 <= i < records.len()
                &&& #[trigger] T::converts(records[i], Err(e))
                &&& forall|j: int| 0 <= j < i ==> convertible::<T>(#[trigger] records[j])
            },
    }
}

/// `res` is what the enumeration gives for the two answers: the error
/// that says why the answers are not accepted, or the records of the
/// second answer converted in order.
pub open spec fn enumerated<T: FromNative>(
    first: Counted,
    second: Filled<T::Native>,
    res: Result<Vec<T>, Error>,
) -> bool {
    match accepted(first, second) {
        Err(e) => res == Err::<Vec<T>, Error>(e),
        Ok(_) => converted_in_order::<T>(second.records@, res),
    }
}

/// Converts native records to safe ones, in order, and stops at the first
/// that does not convert.
pub fn convert_all<T: FromNative>(records: &Vec<T::Native>) -> (res: Result<Vec<T>, Error>)
    ensures
        converted_in_order::<T>(records@, res),
{
    let mut out: Vec<T> = Vec::new();
    let mut i: usize = 0;
    while i < records.len()
        invariant
            0 <= i <= records@.len(),
            out@.len() == i,
            forall|j: int| 0 <= j < i ==> T::converts(records@[j], Ok(#[trigger] out@[j])),
        decreases records@.len() - i,
    {
        match T::from_native(&records[i]) {
            Ok(value) => {
                out.push(value);
            },
            Err(e) => {
                proof {
                    assert forall|j: int| 0 <= j < i implies convertible::<T>(
                        #[trigger] records@[j],
                    ) by {
                        assert(T::converts(records@[j], Ok(out@[j])));
                    }
                    assert(T::converts(records@[i as int], Err(e)));
                }
                return Err(e);
            },
        }
        i += 1;
    }
    Ok(out)
}

/// Completes a two-call enumeration from the answers to its two calls.
///
/// A call that failed gives its code as a native error. A second answer
/// that confirms more records than the first call counted, or another
/// number than it delivered, gives the native error `INCOMPLETE`.
/// Otherwise the records are converted in order: as many come out as the
/// native layer reported, in the order in which it reported them.
pub fn enumerate<T: FromNative>(first: Counted, second: Filled<T::Native>) -> (res: Result<
    Vec<T>,
    Error,
>)
    ensures
        enumerated::<T>(first, second, res),
{
    match accept(first, &second) {
        Ok(()) => convert_all::<T>(&second.records),
        Err(e) => Err(e),
    }
}

/// The law of the well-behaved source: where both calls succeed, the
/// second delivers exactly the number of records that the first counted,
/// and every record converts, whatever `enumerate` returns is a list of
/// that many records, and the record at each place is the conversion of
/// the native record at that place.
pub proof fn lemma_enumerate_in_order<T: FromNative>(
    first: Counted,
    second: Filled<T::Native>,
    res: Result<Vec<T>, Error>,
)
    requires
        first.code == SUCCESS,
        second.code == SUCCESS,
        second.count == first.count,
        second.records@.len() == first.count,
        forall|i: int, e: Error|
            0 <= i < second.records@.len() ==> !#[trigger] T::converts(second.records@[i], Err(e)),
        enumerated::<T>(first, second, res),
    ensures
        res matches Ok(out) && out@.len() == first.count && forall|i: int|
            0 <= i < first.count ==> T::converts(second.records@[i], Ok(#[trigger] out@[i])),
{
}

/// The law of the growing source: where both calls succeed but the second
/// confirms more records than the first call counted, whatever
/// `enumerate` returns is the native error `INCOMPLETE`, whatever the
/// buffer holds.
pub proof fn lemma_enumerate_rejects_growth<T: FromNative>(
    first: Counted,
    second: Filled<T::Native>,
    res: Result<Vec<T>, Error>,
)
    requires
        first.code == SUCCESS,
        second.code == SUCCESS,
        second.count > first.count,
        enumerated::<T>(first, second, res),
    ensures
        res == Err::<Vec<T>, Error>(Error::Native(INCOMPLETE)),
{
}

} // verus!
