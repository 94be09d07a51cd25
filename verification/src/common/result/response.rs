use vstd::prelude::*;

verus! {

/// What a handler answers when it cannot do what was asked. Each kind may
/// carry a message for the log or the client.
#[derive(Debug)]
pub enum ApiErr {
    /// The request itself is malformed.
    ErrParams(Option<String>),
    /// The caller is not authorized.
    ErrAuth(Option<String>),
    /// The request is well formed but not permitted as things stand.
    ErrPerm(Option<String>),
    /// What was asked for does not exist.
    ErrNotFound(Option<String>),
    /// The data store or another service failed.
    ErrSystem(Option<String>),
}

/// A successful answer, with or without a body.
#[derive(Debug)]
pub struct ApiOK<T>(pub Option<T>);

/// Whether `r` is what checking a request gives: `Ok` where no complaint
/// is made, else `ErrParams` with the complaint.
pub open spec fn checked(complaint: Option<Seq<char>>, r: Result<(), ApiErr>) -> bool {
    match complaint {
        None => r is Ok,
        Some(message) => r matches Err(ApiErr::ErrParams(Some(m))) && m@ == message,
    }
}

/// The complaint about a required text member: none where it has text.
pub open spec fn complaint_of(text: Seq<char>, message: Seq<char>) -> Option<Seq<char>> {
    if text.len() > 0 {
        None
    } else {
        Some(message)
    }
}

/// Of two complaints the first that is made.
pub open spec fn first_of(a: Option<Seq<char>>, b: Option<Seq<char>>) -> Option<Seq<char>> {
    if a is Some {
        a
    } else {
        b
    }
}

/// Checks one required text member of a request: `ErrParams` with
/// `message` where it is empty.
pub fn require_text(text: &str, message: &str) -> (r: Result<(), ApiErr>)
    ensures
        checked(complaint_of(text@, message@), r),
{
    let present = !text.is_empty();
    if present {
        Ok(())
    } else {
        Err(ApiErr::ErrParams(Some(message.to_owned())))
    }
}

/// Turns a count of rows that stand in the way into the answer: none lets
/// the operation go on, any gives `ErrPerm` with `message`.
pub fn require_none(count: u64, message: &str) -> (r: Result<(), ApiErr>)
    ensures
        count == 0 ==> r is Ok,
        count > 0 ==> (r matches Err(ApiErr::ErrPerm(Some(m))) && m@ == message@),
{
    if count > 0 {
        Err(ApiErr::ErrPerm(Some(message.to_owned())))
    } else {
        Ok(())
    }
}

/// Turns the outcome of looking one row up into the answer: a row that is
/// missing gives `ErrNotFound` with `message`.
pub fn require_found<T>(row: Option<T>, message: &str) -> (r: Result<T, ApiErr>)
    ensures
        match row {
            Some(v) => r == Ok::<T, ApiErr>(v),
            None => r matches Err(ApiErr::ErrNotFound(Some(m))) && m@ == message@,
        },
{
    match row {
        Some(v) => Ok(v),
        None => Err(ApiErr::ErrNotFound(Some(message.to_owned()))),
    }
}

/// The data store could not do what was asked of it.
#[derive(Debug, Clone, Copy, PartialEq, Eq, Structural)]
pub struct StoreFailure;

/// Turns the outcome of fetching one row into the answer: a failure of the
/// store is `ErrSystem`, a row that is missing is whatever `missing` says.
pub fn fetched<T>(row: Result<Option<T>, StoreFailure>, missing: ApiErr) -> (r: Result<T, ApiErr>)
    ensures
        match row {
            Ok(Some(v)) => r == Ok::<T, ApiErr>(v),
            Ok(None) => r == Err::<T, ApiErr>(missing),
            Err(_) => r == Err::<T, ApiErr>(ApiErr::ErrSystem(None)),
        },
{
    match row {
        Ok(Some(v)) => Ok(v),
        Ok(None) => Err(missing),
        Err(_) => Err(ApiErr::ErrSystem(None)),
    }
}

/// Turns the outcome of a write into the answer: a failure of the store is
/// `ErrSystem`, anything else an answer without a body.
pub fn stored(written: Result<(), StoreFailure>) -> (r: Result<ApiOK<()>, ApiErr>)
    ensures
        match written {
            Ok(_) => r == Ok::<ApiOK<()>, ApiErr>(ApiOK(None)),
            Err(_) => r == Err::<ApiOK<()>, ApiErr>(ApiErr::ErrSystem(None)),
        },
{
    match written {
        Ok(()) => Ok(ApiOK(None)),
        Err(_) => Err(ApiErr::ErrSystem(None)),
    }
}

} // verus!
