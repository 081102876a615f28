//! Requests that are answered once: the answer is stored with the request, and the same
//! request gets the same answer again.
use crate::error::{Fault, PgError, PgResult};
use crate::json::{Json, JsonView};
use crate::text;
use vstd::prelude::*;

verus! {

/// A request that was answered before, and its answer.
#[derive(Debug)]
pub struct StoredOperation {
    pub request_hash: String,
    pub result: Json,
}

/// The answer that was given before: none where the request is new, a conflict where another
/// request was made under the same id.
pub open spec fn answered(stored: Option<&StoredOperation>, request_hash: Seq<char>) -> Result<
    Option<JsonView>,
    Fault,
> {
    match stored {
        None => Ok(None),
        Some(s) => if s.request_hash@ != request_hash {
            Err(Fault::IdempotencyConflict)
        } else {
            Ok(Some(s.result.model()))
        },
    }
}

/// The answer that was given before.
pub fn answer_before<'a>(stored: Option<&'a StoredOperation>, request_hash: &str) -> (r: PgResult<
    Option<&'a Json>,
>)
    ensures
        match r {
            Ok(before) => answered(stored, request_hash@) == Ok::<Option<JsonView>, Fault>(
                match before {
                    Some(doc) => Some(doc.model()),
                    None => None,
                },
            ),
            Err(e) => answered(stored, request_hash@) == Err::<Option<JsonView>, Fault>(e@),
        },
{
    match stored {
        None => Ok(None),
        Some(s) => {
            if !text::same(s.request_hash.as_str(), request_hash) {
                return Err(PgError::IdempotencyConflict);
            }
            Ok(Some(&s.result))
        },
    }
}

/// A new request has no answer yet. A request that comes again has the answer that was stored, and
/// another request under the same id has none.
pub proof fn requests_are_answered_once(stored: StoredOperation, request_hash: Seq<char>)
    ensures
        answered(None, request_hash) == Ok::<Option<JsonView>, Fault>(None),
        stored.request_hash@ == request_hash ==> answered(Some(&stored), request_hash) == Ok::<
            Option<JsonView>,
            Fault,
        >(Some(stored.result.model())),
        stored.request_hash@ != request_hash ==> answered(Some(&stored), request_hash) == Err::<
            Option<JsonView>,
            Fault,
        >(Fault::IdempotencyConflict),
{
}

} // verus!
