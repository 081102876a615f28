//! What the operator commands have in common: a request is answered once, and its
//! effects follow a plan that the operator has seen.
use crate::error;
use crate::error::{Fault, PgError, PgResult};
use crate::json;
use crate::json::{Doc, Json, JsonView};
use crate::text;
use vstd::prelude::*;
use vstd::string::StringExecFns;

verus! {

/// The characters of the texts of a list.
pub open spec fn names(list: Seq<&'static str>) -> Seq<Seq<char>> {
    list.map_values(|s: &'static str| s@)
}

/// A list of fixed texts as a document.
pub fn name_list(list: &Vec<&'static str>) -> (r: Json)
    ensures
        r.model() == json::text_items(names(list@)),
{
    let mut out: Vec<Json> = Vec::new();
    let mut i: usize = 0;
    while i < list.len()
        invariant
            i <= list.len(),
            out.len() == i,
            forall|j: int| 0 <= j < i ==> #[trigger] out@[j].model() == JsonView::Str(list@[j]@),
        decreases list.len() - i,
    {
        out.push(json::text(list[i]));
        i = i + 1;
    }
    assert(json::models(out@) =~= json::text_items(names(list@))->Arr_0);
    json::list(out)
}

/// Puts one more fixed text at the end of a list.
pub fn add_name(list: &mut Vec<&'static str>, name: &'static str)
    ensures
        names(final(list)@) == names(old(list)@).push(name@),
{
    list.push(name);
    assert(names(list@) =~= names(old(list)@).push(name@));
}

/// A list of no fixed texts.
pub fn no_names() -> (r: Vec<&'static str>)
    ensures
        names(r@) == Seq::<Seq<char>>::empty(),
{
    let r: Vec<&'static str> = Vec::new();
    assert(names(r@) =~= Seq::empty());
    r
}

/// A request that was answered before.
pub struct StoredRequest {
    pub request_hash: String,
    pub receipt: Json,
}

/// The answer to a request: its receipt, and whether it was answered before.
pub open spec fn answer_doc(replayed: bool, receipt: JsonView) -> JsonView {
    JsonView::Obj(
        json::no_fields().push(("replayed"@, JsonView::Bool(replayed))).push(
            ("receipt"@, receipt),
        ),
    )
}

/// The answer to a request.
pub fn answer(replayed: bool, receipt: Json) -> (r: Json)
    ensures
        r.model() == answer_doc(replayed, receipt.model()),
{
    Doc::new().put("replayed", json::flag(replayed)).put("receipt", receipt).json()
}

/// What a stored request means for one with the same id: nothing where there is none, the same
/// answer where the intent is the same, a conflict where it is another.
pub open spec fn replayed(stored: Option<&StoredRequest>, intent_hash: Seq<char>) -> Result<
    Option<JsonView>,
    Fault,
> {
    match stored {
        None => Ok(None),
        Some(s) => if s.request_hash@ == intent_hash {
            Ok(Some(answer_doc(true, s.receipt.model())))
        } else {
            Err(Fault::IdempotencyConflict)
        },
    }
}

/// The model of a document that may be absent or refused.
pub open spec fn opt_doc(r: PgResult<Option<Json>>) -> Result<Option<JsonView>, Fault> {
    match r {
        Ok(None) => Ok(None),
        Ok(Some(d)) => Ok(Some(d.model())),
        Err(e) => Err(e@),
    }
}

/// The answer that a request was given before, if it was.
pub fn replay(stored: Option<&StoredRequest>, intent_hash: &str) -> (r: PgResult<Option<Json>>)
    ensures
        opt_doc(r) == replayed(stored, intent_hash@),
{
    match stored {
        None => Ok(None),
        Some(s) => {
            if !text::same(s.request_hash.as_str(), intent_hash) {
                return Err(PgError::IdempotencyConflict);
            }
            Ok(Some(answer(true, s.receipt.copy())))
        },
    }
}

/// The answer to a question about a request: committed with its receipt, or unknown.
pub open spec fn outcome_doc(receipt: Option<JsonView>) -> JsonView {
    match receipt {
        Some(d) => JsonView::Obj(
            json::no_fields().push(("outcome"@, JsonView::Str("committed"@))).push(("receipt"@, d)),
        ),
        None => JsonView::Obj(json::no_fields().push(("outcome"@, JsonView::Str("unknown"@)))),
    }
}

/// The answer to a question about a request.
pub fn outcome(receipt: Option<Json>) -> (r: Json)
    ensures
        r.model() == outcome_doc(
            match receipt {
                Some(d) => Some(d.model()),
                None => None,
            },
        ),
{
    match receipt {
        Some(d) => Doc::new().put("outcome", json::text("committed")).put("receipt", d).json(),
        None => Doc::new().put("outcome", json::text("unknown")).json(),
    }
}

/// A plan is applied only with the digests that the operator has seen.
pub fn same_plan(
    state_digest: &str,
    plan_digest: &str,
    expected_state: &str,
    expected_plan: &str,
) -> (r: PgResult<()>)
    ensures
        error::checked(r) == (if state_digest@ == expected_state@ && plan_digest@ == expected_plan@ {
            Ok(())
        } else {
            Err(Fault::PreconditionsChanged)
        }),
{
    if !text::same(state_digest, expected_state) || !text::same(plan_digest, expected_plan) {
        return Err(PgError::PreconditionsChanged);
    }
    Ok(())
}

/// A write that must change exactly one row.
pub fn one_row(changed: u64) -> (r: PgResult<()>)
    ensures
        error::checked(r) == (if changed == 1 {
            Ok(())
        } else {
            Err(Fault::PreconditionsChanged)
        }),
{
    if changed != 1 {
        return Err(PgError::PreconditionsChanged);
    }
    Ok(())
}

/// The revision that a project moved to; there is none where it was at its last one.
pub fn next_revision(revision: Option<i64>) -> (r: PgResult<i64>)
    ensures
        match r {
            Ok(n) => revision == Some(n),
            Err(e) => revision is None && e@ == Fault::PreconditionsChanged,
        },
{
    match revision {
        Some(n) => Ok(n),
        None => Err(PgError::PreconditionsChanged),
    }
}

/// The actor under which an operator's events stand.
pub fn operator_actor(operator: &str) -> (r: String)
    ensures
        r@ == "operator:"@ + operator@,
{
    let mut out = "operator:".to_owned();
    out.append(operator);
    out
}

/// A request that was answered is answered the same way again: with its receipt, and with
/// nothing new done.
pub proof fn answered_requests_replay(stored: StoredRequest, intent_hash: Seq<char>)
    ensures
        stored.request_hash@ == intent_hash ==> replayed(Some(&stored), intent_hash) == Ok::<
            Option<JsonView>,
            Fault,
        >(Some(answer_doc(true, stored.receipt.model()))),
        stored.request_hash@ != intent_hash ==> replayed(Some(&stored), intent_hash) == Err::<
            Option<JsonView>,
            Fault,
        >(Fault::IdempotencyConflict),
{
}

/// A request that was never answered is carried out. One that was is answered from its receipt, and
/// only to the one who asks for the same.
pub proof fn requests_are_told_apart(stored: StoredRequest, intent_hash: Seq<char>)
    ensures
        replayed(None, intent_hash) == Ok::<Option<JsonView>, Fault>(None),
        replayed(Some(&stored), intent_hash) is Ok <==> stored.request_hash@ == intent_hash,
        replayed(Some(&stored), intent_hash) matches Ok(answer) ==> answer is Some && json::field(
            answer->Some_0,
            "receipt"@,
        ) == Some(stored.receipt.model()) && json::field(answer->Some_0, "replayed"@) == Some(
            JsonView::Bool(true),
        ),
        replayed(Some(&stored), intent_hash) matches Err(f) ==> f == Fault::IdempotencyConflict,
{
    answers_are_told(true, stored.receipt.model());
}

/// The outcome of a request is known exactly where it has a receipt, which is then told.
pub proof fn outcomes_are_of_their_receipts(receipt: JsonView)
    ensures
        json::field(outcome_doc(Some(receipt)), "outcome"@) == Some(JsonView::Str("committed"@)),
        json::field(outcome_doc(Some(receipt)), "receipt"@) == Some(receipt),
        json::field(outcome_doc(None), "outcome"@) == Some(JsonView::Str("unknown"@)),
        json::field(outcome_doc(None), "receipt"@) is None,
{
    reveal_strlit("outcome");
    reveal_strlit("receipt");
    assert("outcome"@.len() == 7 && "receipt"@.len() == 7);
    assert("outcome"@[0] == 'o' && "receipt"@[0] == 'r');
    let f = outcome_doc(Some(receipt))->Obj_0;
    json::field_is_first(f, "outcome"@, 0);
    json::field_is_first(f, "receipt"@, 1);
    let g = outcome_doc(None)->Obj_0;
    json::field_is_first(g, "outcome"@, 0);
    json::field_is_absent(g, "receipt"@);
}

/// A list of names is read in its order, each name by its letters.
pub proof fn names_are_in_their_places(list: Seq<&'static str>, i: int)
    requires
        0 <= i < list.len(),
    ensures
        names(list).len() == list.len(),
        names(list)[i] == list[i]@,
{
}

/// An answer holds the receipt, and whether it was given before.
pub proof fn answers_are_told(replayed: bool, receipt: JsonView)
    ensures
        json::field(answer_doc(replayed, receipt), "replayed"@) == Some(JsonView::Bool(replayed)),
        json::field(answer_doc(replayed, receipt), "receipt"@) == Some(receipt),
{
    reveal_strlit("replayed");
    reveal_strlit("receipt");
    assert("replayed"@.len() == 8);
    assert("receipt"@.len() == 7);
    let f = answer_doc(replayed, receipt)->Obj_0;
    json::field_is_first(f, "replayed"@, 0);
    json::field_is_first(f, "receipt"@, 1);
}

} // verus!
