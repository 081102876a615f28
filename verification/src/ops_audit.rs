//! The audit of permission, planning and delivery operations.
//!
//! A success is recorded with the change that it is about, a denial by itself with a
//! bounded number kept. What is recorded is redacted. Everybody reads their own
//! records; those of a whole project only with the permission to. No chat, no tool
//! input or output and no token billing is recorded.
use crate::digest;
use crate::error::{protocol, Fault, PgError, PgResult};
use crate::json;
use crate::json::{Doc, Json, JsonView};
use crate::pool::PgPool;
use crate::text;
use std::sync::Arc;
use vstd::prelude::*;
use vstd::utf8::*;

verus! {

broadcast use {vstd::string::group_string_axioms, vstd::utf8::group_utf8_lib};

/// How many denials a project keeps; the oldest go first.
pub const DENY_CAPACITY_PER_PROJECT: i64 = 1000;

/// How many records a page holds at most.
pub const HISTORY_PAGE_MAX: i64 = 200;

#[derive(Clone, Copy, Debug, PartialEq, Eq, Structural)]
pub enum OpsCategory {
    Access,
    Planning,
    Delivery,
    Other,
}

impl OpsCategory {
    /// The name of the category in records.
    pub open spec fn name(self) -> Seq<char> {
        match self {
            OpsCategory::Access => "access"@,
            OpsCategory::Planning => "planning"@,
            OpsCategory::Delivery => "delivery"@,
            OpsCategory::Other => "other"@,
        }
    }

    pub fn as_str(self) -> (r: &'static str)
        ensures
            r@ == self.name(),
    {
        match self {
            OpsCategory::Access => "access",
            OpsCategory::Planning => "planning",
            OpsCategory::Delivery => "delivery",
            OpsCategory::Other => "other",
        }
    }
}

/// Each category has a name of its own.
pub proof fn category_names_are_distinct(a: OpsCategory, b: OpsCategory)
    ensures
        a.name() == b.name() ==> a == b,
{
    reveal_strlit("access");
    reveal_strlit("planning");
    reveal_strlit("delivery");
    reveal_strlit("other");
    assert("access"@.len() == 6);
    assert("planning"@.len() == 8);
    assert("delivery"@.len() == 8);
    assert("planning"@[0] == 'p');
    assert("delivery"@[0] == 'd');
    assert("other"@.len() == 5);
}

/// A success to record.
pub struct OpsAuditWrite {
    pub category: OpsCategory,
    pub action: String,
    pub result: &'static str,
    pub person_id: Option<String>,
    pub actor_id: String,
    pub client_id: String,
    pub target_kind: String,
    pub target_id: Option<String>,
    pub work_id: Option<String>,
    pub change_id: Option<String>,
    pub request_id: Option<String>,
    pub membership_version: Option<i64>,
    pub authority_version: Option<i64>,
    pub policy_version: Option<i32>,
    pub source_version: Option<String>,
    pub digest: Option<String>,
    pub summary: Json,
}

/// A denial to record.
#[derive(Clone, Debug)]
pub struct OpsDenyWrite {
    pub category: OpsCategory,
    pub action: String,
    pub actor_id: Option<String>,
    pub client_id: Option<String>,
    pub person_id: Option<String>,
    pub target_kind: Option<String>,
    pub target_id: Option<String>,
    pub request_id: Option<String>,
    pub reason_code: String,
}

/// A field of a summary is dropped where its name, in small letters, holds one of these words.
pub open spec fn is_secret_key(key: Seq<char>) -> bool {
    let k = text::lowered(key);
    ||| text::holds(k, "secret"@)
    ||| text::holds(k, "secret_hash"@)
    ||| text::holds(k, "token"@)
    ||| text::holds(k, "bearer"@)
    ||| text::holds(k, "password"@)
    ||| text::holds(k, "raw_secret"@)
    ||| text::holds(k, "chat"@)
    ||| text::holds(k, "messages"@)
    ||| text::holds(k, "tool_input"@)
    ||| text::holds(k, "tool_output"@)
    ||| text::holds(k, "token_usage"@)
    ||| text::holds(k, "prompt"@)
    ||| text::holds(k, "completion"@)
}

fn secret_key(key: &str) -> (r: bool)
    ensures
        r == is_secret_key(key@),
{
    let lower = text::lower_chars(key);
    let k = lower.as_slice();
    text::contains(k, "secret") || text::contains(k, "secret_hash") || text::contains(k, "token")
        || text::contains(k, "bearer") || text::contains(k, "password") || text::contains(
        k,
        "raw_secret",
    ) || text::contains(k, "chat") || text::contains(k, "messages") || text::contains(
        k,
        "tool_input",
    ) || text::contains(k, "tool_output") || text::contains(k, "token_usage") || text::contains(
        k,
        "prompt",
    ) || text::contains(k, "completion")
}

/// The last place at or before byte `n` at which no character is split.
pub open spec fn last_boundary(bytes: Seq<u8>, n: int) -> int
    decreases n,
{
    if n <= 0 || is_char_boundary(bytes, n) {
        n
    } else {
        last_boundary(bytes, n - 1)
    }
}

/// A text longer than 512 bytes is cut after 509, or before the character that byte 509 would
/// split, and ends in an ellipsis.
pub open spec fn shortened(s: Seq<char>) -> Seq<char> {
    if encode_utf8(s).len() > 512 {
        decode_utf8(encode_utf8(s).subrange(0, last_boundary(encode_utf8(s), 509))).push('\u{2026}')
    } else {
        s
    }
}

/// A value of a summary: a long text is cut, any other value stays.
pub open spec fn shortened_value(v: JsonView) -> JsonView {
    match v {
        JsonView::Str(s) => JsonView::Str(shortened(s)),
        _ => v,
    }
}

/// The fields that a summary keeps.
pub open spec fn kept_fields(fields: Seq<(Seq<char>, JsonView)>) -> Seq<(Seq<char>, JsonView)> {
    fields.filter(|f: (Seq<char>, JsonView)| !is_secret_key(f.0))
}

/// A summary without its secret fields and with its long texts cut. Only the fields of the
/// summary itself are looked at.
pub open spec fn redacted(doc: JsonView) -> JsonView {
    match doc {
        JsonView::Obj(fields) => JsonView::Obj(
            kept_fields(fields).map_values(
                |f: (Seq<char>, JsonView)| (f.0, shortened_value(f.1)),
            ),
        ),
        _ => doc,
    }
}

fn shorten(s: &str) -> (r: String)
    ensures
        r@ == shortened(s@),
{
    if s.as_bytes().len() <= 512 {
        return s.to_owned();
    }
    let ghost bytes = encode_utf8(s@);
    let mut at: usize = 509;
    while !s.is_char_boundary(at)
        invariant
            bytes == encode_utf8(s@),
            valid_utf8(bytes),
            0 <= at <= 509,
            last_boundary(bytes, at as int) == last_boundary(bytes, 509),
        decreases at,
    {
        at = at - 1;
    }
    let (head, _rest) = s.split_at(at);
    proof {
        encode_utf8_decode_utf8(head@);
        assert(encode_utf8(head@) == bytes.subrange(0, at as int));
    }
    let mut out = head.to_owned();
    out.push('\u{2026}');
    out
}

proof fn kept_one_more(fields: Seq<(Seq<char>, JsonView)>, f: (Seq<char>, JsonView))
    ensures
        kept_fields(fields.push(f)) == if is_secret_key(f.0) {
            kept_fields(fields)
        } else {
            kept_fields(fields).push(f)
        },
{
    reveal(Seq::filter);
    assert(fields.push(f).drop_last() =~= fields);
}

/// A summary without its secret fields and with its long texts cut.
pub fn redact_summary(summary: Json) -> (r: Json)
    ensures
        r.model() == redacted(summary.model()),
{
    let ghost doc = summary.model();
    match summary {
        Json::Obj(fields) => {
            let ghost all = doc->Obj_0;
            let ghost cut = |f: (Seq<char>, JsonView)| (f.0, shortened_value(f.1));
            let mut out = Doc::new();
            let mut i: usize = 0;
            proof {
                reveal(Seq::filter);
                assert(all.take(0) =~= Seq::empty());
                assert(out@ =~= kept_fields(all.take(0)).map_values(cut));
            }
            while i < fields.len()
                invariant
                    i <= fields.len(),
                    all.len() == fields.len(),
                    doc == JsonView::Obj(all),
                    cut == (|f: (Seq<char>, JsonView)| (f.0, shortened_value(f.1))),
                    forall|j: int|
                        0 <= j < all.len() ==> #[trigger] all[j] == (
                            fields@[j].0@,
                            fields@[j].1.model(),
                        ),
                    out@ == kept_fields(all.take(i as int)).map_values(cut),
                decreases fields.len() - i,
            {
                let key = fields[i].0.as_str();
                let ghost f = all[i as int];
                let ghost before = kept_fields(all.take(i as int));
                proof {
                    assert(all.take(i + 1) =~= all.take(i as int).push(f));
                    kept_one_more(all.take(i as int), f);
                }
                if !secret_key(key) {
                    let value = match &fields[i].1 {
                        Json::Str(s) => json::text(shorten(s.as_str()).as_str()),
                        other => other.copy(),
                    };
                    assert(value.model() == shortened_value(f.1));
                    out = out.put(key, value);
                    assert(before.push(f).map_values(cut) =~= before.map_values(cut).push(cut(f)));
                }
                i = i + 1;
            }
            assert(all.take(i as int) =~= all);
            out.json()
        },
        other => other,
    }
}

/// No field of a redacted summary has a secret name.
pub proof fn redaction_drops_secrets(doc: JsonView, i: int)
    requires
        redacted(doc) is Obj,
        0 <= i < redacted(doc)->Obj_0.len(),
    ensures
        !is_secret_key(redacted(doc)->Obj_0[i].0),
{
    let fields = doc->Obj_0;
    fields.lemma_filter_pred(|f: (Seq<char>, JsonView)| !is_secret_key(f.0), i);
}

/// The digest of a document.
pub fn digest_of(v: &Json) -> (r: String)
    ensures
        r@ == digest::doc_digest(v.model()),
        text::is_hex(r@),
{
    digest::digest_of(v)
}

/// A reason speaks of a secret.
pub open spec fn names_secret(reason: Seq<char>) -> bool {
    let r = text::lowered(reason);
    ||| text::holds(r, "secret"@)
    ||| text::holds(r, "token"@)
    ||| text::holds(r, "bearer"@)
    ||| text::holds(r, "password"@)
}

/// The reason that is recorded for a denial: trimmed and at most 128 characters; a fixed one
/// where it is empty, and another where it speaks of a secret.
pub open spec fn sanitized(raw: Seq<char>) -> Seq<char> {
    let t = text::trimmed(raw);
    if t.len() == 0 {
        "denied"@
    } else if names_secret(t) {
        "redacted_deny"@
    } else if t.len() > 128 {
        t.take(128)
    } else {
        t
    }
}

/// The reason that is recorded for a denial.
pub fn sanitize_reason(raw: &str) -> (r: String)
    ensures
        r@ == sanitized(raw@),
{
    let trimmed = text::trim(raw);
    let chars = text::chars_of(trimmed.as_str());
    if chars.len() == 0 {
        return "denied".to_owned();
    }
    let lower = text::lower_chars(trimmed.as_str());
    let k = lower.as_slice();
    if text::contains(k, "secret") || text::contains(k, "token") || text::contains(k, "bearer")
        || text::contains(k, "password") {
        return "redacted_deny".to_owned();
    }
    if chars.len() > 128 {
        let head = text::text_of(chars.as_slice(), 0, 128);
        assert(head@ =~= chars@.take(128));
        return head;
    }
    trimmed
}

proof fn lacks(hay: Seq<char>, needle: Seq<char>, k: int)
    requires
        0 <= k < needle.len(),
        forall|i: int| 0 <= i < hay.len() ==> #[trigger] hay[i] != needle[k],
    ensures
        !text::holds(hay, needle),
{
    if text::holds(hay, needle) {
        let at = choose|at: int| text::stands_at(hay, needle, at);
        assert(hay[at + k] == needle[k]);
    }
}

proof fn prefix_holds_less(s: Seq<char>, n: int, needle: Seq<char>)
    requires
        0 <= n <= s.len(),
        text::holds(text::lowered(s.take(n)), needle),
    ensures
        text::holds(text::lowered(s), needle),
{
    let a = text::lowered(s.take(n));
    let b = text::lowered(s);
    let at = choose|at: int| text::stands_at(a, needle, at);
    assert forall|j: int| 0 <= j < needle.len() implies #[trigger] b[at + j] == needle[j] by {
        assert(a[at + j] == needle[j]);
        assert(s.take(n)[at + j] == s[at + j]);
    }
    assert(text::stands_at(b, needle, at));
}

/// A recorded reason never speaks of a secret.
pub proof fn recorded_reasons_name_no_secret(raw: Seq<char>)
    ensures
        !names_secret(sanitized(raw)),
{
    reveal_strlit("secret");
    reveal_strlit("token");
    reveal_strlit("bearer");
    reveal_strlit("password");
    reveal_strlit("denied");
    reveal_strlit("redacted_deny");
    let t = text::trimmed(raw);
    if t.len() == 0 || names_secret(t) {
        let r = text::lowered(sanitized(raw));
        assert(forall|i: int|
            0 <= i < r.len() ==> #[trigger] r[i] != 's' && r[i] != 'k' && r[i] != 'b' && r[i]
                != 'p');
        assert("secret"@[0] == 's');
        assert("token"@[2] == 'k');
        assert("bearer"@[0] == 'b');
        assert("password"@[0] == 'p');
        lacks(r, "secret"@, 0);
        lacks(r, "token"@, 2);
        lacks(r, "bearer"@, 0);
        lacks(r, "password"@, 0);
    } else if t.len() > 128 {
        if text::holds(text::lowered(t.take(128)), "secret"@) {
            prefix_holds_less(t, 128, "secret"@);
        }
        if text::holds(text::lowered(t.take(128)), "token"@) {
            prefix_holds_less(t, 128, "token"@);
        }
        if text::holds(text::lowered(t.take(128)), "bearer"@) {
            prefix_holds_less(t, 128, "bearer"@);
        }
        if text::holds(text::lowered(t.take(128)), "password"@) {
            prefix_holds_less(t, 128, "password"@);
        }
    }
}

/// The summary of a success, ready to be stored. Only access, planning and delivery are
/// recorded, and only results that took effect.
pub fn record_in_tx(write: &OpsAuditWrite) -> (r: PgResult<Json>)
    ensures
        match r {
            Ok(summary) => {
                &&& !(write.category is Other)
                &&& write.result@ == "committed"@ || write.result@ == "succeeded"@
                &&& summary.model() == redacted(write.summary.model())
            },
            Err(e) => if write.category is Other {
                e@ == Fault::Protocol("ops audit success rows require access|planning|delivery"@)
            } else {
                &&& write.result@ != "committed"@
                &&& write.result@ != "succeeded"@
                &&& e@ == Fault::Protocol("invalid ops audit result"@)
            },
        },
{
    if write.category == OpsCategory::Other {
        return Err(protocol("ops audit success rows require access|planning|delivery"));
    }
    if !text::same(write.result, "committed") && !text::same(write.result, "succeeded") {
        return Err(protocol("invalid ops audit result"));
    }
    Ok(redact_summary(write.summary.copy()))
}

/// The reason under which a denial is recorded, in a project that exists.
pub fn record_deny(project_exists: bool, write: &OpsDenyWrite) -> (r: PgResult<String>)
    ensures
        match r {
            Ok(reason) => project_exists && reason@ == sanitized(write.reason_code@),
            Err(e) => !project_exists && e@ == Fault::ProjectNotAvailable,
        },
{
    if !project_exists {
        return Err(PgError::ProjectNotAvailable);
    }
    Ok(sanitize_reason(write.reason_code.as_str()))
}

/// Which records a reader asks for.
#[derive(Clone, Debug, Default)]
pub struct OpsHistoryFilter {
    pub work_id: Option<String>,
    pub change_id: Option<String>,
    pub member_actor_id: Option<String>,
    pub request_id: Option<String>,
    pub category: Option<String>,
    pub include_denies: bool,
    pub limit: Option<i64>,
}

/// Which records a reader gets.
#[derive(Clone, Debug)]
pub struct ReadScope {
    pub project_wide: bool,
    /// Only the records of this actor; those of all actors where there is none.
    pub actor_scope: Option<String>,
    pub limit: i64,
}

/// The size of a page: what is asked for, 50 by default, at least 1 and at most 200.
pub open spec fn page_size(limit: Option<i64>) -> int {
    let n = match limit {
        Some(l) => l as int,
        None => 50,
    };
    if n < 1 {
        1
    } else if n > HISTORY_PAGE_MAX {
        HISTORY_PAGE_MAX as int
    } else {
        n
    }
}

/// The name of a scope in answers.
pub open spec fn scope_name(project_wide: bool) -> Seq<char> {
    if project_wide {
        "project"@
    } else {
        "self"@
    }
}

fn scope_text(project_wide: bool) -> (r: &'static str)
    ensures
        r@ == scope_name(project_wide),
{
    if project_wide {
        "project"
    } else {
        "self"
    }
}

/// The answer to a count.
pub open spec fn count_doc(project_wide: bool, records: i64, denies: i64) -> JsonView {
    JsonView::Obj(
        json::no_fields().push(("protocol"@, JsonView::Str("awr-ops-audit-v1"@))).push(
            ("scope"@, JsonView::Str(scope_name(project_wide))),
        ).push(("records"@, JsonView::Int(records as int))).push(
            ("denies"@, JsonView::Int(denies as int)),
        ).push(("authorized"@, JsonView::Bool(true))).push(
            ("non_repudiation"@, JsonView::Str("not_claimed_against_db_owner"@)),
        ),
    )
}

/// The answer to a reader.
pub open spec fn page_doc(
    project_wide: bool,
    records: Seq<JsonView>,
    denies: Seq<JsonView>,
    limit: i64,
    as_export: bool,
) -> JsonView {
    let page = json::no_fields().push(("protocol"@, JsonView::Str("awr-ops-audit-v1"@))).push(
        ("scope"@, JsonView::Str(scope_name(project_wide))),
    ).push(("records"@, JsonView::Arr(records))).push(("denies"@, JsonView::Arr(denies))).push(
        ("limit"@, JsonView::Int(limit as int)),
    ).push(("chat_text_collected"@, JsonView::Bool(false))).push(
        ("tool_io_collected"@, JsonView::Bool(false)),
    ).push(("token_billing_collected"@, JsonView::Bool(false))).push(
        ("non_repudiation"@, JsonView::Str("not_claimed_against_db_owner"@)),
    );
    if as_export {
        JsonView::Obj(
            page.push(("export"@, JsonView::Bool(true))).push(
                (
                    "scope_note"@,
                    JsonView::Str("ops_audit_only_no_chat_tool_io_or_token_billing"@),
                ),
            ),
        )
    } else {
        JsonView::Obj(page)
    }
}

/// A record as it is stored.
pub struct OpsRecord {
    pub id: String,
    pub category: String,
    pub action: String,
    pub result: String,
    pub person_id: Option<String>,
    pub actor_id: String,
    pub client_id: String,
    pub target_kind: String,
    pub target_id: Option<String>,
    pub work_id: Option<String>,
    pub change_id: Option<String>,
    pub request_id: Option<String>,
    pub membership_version: Option<i64>,
    pub authority_version: Option<i64>,
    pub policy_version: Option<i32>,
    pub source_version: Option<String>,
    pub digest: Option<String>,
    pub summary: Json,
    pub created_at_unix_ms: i64,
}

/// A version that may be absent, in decimal form.
pub open spec fn version_item(v: Option<i64>) -> JsonView {
    match v {
        Some(n) => JsonView::Str(text::decimal_form(n as int)),
        None => JsonView::Null,
    }
}

fn version_text(v: Option<i64>) -> (r: Json)
    ensures
        r.model() == version_item(v),
{
    match v {
        Some(n) => json::text(text::decimal(n).as_str()),
        None => json::null(),
    }
}

/// A record, as a document.
pub open spec fn record_doc(row: OpsRecord) -> JsonView {
    JsonView::Obj(
        json::no_fields().push(("id"@, JsonView::Str(row.id@))).push(
            ("category"@, JsonView::Str(row.category@)),
        ).push(("action"@, JsonView::Str(row.action@))).push(
            ("result"@, JsonView::Str(row.result@)),
        ).push(("person_id"@, json::opt_item(text::opt(row.person_id)))).push(
            ("actor_id"@, JsonView::Str(row.actor_id@)),
        ).push(("client_id"@, JsonView::Str(row.client_id@))).push(
            ("target_kind"@, JsonView::Str(row.target_kind@)),
        ).push(("target_id"@, json::opt_item(text::opt(row.target_id)))).push(
            ("work_id"@, json::opt_item(text::opt(row.work_id))),
        ).push(("change_id"@, json::opt_item(text::opt(row.change_id)))).push(
            ("request_id"@, json::opt_item(text::opt(row.request_id))),
        ).push(("membership_version"@, version_item(row.membership_version))).push(
            ("authority_version"@, version_item(row.authority_version)),
        ).push(
            (
                "policy_version"@,
                match row.policy_version {
                    Some(n) => JsonView::Int(n as int),
                    None => JsonView::Null,
                },
            ),
        ).push(("source_version"@, json::opt_item(text::opt(row.source_version)))).push(
            ("digest"@, json::opt_item(text::opt(row.digest))),
        ).push(("summary"@, row.summary.model())).push(
            ("created_at_unix_ms"@, JsonView::Int(row.created_at_unix_ms as int)),
        ),
    )
}

/// A record, as a document.
pub fn record_document(row: &OpsRecord) -> (r: Json)
    ensures
        r.model() == record_doc(*row),
{
    let policy = match row.policy_version {
        Some(n) => json::number(n as i64),
        None => json::null(),
    };
    Doc::new().put("id", json::text(row.id.as_str())).put(
        "category",
        json::text(row.category.as_str()),
    ).put("action", json::text(row.action.as_str())).put(
        "result",
        json::text(row.result.as_str()),
    ).put("person_id", json::opt_text(text::as_opt_str(&row.person_id))).put(
        "actor_id",
        json::text(row.actor_id.as_str()),
    ).put("client_id", json::text(row.client_id.as_str())).put(
        "target_kind",
        json::text(row.target_kind.as_str()),
    ).put("target_id", json::opt_text(text::as_opt_str(&row.target_id))).put(
        "work_id",
        json::opt_text(text::as_opt_str(&row.work_id)),
    ).put("change_id", json::opt_text(text::as_opt_str(&row.change_id))).put(
        "request_id",
        json::opt_text(text::as_opt_str(&row.request_id)),
    ).put("membership_version", version_text(row.membership_version)).put(
        "authority_version",
        version_text(row.authority_version),
    ).put("policy_version", policy).put(
        "source_version",
        json::opt_text(text::as_opt_str(&row.source_version)),
    ).put("digest", json::opt_text(text::as_opt_str(&row.digest))).put(
        "summary",
        row.summary.copy(),
    ).put("created_at_unix_ms", json::number(row.created_at_unix_ms)).json()
}

/// A denial as it is stored.
pub struct OpsDeny {
    pub id: String,
    pub category: String,
    pub action: String,
    pub actor_id: Option<String>,
    pub client_id: Option<String>,
    pub person_id: Option<String>,
    pub target_kind: Option<String>,
    pub target_id: Option<String>,
    pub request_id: Option<String>,
    pub reason_code: String,
    pub created_at_unix_ms: i64,
}

/// A denial, as a document.
pub open spec fn deny_doc(row: OpsDeny) -> JsonView {
    JsonView::Obj(
        json::no_fields().push(("id"@, JsonView::Str(row.id@))).push(
            ("category"@, JsonView::Str(row.category@)),
        ).push(("action"@, JsonView::Str(row.action@))).push(
            ("actor_id"@, json::opt_item(text::opt(row.actor_id))),
        ).push(("client_id"@, json::opt_item(text::opt(row.client_id)))).push(
            ("person_id"@, json::opt_item(text::opt(row.person_id))),
        ).push(("target_kind"@, json::opt_item(text::opt(row.target_kind)))).push(
            ("target_id"@, json::opt_item(text::opt(row.target_id))),
        ).push(("request_id"@, json::opt_item(text::opt(row.request_id)))).push(
            ("reason_code"@, JsonView::Str(row.reason_code@)),
        ).push(("created_at_unix_ms"@, JsonView::Int(row.created_at_unix_ms as int))).push(
            ("redacted"@, JsonView::Bool(true)),
        ),
    )
}

/// A denial, as a document.
pub fn deny_document(row: &OpsDeny) -> (r: Json)
    ensures
        r.model() == deny_doc(*row),
{
    Doc::new().put("id", json::text(row.id.as_str())).put(
        "category",
        json::text(row.category.as_str()),
    ).put("action", json::text(row.action.as_str())).put(
        "actor_id",
        json::opt_text(text::as_opt_str(&row.actor_id)),
    ).put("client_id", json::opt_text(text::as_opt_str(&row.client_id))).put(
        "person_id",
        json::opt_text(text::as_opt_str(&row.person_id)),
    ).put("target_kind", json::opt_text(text::as_opt_str(&row.target_kind))).put(
        "target_id",
        json::opt_text(text::as_opt_str(&row.target_id)),
    ).put("request_id", json::opt_text(text::as_opt_str(&row.request_id))).put(
        "reason_code",
        json::text(row.reason_code.as_str()),
    ).put("created_at_unix_ms", json::number(row.created_at_unix_ms)).put(
        "redacted",
        json::flag(true),
    ).json()
}

/// The rules of reading the audit, for one database.
pub struct OpsAuditStore {
    pub pool: Arc<PgPool>,
}

impl OpsAuditStore {
    pub fn new(url: &str) -> (r: OpsAuditStore)
        ensures
            r.pool.address() == url@,
    {
        OpsAuditStore { pool: Arc::new(PgPool::new(url)) }
    }

    pub fn from_pool(pool: Arc<PgPool>) -> (r: OpsAuditStore)
        ensures
            r.pool == pool,
    {
        OpsAuditStore { pool }
    }

    pub fn pool(&self) -> (r: &PgPool)
        ensures
            *r == *self.pool,
    {
        &*self.pool
    }

    /// Which records a reader gets. One who may not read the whole project must at least be
    /// allowed to read works, and sees only their own records.
    pub fn read_surface(
        &self,
        actor_id: &str,
        project_wide: bool,
        work_read: PgResult<()>,
        filter: &OpsHistoryFilter,
    ) -> (r: PgResult<ReadScope>)
        ensures
            match r {
                Ok(scope) => {
                    &&& project_wide || (work_read is Ok && (filter.member_actor_id is Some
                        ==> filter.member_actor_id->Some_0@ == actor_id@))
                    &&& scope.project_wide == project_wide
                    &&& scope.limit == page_size(filter.limit)
                    &&& text::opt(scope.actor_scope) == (if project_wide {
                        text::opt(filter.member_actor_id)
                    } else {
                        Some(actor_id@)
                    })
                },
                Err(e) => !project_wide && match work_read {
                    Err(denied) => e == denied,
                    Ok(_) => {
                        &&& filter.member_actor_id is Some
                        &&& filter.member_actor_id->Some_0@ != actor_id@
                        &&& e@ == Fault::Forbidden
                    },
                },
            },
    {
        if !project_wide {
            match work_read {
                Err(denied) => {
                    return Err(denied);
                },
                Ok(_) => {},
            }
            if let Some(m) = &filter.member_actor_id {
                if !text::same(m.as_str(), actor_id) {
                    return Err(PgError::Forbidden);
                }
            }
        }
        let asked: i64 = match filter.limit {
            Some(l) => l,
            None => 50,
        };
        let limit: i64 = if asked < 1 {
            1
        } else if asked > HISTORY_PAGE_MAX {
            HISTORY_PAGE_MAX
        } else {
            asked
        };
        let actor_scope = if project_wide {
            text::copy_opt(&filter.member_actor_id)
        } else {
            Some(actor_id.to_owned())
        };
        Ok(ReadScope { project_wide, actor_scope, limit })
    }

    /// The answer to a count; denials count only where the reader asks for them.
    pub fn count(
        &self,
        scope: &ReadScope,
        filter: &OpsHistoryFilter,
        records: i64,
        denies: i64,
    ) -> (r: Json)
        ensures
            r.model() == count_doc(
                scope.project_wide,
                records,
                if filter.include_denies {
                    denies
                } else {
                    0
                },
            ),
    {
        let denies: i64 = if filter.include_denies {
            denies
        } else {
            0
        };
        Doc::new().put("protocol", json::text("awr-ops-audit-v1")).put(
            "scope",
            json::text(scope_text(scope.project_wide)),
        ).put("records", json::number(records)).put("denies", json::number(denies)).put(
            "authorized",
            json::flag(true),
        ).put("non_repudiation", json::text("not_claimed_against_db_owner")).json()
    }

    fn page(
        &self,
        scope: &ReadScope,
        filter: &OpsHistoryFilter,
        records: Vec<Json>,
        denies: Vec<Json>,
        as_export: bool,
    ) -> (r: Json)
        ensures
            r.model() == page_doc(
                scope.project_wide,
                json::models(records@),
                if filter.include_denies {
                    json::models(denies@)
                } else {
                    Seq::empty()
                },
                scope.limit,
                as_export,
            ),
    {
        let denied = if filter.include_denies {
            denies
        } else {
            let none: Vec<Json> = Vec::new();
            assert(json::models(none@) =~= Seq::empty());
            none
        };
        let page = Doc::new().put("protocol", json::text("awr-ops-audit-v1")).put(
            "scope",
            json::text(scope_text(scope.project_wide)),
        ).put("records", json::list(records)).put("denies", json::list(denied)).put(
            "limit",
            json::number(scope.limit),
        ).put("chat_text_collected", json::flag(false)).put(
            "tool_io_collected",
            json::flag(false),
        ).put("token_billing_collected", json::flag(false)).put(
            "non_repudiation",
            json::text("not_claimed_against_db_owner"),
        );
        if as_export {
            page.put("export", json::flag(true)).put(
                "scope_note",
                json::text("ops_audit_only_no_chat_tool_io_or_token_billing"),
            ).json()
        } else {
            page.json()
        }
    }

    /// The answer to a reader; denials only where the reader asks for them.
    pub fn history(
        &self,
        scope: &ReadScope,
        filter: &OpsHistoryFilter,
        records: Vec<Json>,
        denies: Vec<Json>,
    ) -> (r: Json)
        ensures
            r.model() == page_doc(
                scope.project_wide,
                json::models(records@),
                if filter.include_denies {
                    json::models(denies@)
                } else {
                    Seq::empty()
                },
                scope.limit,
                false,
            ),
    {
        self.page(scope, filter, records, denies, false)
    }

    /// The answer to an export.
    pub fn export(
        &self,
        scope: &ReadScope,
        filter: &OpsHistoryFilter,
        records: Vec<Json>,
        denies: Vec<Json>,
    ) -> (r: Json)
        ensures
            r.model() == page_doc(
                scope.project_wide,
                json::models(records@),
                if filter.include_denies {
                    json::models(denies@)
                } else {
                    Seq::empty()
                },
                scope.limit,
                true,
            ),
    {
        self.page(scope, filter, records, denies, true)
    }
}

/// The member on whose behalf something is recorded.
#[derive(Clone, Debug)]
pub struct AuditActor {
    pub actor_id: String,
    pub client_id: String,
    pub membership_version: i64,
    pub policy_version: i32,
    /// The source snapshot that the member works on; empty where there is none.
    pub snapshot: String,
}

/// A success to record on behalf of a member.
pub fn write_from_auth(
    auth: &AuditActor,
    category: OpsCategory,
    action: &str,
    target_kind: &str,
) -> (r: OpsAuditWrite)
    ensures
        r.category == category,
        r.action@ == action@,
        r.result@ == "committed"@,
        r.person_id is None,
        r.actor_id@ == auth.actor_id@,
        r.client_id@ == auth.client_id@,
        r.target_kind@ == target_kind@,
        r.target_id is None,
        r.work_id is None,
        r.change_id is None,
        r.request_id is None,
        r.membership_version == Some(auth.membership_version),
        r.authority_version is None,
        r.policy_version == Some(auth.policy_version),
        text::opt(r.source_version) == (if auth.snapshot@.len() == 0 {
            None
        } else {
            Some(auth.snapshot@)
        }),
        r.digest is None,
        r.summary.model() == JsonView::Obj(json::no_fields()),
{
    OpsAuditWrite {
        category,
        action: action.to_owned(),
        result: "committed",
        person_id: None,
        actor_id: auth.actor_id.as_str().to_owned(),
        client_id: auth.client_id.as_str().to_owned(),
        target_kind: target_kind.to_owned(),
        target_id: None,
        work_id: None,
        change_id: None,
        request_id: None,
        membership_version: Some(auth.membership_version),
        authority_version: None,
        policy_version: Some(auth.policy_version),
        source_version: if auth.snapshot.as_str().is_empty() {
            None
        } else {
            Some(auth.snapshot.as_str().to_owned())
        },
        digest: None,
        summary: Doc::new().json(),
    }
}

/// A page holds at least one record and at most 200, whatever is asked for.
pub proof fn pages_are_bounded(limit: Option<i64>)
    ensures
        1 <= page_size(limit) <= HISTORY_PAGE_MAX,
{
}

proof fn encoding_of_push(s: Seq<char>, c: char)
    ensures
        encode_utf8(s.push(c)) == encode_utf8(s) + encode_scalar(c as u32),
    decreases s.len(),
{
    if s.len() == 0 {
        assert(s.push(c).drop_first() =~= s);
        assert(encode_utf8(s) =~= Seq::empty());
        assert(encode_scalar(c as u32) + Seq::<u8>::empty() =~= Seq::<u8>::empty() + encode_scalar(
            c as u32,
        ));
    } else {
        encoding_of_push(s.drop_first(), c);
        assert(s.push(c).drop_first() =~= s.drop_first().push(c));
        assert(encode_scalar(s[0] as u32) + (encode_utf8(s.drop_first()) + encode_scalar(c as u32))
            =~= (encode_scalar(s[0] as u32) + encode_utf8(s.drop_first())) + encode_scalar(
            c as u32,
        ));
    }
}

proof fn last_boundary_is_last(bytes: Seq<u8>, n: int)
    requires
        valid_utf8(bytes),
        n >= 0,
    ensures
        0 <= last_boundary(bytes, n) <= n,
        is_char_boundary(bytes, last_boundary(bytes, n)),
        forall|k: int| last_boundary(bytes, n) < k <= n ==> !#[trigger] is_char_boundary(bytes, k),
    decreases n,
{
    if n > 0 && !is_char_boundary(bytes, n) {
        last_boundary_is_last(bytes, n - 1);
    }
}

/// A text that is too long keeps as many of its first characters as fit into 509 bytes, and then
/// ends in an ellipsis; it has at most 512 bytes. Any other text stays as it is.
pub proof fn long_texts_keep_their_beginning(s: Seq<char>, n: int)
    requires
        0 <= n <= s.len(),
    ensures
        encode_utf8(shortened(s)).len() <= 512,
        encode_utf8(s).len() <= 512 ==> shortened(s) == s,
        encode_utf8(s).len() > 512 ==> {
            &&& shortened(s).last() == '\u{2026}'
            &&& shortened(s).drop_last().is_prefix_of(s)
            &&& n <= shortened(s).drop_last().len() <==> encode_utf8(s.take(n)).len() <= 509
        },
{
    if encode_utf8(s).len() > 512 {
        let bytes = encode_utf8(s);
        let at = last_boundary(bytes, 509);
        encode_utf8_valid_utf8(s);
        last_boundary_is_last(bytes, 509);
        let head = bytes.subrange(0, at);
        let kept = decode_utf8(head);
        valid_utf8_split(bytes, at);
        decode_utf8_split(bytes, at);
        decode_utf8_encode_utf8(head);
        encode_utf8_decode_utf8(s);
        encoding_of_push(kept, '\u{2026}');
        assert(shortened(s).drop_last() =~= kept);
        assert(kept =~= s.take(kept.len() as int));
        prefix_ends_at_a_boundary(s, n);
        if n <= kept.len() {
            longer_prefixes_have_more_bytes(s, n, kept.len() as int);
        } else {
            longer_prefixes_have_more_bytes(s, kept.len() as int, n);
        }
    }
}

/// The bytes of the first characters of a text are the first bytes of the text, and end where no
/// character is split.
proof fn prefix_ends_at_a_boundary(s: Seq<char>, n: int)
    requires
        0 <= n <= s.len(),
    ensures
        encode_utf8(s.take(n)).len() <= encode_utf8(s).len(),
        is_char_boundary(encode_utf8(s), encode_utf8(s.take(n)).len() as int),
    decreases s.len(),
{
    encode_utf8_valid_utf8(s);
    if n == 0 {
        assert(s.take(0) =~= Seq::empty());
    } else {
        prefix_ends_at_a_boundary(s.drop_first(), n - 1);
        assert(s.take(n).drop_first() =~= s.drop_first().take(n - 1));
        encode_utf8_first_scalar(s);
        assert(pop_first_scalar(encode_utf8(s)) =~= encode_utf8(s.drop_first()));
    }
}

proof fn longer_prefixes_have_more_bytes(s: Seq<char>, a: int, b: int)
    requires
        0 <= a <= b <= s.len(),
    ensures
        encode_utf8(s.take(a)).len() + (b - a) <= encode_utf8(s.take(b)).len(),
    decreases b - a,
{
    if a < b {
        longer_prefixes_have_more_bytes(s, a, b - 1);
        encoding_of_push(s.take(b - 1), s[b - 1]);
        assert(s.take(b) =~= s.take(b - 1).push(s[b - 1]));
    }
}

/// Cutting a text that was cut changes nothing.
pub proof fn shortening_is_idempotent(s: Seq<char>)
    ensures
        shortened(shortened(s)) == shortened(s),
{
    long_texts_keep_their_beginning(s, 0);
}

proof fn nothing_is_dropped(fields: Seq<(Seq<char>, JsonView)>)
    requires
        forall|i: int| 0 <= i < fields.len() ==> !is_secret_key((#[trigger] fields[i]).0),
    ensures
        kept_fields(fields) == fields,
    decreases fields.len(),
{
    if fields.len() > 0 {
        let head = fields.drop_last();
        assert forall|i: int| 0 <= i < head.len() implies !is_secret_key((#[trigger] head[i]).0) by {
            assert(head[i] == fields[i]);
        }
        nothing_is_dropped(head);
        kept_one_more(head, fields.last());
        assert(fields =~= head.push(fields.last()));
        assert(fields[fields.len() - 1] == fields.last());
    } else {
        reveal(Seq::filter);
        assert(kept_fields(fields) =~= fields);
    }
}

/// A summary that was redacted stays as it is when it is redacted again.
pub proof fn redaction_is_idempotent(doc: JsonView)
    ensures
        redacted(redacted(doc)) == redacted(doc),
{
    if let JsonView::Obj(fields) = doc {
        let cut = |f: (Seq<char>, JsonView)| (f.0, shortened_value(f.1));
        let kept = kept_fields(fields);
        let once = kept.map_values(cut);
        assert forall|i: int| 0 <= i < once.len() implies !is_secret_key((#[trigger] once[i]).0) by {
            redaction_drops_secrets(doc, i);
        }
        nothing_is_dropped(once);
        assert forall|i: int| 0 <= i < once.len() implies cut(#[trigger] once[i]) == once[i] by {
            let f = kept[i];
            assert(once[i] == cut(f));
            if f.1 is Str {
                shortening_is_idempotent(f.1->Str_0);
            }
        }
        assert(once.map_values(cut) =~= once);
    }
}

/// A field whose name holds one of the secret words is never kept, in whatever case it is written and
/// whatever stands around the word.
pub proof fn secret_words_are_dropped(key: Seq<char>)
    ensures
        text::holds(text::lowered(key), "secret"@) ==> is_secret_key(key),
        text::holds(text::lowered(key), "token"@) ==> is_secret_key(key),
        text::holds(text::lowered(key), "bearer"@) ==> is_secret_key(key),
        text::holds(text::lowered(key), "password"@) ==> is_secret_key(key),
        text::holds(text::lowered(key), "chat"@) ==> is_secret_key(key),
        text::holds(text::lowered(key), "messages"@) ==> is_secret_key(key),
        text::holds(text::lowered(key), "tool_input"@) ==> is_secret_key(key),
        text::holds(text::lowered(key), "tool_output"@) ==> is_secret_key(key),
        text::holds(text::lowered(key), "prompt"@) ==> is_secret_key(key),
        text::holds(text::lowered(key), "completion"@) ==> is_secret_key(key),
{
}

/// A name that is shorter than every secret word is kept.
pub proof fn harmless_names_are_kept(key: Seq<char>)
    requires
        key.len() < 4,
    ensures
        !is_secret_key(key),
{
    reveal_strlit("secret");
    reveal_strlit("secret_hash");
    reveal_strlit("token");
    reveal_strlit("bearer");
    reveal_strlit("password");
    reveal_strlit("raw_secret");
    reveal_strlit("chat");
    reveal_strlit("messages");
    reveal_strlit("tool_input");
    reveal_strlit("tool_output");
    reveal_strlit("token_usage");
    reveal_strlit("prompt");
    reveal_strlit("completion");
    assert("secret"@.len() == 6 && "secret_hash"@.len() == 11 && "token"@.len() == 5 && "bearer"@.len()
        == 6 && "password"@.len() == 8 && "raw_secret"@.len() == 10 && "chat"@.len() == 4
        && "messages"@.len() == 8 && "tool_input"@.len() == 10 && "tool_output"@.len() == 11
        && "token_usage"@.len() == 11 && "prompt"@.len() == 6 && "completion"@.len() == 10);
}

/// Every field that has no secret name is kept, under its name, with its value; only a long text is
/// cut. A document that is no object is kept as it is.
pub proof fn harmless_fields_are_kept(doc: JsonView, i: int)
    ensures
        doc matches JsonView::Obj(fields) ==> (0 <= i < fields.len() && !is_secret_key(fields[i].0) ==> (
        redacted(doc) matches JsonView::Obj(kept) && (exists|k: int|
            0 <= k < kept.len() && (#[trigger] kept[k]).0 == fields[i].0 && (match fields[i].1 {
                JsonView::Str(s) => kept[k].1 == JsonView::Str(shortened(s)),
                v => kept[k].1 == v,
            })))),
        doc matches JsonView::Obj(fields) ==> (redacted(doc) matches JsonView::Obj(kept) && kept.len()
            <= fields.len()),
        !(doc is Obj) ==> redacted(doc) == doc,
{
    if let JsonView::Obj(fields) = doc {
        let pred = |f: (Seq<char>, JsonView)| !is_secret_key(f.0);
        let cut = |f: (Seq<char>, JsonView)| (f.0, shortened_value(f.1));
        fields.lemma_filter_len(pred);
        if 0 <= i < fields.len() && !is_secret_key(fields[i].0) {
            fields.lemma_filter_contains(pred, i);
            let kept = kept_fields(fields);
            let k = kept.index_of(fields[i]);
            let out = redacted(doc)->Obj_0;
            assert(out[k] == cut(fields[i]));
            assert(out[k].0 == fields[i].0);
        }
    }
}

/// A reason is recorded trimmed, and cut after 128 characters. A blank one is recorded as a denial, and
/// one that names a secret as redacted.
pub proof fn reasons_are_recorded_short(raw: Seq<char>)
    ensures
        ({
            let t = text::trimmed(raw);
            let l = text::lowered(t);
            let secret = text::holds(l, "secret"@) || text::holds(l, "token"@) || text::holds(l, "bearer"@)
                || text::holds(l, "password"@);
            &&& t.len() == 0 ==> sanitized(raw) == "denied"@
            &&& t.len() > 0 && secret ==> sanitized(raw) == "redacted_deny"@
            &&& t.len() > 0 && !secret && t.len() <= 128 ==> sanitized(raw) == t
            &&& t.len() > 128 && !secret ==> sanitized(raw).len() == 128 && sanitized(raw).is_prefix_of(t)
        }),
        sanitized(raw).len() <= 128,
{
    reveal_strlit("denied");
    reveal_strlit("redacted_deny");
    assert("denied"@.len() == 6 && "redacted_deny"@.len() == 13);
}

/// A page has what is asked for, between 1 and 200, and 50 where nothing is.
pub proof fn pages_have_what_is_asked(limit: i64)
    ensures
        page_size(None) == 50,
        1 <= limit <= 200 ==> page_size(Some(limit)) == limit,
        limit < 1 ==> page_size(Some(limit)) == 1,
        limit > 200 ==> page_size(Some(limit)) == 200,
        scope_name(true) == "project"@,
        scope_name(false) == "self"@,
        OpsCategory::Access.name() == "access"@,
        OpsCategory::Planning.name() == "planning"@,
        OpsCategory::Delivery.name() == "delivery"@,
        version_item(None) == JsonView::Null,
        version_item(Some(limit)) == JsonView::Str(text::decimal_form(limit as int)),
{
}

/// A page names its scope, its records and its denials, and says that neither chat, nor what tools
/// were given and gave, nor billing is in it. An export says that it is one.
pub proof fn pages_are_told(
    project_wide: bool,
    records: Seq<JsonView>,
    denies: Seq<JsonView>,
    limit: i64,
    as_export: bool,
)
    ensures
        ({
            let d = page_doc(project_wide, records, denies, limit, as_export);
            &&& json::field(d, "protocol"@) == Some(JsonView::Str("awr-ops-audit-v1"@))
            &&& json::field(d, "scope"@) == Some(JsonView::Str(scope_name(project_wide)))
            &&& json::field(d, "records"@) == Some(JsonView::Arr(records))
            &&& json::field(d, "denies"@) == Some(JsonView::Arr(denies))
            &&& json::field(d, "limit"@) == Some(JsonView::Int(limit as int))
            &&& json::field(d, "chat_text_collected"@) == Some(JsonView::Bool(false))
            &&& json::field(d, "tool_io_collected"@) == Some(JsonView::Bool(false))
            &&& json::field(d, "token_billing_collected"@) == Some(JsonView::Bool(false))
            &&& as_export ==> json::field(d, "export"@) == Some(JsonView::Bool(true))
            &&& !as_export ==> json::field(d, "export"@) is None
        }),
{
    reveal_strlit("protocol");
    reveal_strlit("scope");
    reveal_strlit("records");
    reveal_strlit("denies");
    reveal_strlit("limit");
    reveal_strlit("chat_text_collected");
    reveal_strlit("tool_io_collected");
    reveal_strlit("token_billing_collected");
    reveal_strlit("non_repudiation");
    reveal_strlit("export");
    assert("protocol"@.len() == 8 && "scope"@.len() == 5 && "records"@.len() == 7 && "denies"@.len() == 6
        && "limit"@.len() == 5 && "chat_text_collected"@.len() == 19 && "tool_io_collected"@.len() == 17
        && "token_billing_collected"@.len() == 23 && "non_repudiation"@.len() == 15 && "export"@.len()
        == 6);
    assert("scope"@[0] == 's' && "limit"@[0] == 'l' && "denies"@[0] == 'd' && "export"@[0] == 'e');
    let f = page_doc(project_wide, records, denies, limit, as_export)->Obj_0;
    json::field_is_first(f, "protocol"@, 0);
    json::field_is_first(f, "scope"@, 1);
    json::field_is_first(f, "records"@, 2);
    json::field_is_first(f, "denies"@, 3);
    json::field_is_first(f, "limit"@, 4);
    json::field_is_first(f, "chat_text_collected"@, 5);
    json::field_is_first(f, "tool_io_collected"@, 6);
    json::field_is_first(f, "token_billing_collected"@, 7);
    if as_export {
        json::field_is_first(f, "export"@, 9);
    } else {
        json::field_is_absent(f, "export"@);
    }
}

/// A count names its scope and how many records and denials there are.
pub proof fn counts_are_told(project_wide: bool, records: i64, denies: i64)
    ensures
        json::field(count_doc(project_wide, records, denies), "protocol"@) == Some(JsonView::Str("awr-ops-audit-v1"@)),
        json::field(count_doc(project_wide, records, denies), "scope"@) == Some(JsonView::Str(scope_name(project_wide))),
        json::field(count_doc(project_wide, records, denies), "records"@) == Some(JsonView::Int(records as int)),
        json::field(count_doc(project_wide, records, denies), "denies"@) == Some(JsonView::Int(denies as int)),
        json::field(count_doc(project_wide, records, denies), "authorized"@) == Some(JsonView::Bool(true)),
        json::field(count_doc(project_wide, records, denies), "non_repudiation"@) == Some(JsonView::Str("not_claimed_against_db_owner"@)),
{
    reveal_strlit("protocol");
    reveal_strlit("scope");
    reveal_strlit("records");
    reveal_strlit("denies");
    reveal_strlit("authorized");
    reveal_strlit("non_repudiation");
    assert("protocol"@.len() == 8);
    assert("scope"@.len() == 5);
    assert("records"@.len() == 7);
    assert("denies"@.len() == 6);
    assert("authorized"@.len() == 10);
    assert("non_repudiation"@.len() == 15);
    let f = count_doc(project_wide, records, denies)->Obj_0;
    json::field_is_first(f, "protocol"@, 0);
    json::field_is_first(f, "scope"@, 1);
    json::field_is_first(f, "records"@, 2);
    json::field_is_first(f, "denies"@, 3);
    json::field_is_first(f, "authorized"@, 4);
    json::field_is_first(f, "non_repudiation"@, 5);
}

/// A record is told with each of its values under the name of the value.
pub proof fn records_are_told(row: OpsRecord)
    ensures
        json::field(record_doc(row), "id"@) == Some(JsonView::Str(row.id@)),
        json::field(record_doc(row), "category"@) == Some(JsonView::Str(row.category@)),
        json::field(record_doc(row), "action"@) == Some(JsonView::Str(row.action@)),
        json::field(record_doc(row), "result"@) == Some(JsonView::Str(row.result@)),
        json::field(record_doc(row), "person_id"@) == Some(json::opt_item(text::opt(row.person_id))),
        json::field(record_doc(row), "actor_id"@) == Some(JsonView::Str(row.actor_id@)),
        json::field(record_doc(row), "client_id"@) == Some(JsonView::Str(row.client_id@)),
        json::field(record_doc(row), "target_kind"@) == Some(JsonView::Str(row.target_kind@)),
        json::field(record_doc(row), "target_id"@) == Some(json::opt_item(text::opt(row.target_id))),
        json::field(record_doc(row), "work_id"@) == Some(json::opt_item(text::opt(row.work_id))),
        json::field(record_doc(row), "change_id"@) == Some(json::opt_item(text::opt(row.change_id))),
        json::field(record_doc(row), "request_id"@) == Some(json::opt_item(text::opt(row.request_id))),
        json::field(record_doc(row), "membership_version"@) == Some(version_item(row.membership_version)),
        json::field(record_doc(row), "authority_version"@) == Some(version_item(row.authority_version)),
        json::field(record_doc(row), "policy_version"@) == Some(match row.policy_version { Some(n) => JsonView::Int(n as int), None => JsonView::Null, }),
        json::field(record_doc(row), "source_version"@) == Some(json::opt_item(text::opt(row.source_version))),
        json::field(record_doc(row), "digest"@) == Some(json::opt_item(text::opt(row.digest))),
        json::field(record_doc(row), "summary"@) == Some(row.summary.model()),
        json::field(record_doc(row), "created_at_unix_ms"@) == Some(JsonView::Int(row.created_at_unix_ms as int)),
{
    reveal_strlit("id");
    reveal_strlit("category");
    reveal_strlit("action");
    reveal_strlit("result");
    reveal_strlit("person_id");
    reveal_strlit("actor_id");
    reveal_strlit("client_id");
    reveal_strlit("target_kind");
    reveal_strlit("target_id");
    reveal_strlit("work_id");
    reveal_strlit("change_id");
    reveal_strlit("request_id");
    reveal_strlit("membership_version");
    reveal_strlit("authority_version");
    reveal_strlit("policy_version");
    reveal_strlit("source_version");
    reveal_strlit("digest");
    reveal_strlit("summary");
    reveal_strlit("created_at_unix_ms");
    assert("id"@.len() == 2);
    assert("category"@.len() == 8);
    assert("action"@.len() == 6);
    assert("result"@.len() == 6);
    assert("person_id"@.len() == 9);
    assert("actor_id"@.len() == 8);
    assert("client_id"@.len() == 9);
    assert("target_kind"@.len() == 11);
    assert("target_id"@.len() == 9);
    assert("work_id"@.len() == 7);
    assert("change_id"@.len() == 9);
    assert("request_id"@.len() == 10);
    assert("membership_version"@.len() == 18);
    assert("authority_version"@.len() == 17);
    assert("policy_version"@.len() == 14);
    assert("source_version"@.len() == 14);
    assert("digest"@.len() == 6);
    assert("summary"@.len() == 7);
    assert("created_at_unix_ms"@.len() == 18);
    assert("category"@[0] == 'c');
    assert("actor_id"@[0] == 'a');
    assert("action"@[0] == 'a');
    assert("result"@[0] == 'r');
    assert("digest"@[0] == 'd');
    assert("person_id"@[0] == 'p');
    assert("client_id"@[0] == 'c');
    assert("target_id"@[0] == 't');
    assert("change_id"@[0] == 'c');
    assert("client_id"@[1] == 'l');
    assert("change_id"@[1] == 'h');
    assert("work_id"@[0] == 'w');
    assert("summary"@[0] == 's');
    assert("membership_version"@[0] == 'm');
    assert("created_at_unix_ms"@[0] == 'c');
    assert("policy_version"@[0] == 'p');
    assert("source_version"@[0] == 's');
    let f = record_doc(row)->Obj_0;
    json::field_is_first(f, "id"@, 0);
    json::field_is_first(f, "category"@, 1);
    json::field_is_first(f, "action"@, 2);
    json::field_is_first(f, "result"@, 3);
    json::field_is_first(f, "person_id"@, 4);
    json::field_is_first(f, "actor_id"@, 5);
    json::field_is_first(f, "client_id"@, 6);
    json::field_is_first(f, "target_kind"@, 7);
    json::field_is_first(f, "target_id"@, 8);
    json::field_is_first(f, "work_id"@, 9);
    json::field_is_first(f, "change_id"@, 10);
    json::field_is_first(f, "request_id"@, 11);
    json::field_is_first(f, "membership_version"@, 12);
    json::field_is_first(f, "authority_version"@, 13);
    json::field_is_first(f, "policy_version"@, 14);
    json::field_is_first(f, "source_version"@, 15);
    json::field_is_first(f, "digest"@, 16);
    json::field_is_first(f, "summary"@, 17);
    json::field_is_first(f, "created_at_unix_ms"@, 18);
}

/// A denial is told with each of its values under the name of the value, and as redacted.
pub proof fn denials_are_told(row: OpsDeny)
    ensures
        json::field(deny_doc(row), "id"@) == Some(JsonView::Str(row.id@)),
        json::field(deny_doc(row), "category"@) == Some(JsonView::Str(row.category@)),
        json::field(deny_doc(row), "action"@) == Some(JsonView::Str(row.action@)),
        json::field(deny_doc(row), "actor_id"@) == Some(json::opt_item(text::opt(row.actor_id))),
        json::field(deny_doc(row), "client_id"@) == Some(json::opt_item(text::opt(row.client_id))),
        json::field(deny_doc(row), "person_id"@) == Some(json::opt_item(text::opt(row.person_id))),
        json::field(deny_doc(row), "target_kind"@) == Some(json::opt_item(text::opt(row.target_kind))),
        json::field(deny_doc(row), "target_id"@) == Some(json::opt_item(text::opt(row.target_id))),
        json::field(deny_doc(row), "request_id"@) == Some(json::opt_item(text::opt(row.request_id))),
        json::field(deny_doc(row), "reason_code"@) == Some(JsonView::Str(row.reason_code@)),
        json::field(deny_doc(row), "created_at_unix_ms"@) == Some(JsonView::Int(row.created_at_unix_ms as int)),
        json::field(deny_doc(row), "redacted"@) == Some(JsonView::Bool(true)),
{
    reveal_strlit("id");
    reveal_strlit("category");
    reveal_strlit("action");
    reveal_strlit("actor_id");
    reveal_strlit("client_id");
    reveal_strlit("person_id");
    reveal_strlit("target_kind");
    reveal_strlit("target_id");
    reveal_strlit("request_id");
    reveal_strlit("reason_code");
    reveal_strlit("created_at_unix_ms");
    reveal_strlit("redacted");
    assert("id"@.len() == 2);
    assert("category"@.len() == 8);
    assert("action"@.len() == 6);
    assert("actor_id"@.len() == 8);
    assert("client_id"@.len() == 9);
    assert("person_id"@.len() == 9);
    assert("target_kind"@.len() == 11);
    assert("target_id"@.len() == 9);
    assert("request_id"@.len() == 10);
    assert("reason_code"@.len() == 11);
    assert("created_at_unix_ms"@.len() == 18);
    assert("redacted"@.len() == 8);
    assert("category"@[0] == 'c');
    assert("actor_id"@[0] == 'a');
    assert("redacted"@[0] == 'r');
    assert("client_id"@[0] == 'c');
    assert("person_id"@[0] == 'p');
    assert("target_id"@[0] == 't');
    assert("target_kind"@[0] == 't');
    assert("reason_code"@[0] == 'r');
    let f = deny_doc(row)->Obj_0;
    json::field_is_first(f, "id"@, 0);
    json::field_is_first(f, "category"@, 1);
    json::field_is_first(f, "action"@, 2);
    json::field_is_first(f, "actor_id"@, 3);
    json::field_is_first(f, "client_id"@, 4);
    json::field_is_first(f, "person_id"@, 5);
    json::field_is_first(f, "target_kind"@, 6);
    json::field_is_first(f, "target_id"@, 7);
    json::field_is_first(f, "request_id"@, 8);
    json::field_is_first(f, "reason_code"@, 9);
    json::field_is_first(f, "created_at_unix_ms"@, 10);
    json::field_is_first(f, "redacted"@, 11);
}

/// A name that holds none of the words is kept.
pub proof fn other_names_are_kept(key: Seq<char>)
    requires
        is_secret_key(key),
    ensures
        ({
            let k = text::lowered(key);
            text::holds(k, "secret"@) || text::holds(k, "secret_hash"@) || text::holds(k, "token"@)
                || text::holds(k, "bearer"@) || text::holds(k, "password"@) || text::holds(
                k,
                "raw_secret"@,
            ) || text::holds(k, "chat"@) || text::holds(k, "messages"@) || text::holds(k, "tool_input"@)
                || text::holds(k, "tool_output"@) || text::holds(k, "token_usage"@) || text::holds(
                k,
                "prompt"@,
            ) || text::holds(k, "completion"@)
        }),
{
}

/// A text is cut at a place that splits no character, and at the last such place: every place after it,
/// up to where the cut was asked for, splits one.
pub proof fn texts_are_cut_as_late_as_possible(bytes: Seq<u8>, n: int, i: int)
    requires
        0 <= n,
    ensures
        0 <= last_boundary(bytes, n) <= n,
        last_boundary(bytes, n) == 0 || is_char_boundary(bytes, last_boundary(bytes, n)),
        last_boundary(bytes, n) < i <= n ==> !is_char_boundary(bytes, i),
    decreases n,
{
    if n > 0 && !is_char_boundary(bytes, n) {
        texts_are_cut_as_late_as_possible(bytes, n - 1, i);
    }
}

} // verus!
