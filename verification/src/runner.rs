//! The reference runner: it writes what a delivery asks for and keeps a journal, so that a
//! delivery that comes again has no second effect.
use crate::digest;
use crate::execution;
use crate::execution::OutboxDelivery;
use crate::graph;
use crate::json;
use crate::json::JsonView;
use crate::lock_order;
use crate::order;
use crate::text;
use vstd::prelude::*;
use vstd::utf8::*;

verus! {

broadcast use {vstd::string::group_string_axioms, vstd::utf8::group_utf8_lib};

/// Where a runner stops short.
#[derive(Clone, Copy, Debug, PartialEq, Eq, Structural)]
pub enum CrashPoint {
    Never,
    BeforeJournal,
    AfterJournalBeforeEffect,
    AfterEffectBeforeReport,
}

/// What a runner reports.
#[derive(Clone, Debug, PartialEq, Eq)]
pub struct RunnerOutcome {
    pub execution_id: String,
    pub effect_key: String,
    pub state: String,
    pub unknown: bool,
    pub started: bool,
    pub observed_paths: Vec<String>,
    pub output_digest: Option<String>,
    pub environment_digest: String,
    pub scope_violation: bool,
    pub exactly_once_supported: bool,
}

/// The model of what a runner reports.
pub struct RunView {
    pub execution_id: Seq<char>,
    pub effect_key: Seq<char>,
    pub state: Seq<char>,
    pub unknown: bool,
    pub started: bool,
    pub observed_paths: Seq<Seq<char>>,
    pub output_digest: Option<Seq<char>>,
    pub environment_digest: Seq<char>,
    pub scope_violation: bool,
    pub exactly_once_supported: bool,
}

impl View for RunnerOutcome {
    type V = RunView;

    open spec fn view(&self) -> RunView {
        RunView {
            execution_id: self.execution_id@,
            effect_key: self.effect_key@,
            state: self.state@,
            unknown: self.unknown,
            started: self.started,
            observed_paths: text::texts(self.observed_paths@),
            output_digest: text::opt(self.output_digest),
            environment_digest: self.environment_digest@,
            scope_violation: self.scope_violation,
            exactly_once_supported: self.exactly_once_supported,
        }
    }
}

/// A file to write below the worktree.
#[derive(Clone, Debug)]
pub struct FileWrite {
    pub path: String,
    pub content: String,
}

/// A file as it was found after writing; no bytes where it could not be read.
#[derive(Clone, Debug)]
pub struct FileRead {
    pub path: String,
    pub bytes: Option<Vec<u8>>,
}

/// The digest of the place where a runner works.
pub open spec fn place_digest(worktree: Seq<char>) -> Seq<char> {
    digest::hex_form(digest::sha256(encode_utf8(worktree)))
}

/// The digest of the place where a runner works.
pub fn env_digest(worktree: &str) -> (r: String)
    ensures
        r@ == place_digest(worktree@),
{
    digest::sha256_hex(worktree.as_bytes())
}

/// A report of a delivery that has had no effect yet.
pub open spec fn fresh(d: OutboxDelivery, worktree: Seq<char>, state: Seq<char>) -> RunView {
    RunView {
        execution_id: d.execution_id@,
        effect_key: d.effect_key@,
        state,
        unknown: false,
        started: false,
        observed_paths: Seq::empty(),
        output_digest: None,
        environment_digest: place_digest(worktree),
        scope_violation: false,
        exactly_once_supported: d.fencing_class@ != "uncontrolled"@,
    }
}

fn fresh_outcome(d: &OutboxDelivery, worktree: &str, state: &str) -> (r: RunnerOutcome)
    ensures
        r@ == fresh(*d, worktree@, state@),
{
    let r = RunnerOutcome {
        execution_id: d.execution_id.as_str().to_owned(),
        effect_key: d.effect_key.as_str().to_owned(),
        state: state.to_owned(),
        unknown: false,
        started: false,
        observed_paths: Vec::new(),
        output_digest: None,
        environment_digest: env_digest(worktree),
        scope_violation: false,
        exactly_once_supported: !text::same(d.fencing_class.as_str(), "uncontrolled"),
    };
    assert(r@.observed_paths =~= Seq::empty());
    r
}

/// What a runner does when a delivery comes.
#[derive(Debug)]
pub enum RunnerStep {
    /// The delivery is reported as it is; nothing is written.
    Done(RunnerOutcome),
    /// The report is put into the journal, and is final.
    Stop(RunnerOutcome),
    /// The report is put into the journal, and the work is begun.
    Begin(RunnerOutcome),
}

/// The model of what a runner does.
pub enum StepView {
    Done(RunView),
    Stop(RunView),
    Begin(RunView),
}

impl View for RunnerStep {
    type V = StepView;

    open spec fn view(&self) -> StepView {
        match self {
            RunnerStep::Done(o) => StepView::Done(o@),
            RunnerStep::Stop(o) => StepView::Stop(o@),
            RunnerStep::Begin(o) => StepView::Begin(o@),
        }
    }
}

/// What a runner does when a delivery comes: one that stands in the journal is reported as it
/// stands there. A runner that stops before the journal has done nothing; one that stops after it
/// leaves an unknown outcome.
pub open spec fn taken(
    d: OutboxDelivery,
    worktree: Seq<char>,
    crash: CrashPoint,
    existing: Option<RunView>,
) -> StepView {
    match existing {
        Some(o) => StepView::Done(o),
        None => if crash is BeforeJournal {
            StepView::Done(fresh(d, worktree, "prepared"@))
        } else if crash is AfterJournalBeforeEffect {
            StepView::Stop(RunView { unknown: true, ..fresh(d, worktree, "unknown"@) })
        } else {
            StepView::Begin(fresh(d, worktree, "accepted"@))
        },
    }
}

/// The files that a delivery asks for: every entry of its writes that names a path.
pub open spec fn asked_from(items: Seq<JsonView>) -> Seq<(Seq<char>, Seq<char>)>
    decreases items.len(),
{
    if items.len() == 0 {
        Seq::empty()
    } else {
        let before = asked_from(items.drop_last());
        let path = json::text_or_empty(items.last(), "path"@);
        let content = json::text_or_empty(items.last(), "content"@);
        if path.len() == 0 {
            before
        } else {
            before.push((path, content))
        }
    }
}

/// The files that a delivery asks for; none where it has no list of writes.
pub open spec fn asked(d: OutboxDelivery) -> Seq<(Seq<char>, Seq<char>)> {
    match json::list_field(d.payload.model(), "writes"@) {
        Some(items) => asked_from(items),
        None => Seq::empty(),
    }
}

/// The model of a list of files to write.
pub open spec fn files(list: Seq<FileWrite>) -> Seq<(Seq<char>, Seq<char>)> {
    list.map_values(|f: FileWrite| (f.path@, f.content@))
}

/// The paths of files to write, as they are reported: with slashes only.
pub open spec fn observed(list: Seq<(Seq<char>, Seq<char>)>) -> Seq<Seq<char>> {
    list.map_values(|f: (Seq<char>, Seq<char>)| graph::with_slashes(f.0))
}

/// The paths of files to write, as they are reported.
pub fn observed_paths(writes: &Vec<FileWrite>) -> (r: Vec<String>)
    ensures
        text::texts(r@) == observed(files(writes@)),
{
    let mut out: Vec<String> = Vec::new();
    let mut i: usize = 0;
    while i < writes.len()
        invariant
            i <= writes.len(),
            out.len() == i,
            forall|j: int| 0 <= j < i ==> #[trigger] out@[j]@ == graph::with_slashes(
                writes@[j].path@,
            ),
        decreases writes.len() - i,
    {
        out.push(graph::slash_path(writes[i].path.as_str()));
        i = i + 1;
    }
    assert(text::texts(out@) =~= observed(files(writes@)));
    out
}

/// The paths stand in ascending order; equal paths stand side by side.
pub open spec fn is_sorted(paths: Seq<Seq<char>>) -> bool {
    forall|i: int, j: int|
        0 <= i < j < paths.len() ==> order::text_le(#[trigger] paths[i], #[trigger] paths[j])
}

/// The same paths, in order.
pub fn ordered_paths(paths: &Vec<String>) -> (r: Vec<String>)
    ensures
        is_sorted(text::texts(r@)),
        text::texts(r@).to_multiset() == text::texts(paths@).to_multiset(),
{
    let mut out = text::copy_list(paths.as_slice());
    lock_order::sort_work_ids(out.as_mut_slice());
    out
}

/// What is digested of the files that were written: for each its path and then its bytes.
pub open spec fn file_bytes(list: Seq<FileRead>) -> Seq<u8>
    decreases list.len(),
{
    if list.len() == 0 {
        Seq::empty()
    } else {
        let f = list.last();
        file_bytes(list.drop_last()) + encode_utf8(f.path@) + match f.bytes {
            Some(b) => b@,
            None => Seq::empty(),
        }
    }
}

/// The digest of the files that were written.
pub open spec fn files_digest(list: Seq<FileRead>) -> Seq<char> {
    digest::hex_form(digest::sha256(file_bytes(list)))
}

fn extend(out: &mut Vec<u8>, more: &[u8])
    ensures
        final(out)@ == old(out)@ + more@,
{
    let mut i: usize = 0;
    let ghost start = out@;
    assert(out@ =~= start + more@.take(0));
    while i < more.len()
        invariant
            i <= more.len(),
            out@ == start + more@.take(i as int),
        decreases more.len() - i,
    {
        out.push(more[i]);
        i = i + 1;
        assert(out@ =~= start + more@.take(i as int));
    }
    assert(more@.take(i as int) =~= more@);
}

/// The digest of the files that were written.
pub fn output_digest(list: &Vec<FileRead>) -> (r: String)
    ensures
        r@ == files_digest(list@),
{
    let mut out: Vec<u8> = Vec::new();
    let mut i: usize = 0;
    while i < list.len()
        invariant
            i <= list.len(),
            out@ == file_bytes(list@.take(i as int)),
        decreases list.len() - i,
    {
        let ghost prefix = out@;
        let ghost next = list@.take(i + 1);
        assert(next.drop_last() =~= list@.take(i as int));
        extend(&mut out, list[i].path.as_str().as_bytes());
        let ghost with_path = out@;
        match &list[i].bytes {
            Some(b) => {
                extend(&mut out, b.as_slice());
            },
            None => {
                assert(with_path =~= with_path + Seq::<u8>::empty());
            },
        }
        i = i + 1;
    }
    assert(list@.take(i as int) =~= list@);
    digest::sha256_hex(out.as_slice())
}

/// What a runner reports of the files that it has written.
pub open spec fn finished(
    begun: RunView,
    declared: JsonView,
    crash: CrashPoint,
    paths: Seq<Seq<char>>,
    output: Seq<char>,
) -> RunView {
    let violation = execution::exceeds_scope(declared, paths);
    RunView {
        state: if crash is AfterEffectBeforeReport {
            "unknown"@
        } else if violation {
            "failed"@
        } else {
            "succeeded"@
        },
        unknown: begun.unknown || crash is AfterEffectBeforeReport,
        started: true,
        observed_paths: paths,
        output_digest: Some(output),
        scope_violation: violation,
        ..begun
    }
}

/// The rules of a runner that works below one directory.
pub struct ReferenceRunner {
    pub root: String,
}

impl ReferenceRunner {
    pub fn new(root: &str) -> (r: ReferenceRunner)
        ensures
            r.root@ == root@,
    {
        ReferenceRunner { root: root.to_owned() }
    }

    /// What a runner does when a delivery comes.
    pub fn handle_delivery(
        &self,
        delivery: &OutboxDelivery,
        crash: CrashPoint,
        worktree: &str,
        existing: Option<RunnerOutcome>,
    ) -> (r: RunnerStep)
        ensures
            r@ == taken(
                *delivery,
                worktree@,
                crash,
                match existing {
                    Some(o) => Some(o@),
                    None => None,
                },
            ),
    {
        if let Some(outcome) = existing {
            return RunnerStep::Done(outcome);
        }
        if crash == CrashPoint::BeforeJournal {
            return RunnerStep::Done(fresh_outcome(delivery, worktree, "prepared"));
        }
        if crash == CrashPoint::AfterJournalBeforeEffect {
            let mut outcome = fresh_outcome(delivery, worktree, "unknown");
            outcome.unknown = true;
            return RunnerStep::Stop(outcome);
        }
        RunnerStep::Begin(fresh_outcome(delivery, worktree, "accepted"))
    }

    /// The files that a delivery asks for.
    pub fn writes(&self, delivery: &OutboxDelivery) -> (r: Vec<FileWrite>)
        ensures
            files(r@) == asked(*delivery),
    {
        let mut out: Vec<FileWrite> = Vec::new();
        assert(files(out@) =~= Seq::empty());
        let items = match delivery.payload.get_list("writes") {
            Some(items) => items,
            None => {
                return out;
            },
        };
        let ghost all = json::models(items@);
        let mut i: usize = 0;
        assert(all.take(0) =~= Seq::empty());
        while i < items.len()
            invariant
                i <= items.len(),
                all == json::models(items@),
                files(out@) == asked_from(all.take(i as int)),
            decreases items.len() - i,
        {
            let path = items[i].text_or_empty("path");
            let content = items[i].text_or_empty("content");
            proof {
                assert(all.take(i + 1).drop_last() =~= all.take(i as int));
                assert(all.take(i + 1).last() == items@[i as int].model());
            }
            let ghost before = out@;
            if !path.is_empty() {
                out.push(FileWrite { path: path.to_owned(), content: content.to_owned() });
                assert(files(out@) =~= files(before).push((path@, content@)));
            }
            i = i + 1;
        }
        assert(all.take(i as int) =~= all);
        out
    }

    /// What a runner reports of the files that it has written.
    pub fn finish(
        &self,
        begun: RunnerOutcome,
        delivery: &OutboxDelivery,
        crash: CrashPoint,
        paths: Vec<String>,
        output: String,
    ) -> (r: RunnerOutcome)
        ensures
            r@ == finished(
                begun@,
                delivery.declared_scope.model(),
                crash,
                text::texts(paths@),
                output@,
            ),
    {
        let violation = execution::scope_exceeded(&delivery.declared_scope, paths.as_slice());
        let mut outcome = begun;
        outcome.started = true;
        outcome.observed_paths = paths;
        outcome.output_digest = Some(output);
        outcome.scope_violation = violation;
        if crash == CrashPoint::AfterEffectBeforeReport {
            outcome.state = "unknown".to_owned();
            outcome.unknown = true;
        } else if violation {
            outcome.state = "failed".to_owned();
        } else {
            outcome.state = "succeeded".to_owned();
        }
        outcome
    }

    /// The name under which a report stands in the journal.
    pub fn journal_name(&self, execution_id: &str) -> (r: String)
        ensures
            r@ == execution_id@ + ".json"@,
    {
        text::plus(execution_id.to_owned(), ".json")
    }
}

/// A delivery that stands in the journal has no second effect: it is reported as it stands there,
/// wherever the runner stops.
pub proof fn deliveries_take_effect_once(
    d: OutboxDelivery,
    worktree: Seq<char>,
    crash: CrashPoint,
    journal: RunView,
)
    ensures
        taken(d, worktree, crash, Some(journal)) == StepView::Done(journal),
{
}

/// A runner that stops after it has kept its journal leaves an outcome that is unknown, and says
/// whether anything was written.
pub proof fn crashes_leave_unknown_outcomes(
    d: OutboxDelivery,
    worktree: Seq<char>,
    paths: Seq<Seq<char>>,
    output: Seq<char>,
)
    ensures
        taken(d, worktree, CrashPoint::AfterJournalBeforeEffect, None) matches StepView::Stop(o)
            && o.unknown && o.state == "unknown"@ && !o.started,
        ({
            let o = finished(
                fresh(d, worktree, "accepted"@),
                d.declared_scope.model(),
                CrashPoint::AfterEffectBeforeReport,
                paths,
                output,
            );
            o.unknown && o.state == "unknown"@ && o.started
        }),
{
}

/// A runner reports a success exactly where it did not stop and kept to the declared scope.
pub proof fn successes_keep_to_the_scope(
    begun: RunView,
    declared: JsonView,
    crash: CrashPoint,
    paths: Seq<Seq<char>>,
    output: Seq<char>,
)
    ensures
        finished(begun, declared, crash, paths, output).state == "succeeded"@ <==> !(
        crash is AfterEffectBeforeReport) && !execution::exceeds_scope(declared, paths),
{
    reveal_strlit("unknown");
    reveal_strlit("failed");
    reveal_strlit("succeeded");
    assert("unknown"@.len() == 7);
    assert("failed"@.len() == 6);
    assert("succeeded"@.len() == 9);
}

/// A delivery that declares no scope cannot write anything without failing.
pub proof fn undeclared_writes_fail(paths: Seq<Seq<char>>)
    ensures
        execution::exceeds_scope(JsonView::Arr(Seq::empty()), paths) == (paths.len() > 0),
{
    if paths.len() > 0 {
        assert(!execution::in_scope(JsonView::Arr(Seq::empty()), paths[0]));
    }
}

/// What a runner does with a delivery. One that the journal knows is reported as the journal has it,
/// whatever it asks for. A new one is begun as accepted; before that nothing is kept of it, and a
/// runner that stops between journal and effect leaves its outcome unknown.
pub proof fn deliveries_are_taken_once(
    d: OutboxDelivery,
    worktree: Seq<char>,
    crash: CrashPoint,
    known: RunView,
)
    ensures
        taken(d, worktree, crash, Some(known)) == StepView::Done(known),
        crash is BeforeJournal ==> (taken(d, worktree, crash, None) matches StepView::Done(o) && o.state
            == "prepared"@ && !o.unknown && !o.started),
        crash is AfterJournalBeforeEffect ==> (taken(d, worktree, crash, None) matches StepView::Stop(o)
            && o.state == "unknown"@ && o.unknown && !o.started),
        crash is Never || crash is AfterEffectBeforeReport ==> (taken(d, worktree, crash, None) matches
            StepView::Begin(o) && o.state == "accepted"@ && !o.unknown && !o.started && o.execution_id
            == d.execution_id@ && o.effect_key == d.effect_key@ && o.output_digest is None
            && !o.scope_violation && o.observed_paths.len() == 0 && (o.exactly_once_supported
            <==> d.fencing_class@ != "uncontrolled"@) && o.environment_digest == digest::hex_form(
            digest::sha256(encode_utf8(worktree)),
        )),
{
}

/// What a runner reports after it has written: unknown where it stopped before it could report, failed
/// where a path lies outside the declared scope, and else a success. The paths and the digest are those
/// of what was written, and what was begun stays as it was.
pub proof fn runs_are_reported_as_they_went(
    begun: RunView,
    declared: JsonView,
    crash: CrashPoint,
    paths: Seq<Seq<char>>,
    output: Seq<char>,
)
    ensures
        ({
            let o = finished(begun, declared, crash, paths, output);
            let outside = exists|i: int|
                0 <= i < paths.len() && !execution::in_scope(declared, #[trigger] paths[i]);
            &&& crash is AfterEffectBeforeReport ==> o.state == "unknown"@ && o.unknown
            &&& !(crash is AfterEffectBeforeReport) && outside ==> o.state == "failed"@ && o.unknown
                == begun.unknown
            &&& !(crash is AfterEffectBeforeReport) && !outside ==> o.state == "succeeded"@ && o.unknown
                == begun.unknown
            &&& o.scope_violation <==> outside
            &&& o.started
            &&& o.observed_paths == paths
            &&& o.output_digest == Some(output)
            &&& o.execution_id == begun.execution_id
            &&& o.effect_key == begun.effect_key
            &&& o.environment_digest == begun.environment_digest
            &&& o.exactly_once_supported == begun.exactly_once_supported
        }),
{
}

/// Every entry of the writes that names a path is written, in order, and no other.
pub proof fn every_named_file_is_written(items: Seq<JsonView>, item: JsonView)
    ensures
        json::text_or_empty(item, "path"@).len() > 0 ==> asked_from(items.push(item)) == asked_from(
            items,
        ).push((json::text_or_empty(item, "path"@), json::text_or_empty(item, "content"@))),
        json::text_or_empty(item, "path"@).len() == 0 ==> asked_from(items.push(item)) == asked_from(
            items,
        ),
        asked_from(Seq::empty()).len() == 0,
{
    assert(items.push(item).drop_last() =~= items);
}

/// What is asked for stands in the writes of the payload.
pub proof fn writes_come_from_the_payload(d: OutboxDelivery, items: Seq<JsonView>)
    ensures
        json::list_field(d.payload.model(), "writes"@) == Some(items) ==> asked(d) == asked_from(items),
        json::list_field(d.payload.model(), "writes"@) is None ==> asked(d).len() == 0,
{
}

/// Paths are reported in the order in which they were written, with slashes only.
pub proof fn paths_are_reported_with_slashes(list: Seq<(Seq<char>, Seq<char>)>, i: int, k: int)
    requires
        0 <= i < list.len(),
        0 <= k < list[i].0.len(),
    ensures
        observed(list).len() == list.len(),
        observed(list)[i].len() == list[i].0.len(),
        list[i].0[k] == '\\' ==> observed(list)[i][k] == '/',
        list[i].0[k] != '\\' ==> observed(list)[i][k] == list[i].0[k],
{
}

/// The digest of what was written goes over each path and then its bytes, file by file.
pub proof fn digests_go_over_paths_and_bytes(list: Seq<FileRead>, f: FileRead)
    ensures
        f.bytes is Some ==> file_bytes(list.push(f)) == file_bytes(list) + encode_utf8(f.path@)
            + f.bytes->Some_0@,
        f.bytes is None ==> file_bytes(list.push(f)) == file_bytes(list) + encode_utf8(f.path@),
        file_bytes(Seq::empty()).len() == 0,
        files_digest(list) == digest::hex_form(digest::sha256(file_bytes(list))),
{
    assert(list.push(f).drop_last() =~= list);
    if f.bytes is None {
        assert(file_bytes(list.push(f)) =~= file_bytes(list) + encode_utf8(f.path@));
    }
}

/// Paths are in order exactly where no path comes after one that is greater.
pub proof fn ordered_paths_ascend(paths: Seq<Seq<char>>, i: int, j: int)
    requires
        0 <= i < j < paths.len(),
    ensures
        is_sorted(paths) ==> paths[i] == paths[j] || order::text_lt(paths[i], paths[j]),
        order::text_lt(paths[j], paths[i]) ==> !is_sorted(paths),
{
    if order::text_lt(paths[j], paths[i]) {
        order::text_lt_asymmetric(paths[j], paths[i]);
        order::text_lt_irreflexive(paths[i]);
    }
}

} // verus!
