//! The desktop application's remembered state: its settings and the list
//! of recent jobs, newest first.
use vstd::prelude::*;

use crate::clock::{unix_millis_now, unix_seconds_now};
use crate::models::{
    copy_opt_string, default_settings, opt_view, AppSettings, AppSettingsView,
    CompressionResult, CompressionSource, PartialAppSettings, RecentJobRecord,
    RecentJobRecordView, RecentJobSource,
};
use crate::text::{decimal_string, owned, spec_decimal};

verus! {

/// The views of a list of recent jobs.
pub open spec fn jobs_view(jobs: Seq<RecentJobRecord>) -> Seq<RecentJobRecordView> {
    jobs.map_values(|j: RecentJobRecord| j@)
}

/// The settings and the recent jobs, newest first.
#[derive(Debug)]
pub struct PersistentState {
    pub settings: AppSettings,
    pub recent_jobs: Vec<RecentJobRecord>,
}

/// The view of a [`PersistentState`].
pub struct PersistentStateView {
    pub settings: AppSettingsView,
    pub recent_jobs: Seq<RecentJobRecordView>,
}

impl View for PersistentState {
    type V = PersistentStateView;

    open spec fn view(&self) -> PersistentStateView {
        PersistentStateView {
            settings: self.settings@,
            recent_jobs: jobs_view(self.recent_jobs@),
        }
    }
}

impl Default for PersistentState {
    /// The state of a fresh installation, also what an unreadable store
    /// falls back to: default settings and no recent jobs.
    fn default() -> (s: Self)
        ensures
            s@.settings == default_settings(),
            s@.recent_jobs.len() == 0,
    {
        PersistentState { settings: AppSettings::default(), recent_jobs: Vec::new() }
    }
}

/// The view of a [`PartialAppSettings`].
pub struct PartialAppSettingsView {
    pub output_suffix: Option<Seq<char>>,
    pub keep_recent_jobs: Option<usize>,
    pub reveal_output_on_success: Option<bool>,
    pub open_output_on_success: Option<bool>,
}

impl View for PartialAppSettings {
    type V = PartialAppSettingsView;

    open spec fn view(&self) -> PartialAppSettingsView {
        PartialAppSettingsView {
            output_suffix: opt_view(self.output_suffix),
            keep_recent_jobs: self.keep_recent_jobs,
            reveal_output_on_success: self.reveal_output_on_success,
            open_output_on_success: self.open_output_on_success,
        }
    }
}

/// `value` when it is given, else `current`.
pub open spec fn given_or<T>(value: Option<T>, current: T) -> T {
    match value {
        Some(v) => v,
        None => current,
    }
}

/// The settings after a partial update: each given field replaces the
/// current one.
pub open spec fn merge_settings(s: AppSettingsView, p: PartialAppSettingsView) -> AppSettingsView {
    AppSettingsView {
        output_suffix: given_or(p.output_suffix, s.output_suffix),
        keep_recent_jobs: given_or(p.keep_recent_jobs, s.keep_recent_jobs),
        reveal_output_on_success: given_or(p.reveal_output_on_success, s.reveal_output_on_success),
        open_output_on_success: given_or(p.open_output_on_success, s.open_output_on_success),
    }
}

/// The first `n` elements of `s`, all of them when it has fewer.
pub open spec fn truncate_to<T>(s: Seq<T>, n: nat) -> Seq<T> {
    if s.len() <= n {
        s
    } else {
        s.take(n as int)
    }
}

/// The recent jobs after a partial update: cut to the new limit when one
/// is given.
pub open spec fn jobs_after_update<T>(jobs: Seq<T>, p: PartialAppSettingsView) -> Seq<T> {
    match p.keep_recent_jobs {
        Some(k) => truncate_to(jobs, k as nat),
        None => jobs,
    }
}

/// How many recent jobs a push keeps: the configured number, at least one.
pub open spec fn push_capacity(keep: usize) -> nat {
    if keep == 0 {
        1
    } else {
        keep as nat
    }
}

/// The recent jobs after `job` is pushed: it comes first, followed by the
/// earlier ones, and the oldest are dropped beyond `cap`.
pub open spec fn pushed<T>(jobs: Seq<T>, job: T, cap: nat) -> Seq<T> {
    truncate_to(seq![job] + jobs, cap)
}

/// The application's remembered state and the file it is kept in.
#[derive(Debug)]
pub struct PersistentStateHandle {
    path: String,
    state: PersistentState,
}

/// The view of a [`PersistentStateHandle`].
pub struct PersistentStateHandleView {
    pub path: Seq<char>,
    pub settings: AppSettingsView,
    pub recent_jobs: Seq<RecentJobRecordView>,
}

impl View for PersistentStateHandle {
    type V = PersistentStateHandleView;

    closed spec fn view(&self) -> PersistentStateHandleView {
        PersistentStateHandleView {
            path: self.path@,
            settings: self.state.settings@,
            recent_jobs: jobs_view(self.state.recent_jobs@),
        }
    }
}

/// A change made to the remembered state through a handle.
pub enum StateOp {
    /// `push_recent_job` with a job of this view.
    Push(RecentJobRecordView),
    /// `clear_recent_jobs`.
    Clear,
    /// `update_settings` with a partial update of this view.
    Update(PartialAppSettingsView),
}

/// The state after one change.
pub open spec fn apply_op(v: PersistentStateHandleView, op: StateOp) -> PersistentStateHandleView {
    match op {
        StateOp::Push(job) => PersistentStateHandleView {
            path: v.path,
            settings: v.settings,
            recent_jobs: pushed(v.recent_jobs, job, push_capacity(v.settings.keep_recent_jobs)),
        },
        StateOp::Clear => PersistentStateHandleView {
            path: v.path,
            settings: v.settings,
            recent_jobs: Seq::empty(),
        },
        StateOp::Update(p) => PersistentStateHandleView {
            path: v.path,
            settings: merge_settings(v.settings, p),
            recent_jobs: jobs_after_update(v.recent_jobs, p),
        },
    }
}

/// The state after a sequence of changes, made in order.
pub open spec fn apply_ops(v: PersistentStateHandleView, ops: Seq<StateOp>) -> PersistentStateHandleView
    decreases ops.len(),
{
    if ops.len() == 0 {
        v
    } else {
        apply_op(apply_ops(v, ops.drop_last()), ops.last())
    }
}

/// The pushes of the given jobs, in order.
pub open spec fn pushes(jobs: Seq<RecentJobRecordView>) -> Seq<StateOp> {
    jobs.map_values(|j: RecentJobRecordView| StateOp::Push(j))
}

impl PersistentStateHandle {
    /// A handle on `state`, to be kept in the file at `path`.
    pub fn new(path: String, state: PersistentState) -> (h: Self)
        ensures
            h@.path == path@,
            h@.settings == state@.settings,
            h@.recent_jobs == state@.recent_jobs,
    {
        PersistentStateHandle { path, state }
    }

    /// The file the state is kept in.
    pub fn path(&self) -> (p: &str)
        ensures
            p@ == self@.path,
    {
        self.path.as_str()
    }

    /// The state as it stands, to be written to its file.
    pub fn state(&self) -> (s: &PersistentState)
        ensures
            s@.settings == self@.settings,
            s@.recent_jobs == self@.recent_jobs,
    {
        &self.state
    }

    /// A copy of the current settings.
    pub fn settings(&self) -> (s: AppSettings)
        ensures
            s@ == self@.settings,
    {
        self.state.settings.clone()
    }

    /// A copy of the recent jobs, newest first.
    pub fn recent_jobs(&self) -> (jobs: Vec<RecentJobRecord>)
        ensures
            jobs_view(jobs@) == self@.recent_jobs,
    {
        let jobs = self.state.recent_jobs.clone();
        assert(jobs_view(jobs@) =~= jobs_view(self.state.recent_jobs@));
        jobs
    }

    /// Forgets every recent job; the settings stay.
    pub fn clear_recent_jobs(&mut self)
        ensures
            final(self)@.path == old(self)@.path,
            final(self)@.settings == old(self)@.settings,
            final(self)@.recent_jobs.len() == 0,
            final(self)@ == apply_op(old(self)@, StateOp::Clear),
    {
        self.state.recent_jobs.clear();
        assert(self@.recent_jobs =~= Seq::<RecentJobRecordView>::empty());
    }

    /// Applies a partial update to the settings and returns the new
    /// settings. A new limit on recent jobs drops the oldest beyond it.
    pub fn update_settings(&mut self, partial: PartialAppSettings) -> (s: AppSettings)
        ensures
            final(self)@.path == old(self)@.path,
            final(self)@.settings == merge_settings(old(self)@.settings, partial@),
            final(self)@.recent_jobs == jobs_after_update(old(self)@.recent_jobs, partial@),
            s@ == final(self)@.settings,
            final(self)@ == apply_op(old(self)@, StateOp::Update(partial@)),
            final(self)@.settings.output_suffix == (match partial.output_suffix {
                Some(v) => v@,
                None => old(self)@.settings.output_suffix,
            }),
            final(self)@.settings.keep_recent_jobs == (match partial.keep_recent_jobs {
                Some(v) => v,
                None => old(self)@.settings.keep_recent_jobs,
            }),
            final(self)@.settings.reveal_output_on_success == (match partial.reveal_output_on_success {
                Some(v) => v,
                None => old(self)@.settings.reveal_output_on_success,
            }),
            final(self)@.settings.open_output_on_success == (match partial.open_output_on_success {
                Some(v) => v,
                None => old(self)@.settings.open_output_on_success,
            }),
            partial.keep_recent_jobs matches Some(k) ==> final(self)@.recent_jobs.len() == (if old(
                self,
            )@.recent_jobs.len() <= k {
                old(self)@.recent_jobs.len() as int
            } else {
                k as int
            }),
            partial.keep_recent_jobs is None ==> final(self)@.recent_jobs == old(self)@.recent_jobs,
            forall|i: int|
                0 <= i < final(self)@.recent_jobs.len() ==> #[trigger] final(self)@.recent_jobs[i]
                    == old(self)@.recent_jobs[i],
    {
        let ghost p = partial@;
        let ghost old_jobs = self.state.recent_jobs@;
        if let Some(output_suffix) = partial.output_suffix {
            self.state.settings.output_suffix = output_suffix;
        }
        if let Some(keep_recent_jobs) = partial.keep_recent_jobs {
            self.state.settings.keep_recent_jobs = keep_recent_jobs;
            self.state.recent_jobs.truncate(keep_recent_jobs);
        }
        if let Some(reveal) = partial.reveal_output_on_success {
            self.state.settings.reveal_output_on_success = reveal;
        }
        if let Some(open) = partial.open_output_on_success {
            self.state.settings.open_output_on_success = open;
        }
        proof {
            assert(self.state.recent_jobs@ == jobs_after_update(old_jobs, p));
            assert(jobs_view(self.state.recent_jobs@) =~= jobs_after_update(
                jobs_view(old_jobs),
                p,
            ));
        }
        self.state.settings.clone()
    }

    /// Remembers `job` as the newest recent job, keeping at most the
    /// configured number of jobs (at least one) and dropping the oldest.
    pub fn push_recent_job(&mut self, job: RecentJobRecord)
        ensures
            final(self)@.path == old(self)@.path,
            final(self)@.settings == old(self)@.settings,
            final(self)@.recent_jobs == pushed(
                old(self)@.recent_jobs,
                job@,
                push_capacity(old(self)@.settings.keep_recent_jobs),
            ),
            final(self)@ == apply_op(old(self)@, StateOp::Push(job@)),
            final(self)@.recent_jobs.len() == ({
                let cap: int = if old(self)@.settings.keep_recent_jobs == 0 {
                    1
                } else {
                    old(self)@.settings.keep_recent_jobs as int
                };
                if old(self)@.recent_jobs.len() + 1 <= cap {
                    old(self)@.recent_jobs.len() + 1int
                } else {
                    cap
                }
            }),
            final(self)@.recent_jobs[0] == job@,
            forall|i: int|
                0 < i < final(self)@.recent_jobs.len() ==> #[trigger] final(self)@.recent_jobs[i]
                    == old(self)@.recent_jobs[i - 1],
    {
        let ghost old_jobs = self.state.recent_jobs@;
        let ghost j = job;
        let keep = if self.state.settings.keep_recent_jobs == 0 {
            1
        } else {
            self.state.settings.keep_recent_jobs
        };
        self.state.recent_jobs.insert(0, job);
        self.state.recent_jobs.truncate(keep);
        proof {
            assert(old_jobs.insert(0, j) =~= seq![j] + old_jobs);
            assert(self.state.recent_jobs@ == pushed(old_jobs, j, keep as nat));
            assert(jobs_view(self.state.recent_jobs@) =~= pushed(
                jobs_view(old_jobs),
                j@,
                keep as nat,
            ));
        }
    }
}

/// Where a request's job is remembered as coming from; requests from the
/// command line are not remembered.
pub open spec fn recent_source(source: CompressionSource) -> Option<RecentJobSource> {
    match source {
        CompressionSource::Desktop => Some(RecentJobSource::Desktop),
        CompressionSource::FinderAction => Some(RecentJobSource::FinderAction),
        CompressionSource::Cli => None,
    }
}

/// Where a request's job is remembered as coming from, if it is remembered.
pub fn recent_job_source(source: CompressionSource) -> (r: Option<RecentJobSource>)
    ensures
        r == recent_source(source),
{
    match source {
        CompressionSource::Desktop => Some(RecentJobSource::Desktop),
        CompressionSource::FinderAction => Some(RecentJobSource::FinderAction),
        CompressionSource::Cli => None,
    }
}

/// The record of a compression's result, made at `now_millis` milliseconds
/// (`now_secs` seconds) after the Unix epoch: its identifier is
/// `{now_millis}-{duration_ms}`, its creation time `{now_secs}`.
pub open spec fn record_of(
    source: RecentJobSource,
    result: CompressionResult,
    now_millis: u128,
    now_secs: u64,
) -> RecentJobRecordView {
    RecentJobRecordView {
        id: spec_decimal(now_millis as nat) + "-"@ + spec_decimal(result.duration_ms as nat),
        created_at: spec_decimal(now_secs as nat),
        source,
        input_path: result.input_path@,
        output_path: opt_view(result.output_path),
        original_bytes: result.original_bytes,
        output_bytes: result.output_bytes,
        status: result.status,
        error_code: match result.error {
            Some(e) => Some(e.code@),
            None => None,
        },
        duration_ms: result.duration_ms,
    }
}

/// The record of a compression's result, made at the given time.
pub fn recent_job_record(
    source: RecentJobSource,
    result: &CompressionResult,
    now_millis: u128,
    now_secs: u64,
) -> (r: RecentJobRecord)
    ensures
        r@ == record_of(source, *result, now_millis, now_secs),
{
    let mut id = decimal_string(now_millis);
    id.append("-");
    let duration = decimal_string(result.duration_ms);
    id.append(duration.as_str());
    let error_code = match &result.error {
        Some(e) => Some(owned(e.code.as_str())),
        None => None,
    };
    RecentJobRecord {
        id,
        created_at: decimal_string(now_secs as u128),
        source,
        input_path: owned(result.input_path.as_str()),
        output_path: copy_opt_string(&result.output_path),
        original_bytes: result.original_bytes,
        output_bytes: result.output_bytes,
        status: result.status,
        error_code,
        duration_ms: result.duration_ms,
    }
}

/// The current time as decimal seconds since the Unix epoch.
pub fn chrono_timestamp() -> (t: String)
    ensures
        exists|secs: u64| t@ == spec_decimal(secs as nat),
        exists|secs: u64| unix_seconds_now.ensures((), secs) && t@ == spec_decimal(secs as nat),
{
    let secs = unix_seconds_now();
    decimal_string(secs as u128)
}

/// The record to remember of a compression requested from `source`, made
/// now; `None` for a request from the command line.
pub fn record_for_request(source: CompressionSource, result: &CompressionResult) -> (r: Option<
    RecentJobRecord,
>)
    ensures
        r is None <==> recent_source(source) is None,
        r matches Some(rec) ==> exists|millis: u128, secs: u64|
            rec@ == record_of(recent_source(source).unwrap(), *result, millis, secs),
        r matches Some(rec) ==> exists|millis: u128, secs: u64|
            {
                &&& unix_millis_now.ensures((), millis)
                &&& unix_seconds_now.ensures((), secs)
                &&& rec@.id == spec_decimal(millis as nat) + "-"@ + spec_decimal(
                    result.duration_ms as nat,
                )
                &&& rec@.created_at == spec_decimal(secs as nat)
            },
{
    match recent_job_source(source) {
        Some(job_source) => {
            let millis = unix_millis_now();
            let secs = unix_seconds_now();
            Some(recent_job_record(job_source, result, millis, secs))
        },
        None => None,
    }
}

/// A pushed job is listed first, the earlier jobs follow in their order,
/// and the list holds at most the capacity (at least one), the oldest
/// dropped first.
pub proof fn law_push_lists_newest_first<T>(jobs: Seq<T>, job: T, keep: usize)
    ensures
        ({
            let cap: int = if keep == 0 {
                1
            } else {
                keep as int
            };
            let after = pushed(jobs, job, push_capacity(keep));
            &&& after[0] == job
            &&& after.len() == (if jobs.len() + 1 <= cap {
                jobs.len() + 1int
            } else {
                cap
            })
            &&& forall|i: int| 0 < i < after.len() ==> #[trigger] after[i] == jobs[i - 1]
        }),
{
}

/// An update that gives no field changes neither the settings nor the
/// recent jobs.
pub proof fn law_empty_update_changes_nothing<T>(settings: AppSettingsView, jobs: Seq<T>)
    ensures
        ({
            let none = PartialAppSettingsView {
                output_suffix: None,
                keep_recent_jobs: None,
                reveal_output_on_success: None,
                open_output_on_success: None,
            };
            merge_settings(settings, none) == settings && jobs_after_update(jobs, none) == jobs
        }),
{
}

/// A new limit on recent jobs keeps the newest of them, at most that many,
/// in their order.
pub proof fn law_new_limit_keeps_newest<T>(jobs: Seq<T>, p: PartialAppSettingsView)
    requires
        p.keep_recent_jobs is Some,
    ensures
        jobs_after_update(jobs, p).len() <= p.keep_recent_jobs.unwrap(),
        jobs_after_update(jobs, p).len() <= jobs.len(),
        forall|i: int|
            0 <= i < jobs_after_update(jobs, p).len() ==> #[trigger] jobs_after_update(jobs, p)[i]
                == jobs[i],
{
}

/// Applying the same update twice is the same as applying it once.
pub proof fn law_update_is_idempotent<T>(
    settings: AppSettingsView,
    jobs: Seq<T>,
    p: PartialAppSettingsView,
)
    ensures
        merge_settings(merge_settings(settings, p), p) == merge_settings(settings, p),
        jobs_after_update(jobs_after_update(jobs, p), p) == jobs_after_update(jobs, p),
{
}

/// Changes that are no settings updates leave the settings and the state
/// file's path as they were.
pub proof fn law_settings_unchanged_without_updates(v: PersistentStateHandleView, ops: Seq<StateOp>)
    requires
        forall|j: int| 0 <= j < ops.len() ==> !(#[trigger] ops[j] is Update),
    ensures
        apply_ops(v, ops).settings == v.settings,
        apply_ops(v, ops).path == v.path,
    decreases ops.len(),
{
    if ops.len() > 0 {
        assert(!(ops[ops.len() - 1] is Update));
        law_settings_unchanged_without_updates(v, ops.drop_last());
    }
}

/// The settings are those the last settings update gave: the settings as
/// they stood before it, with its given fields replaced. Pushes and clears
/// after it change nothing of them.
pub proof fn law_settings_follow_last_update(
    v: PersistentStateHandleView,
    ops: Seq<StateOp>,
    i: int,
)
    requires
        0 <= i < ops.len(),
        ops[i] is Update,
        forall|j: int| i < j < ops.len() ==> !(#[trigger] ops[j] is Update),
    ensures
        apply_ops(v, ops).settings == merge_settings(
            apply_ops(v, ops.take(i)).settings,
            ops[i]->Update_0,
        ),
    decreases ops.len(),
{
    if i == ops.len() - 1 {
        assert(ops.drop_last() =~= ops.take(i));
    } else {
        let d = ops.drop_last();
        assert(d.take(i) =~= ops.take(i));
        assert(forall|j: int| i < j < d.len() ==> d[j] == ops[j]);
        law_settings_follow_last_update(v, d, i);
        assert(!(ops[ops.len() - 1] is Update));
    }
}

/// A list cut to `c` (at least one) and then headed by a new element, cut
/// again, is the whole list so headed and cut.
proof fn lemma_push_onto_cut<T>(x: Seq<T>, j: T, c: nat)
    requires
        c >= 1,
    ensures
        truncate_to(seq![j] + truncate_to(x, c), c) == truncate_to(seq![j] + x, c),
{
    assert(truncate_to(seq![j] + truncate_to(x, c), c) =~= truncate_to(seq![j] + x, c));
}

/// From an empty list, pushing `j1, ..., jn` lists `jn, ..., j1`, newest
/// first, cut to the configured number of jobs (at least one); the
/// settings stay.
pub proof fn law_pushes_list_newest_first(v: PersistentStateHandleView, jobs: Seq<RecentJobRecordView>)
    requires
        v.recent_jobs.len() == 0,
    ensures
        apply_ops(v, pushes(jobs)).settings == v.settings,
        apply_ops(v, pushes(jobs)).recent_jobs == truncate_to(
            jobs.reverse(),
            push_capacity(v.settings.keep_recent_jobs),
        ),
        ({
            let keep = v.settings.keep_recent_jobs;
            let cap: int = if keep == 0 {
                1
            } else {
                keep as int
            };
            let listed = apply_ops(v, pushes(jobs)).recent_jobs;
            &&& listed.len() == (if jobs.len() <= cap {
                jobs.len() as int
            } else {
                cap
            })
            &&& forall|i: int| 0 <= i < listed.len() ==> #[trigger] listed[i] == jobs[jobs.len() - 1 - i]
        }),
    decreases jobs.len(),
{
    let c = push_capacity(v.settings.keep_recent_jobs);
    if jobs.len() == 0 {
        assert(pushes(jobs) =~= Seq::<StateOp>::empty());
        assert(jobs.reverse() =~= Seq::<RecentJobRecordView>::empty());
        assert(v.recent_jobs =~= Seq::<RecentJobRecordView>::empty());
    } else {
        let d = jobs.drop_last();
        let j = jobs.last();
        law_pushes_list_newest_first(v, d);
        assert(pushes(jobs).drop_last() =~= pushes(d));
        assert(pushes(jobs).last() == StateOp::Push(j));
        assert(jobs.reverse() =~= seq![j] + d.reverse());
        lemma_push_onto_cut(d.reverse(), j, c);
    }
}

/// A settings update replaces exactly the fields it gives, each with its
/// own value, and leaves every other field as it was.
pub proof fn law_update_sets_given_fields(s: AppSettingsView, p: PartialAppSettingsView)
    ensures
        merge_settings(s, p).output_suffix == (match p.output_suffix {
            Some(v) => v,
            None => s.output_suffix,
        }),
        merge_settings(s, p).keep_recent_jobs == (match p.keep_recent_jobs {
            Some(v) => v,
            None => s.keep_recent_jobs,
        }),
        merge_settings(s, p).reveal_output_on_success == (match p.reveal_output_on_success {
            Some(v) => v,
            None => s.reveal_output_on_success,
        }),
        merge_settings(s, p).open_output_on_success == (match p.open_output_on_success {
            Some(v) => v,
            None => s.open_output_on_success,
        }),
{
}

} // verus!
