//! Properties of downloads that hold for every input, stated over the
//! contracts of the planning and transfer functions.
use crate::client::{
    extension_of, plan_matches, plan_one, planned_view, resource_filename, url_file_name,
    DownloadPlan, PlannedView,
};
use crate::client::concurrency_of;
use crate::config::DataGovConfig;
use crate::download::{
    lemma_permits_never_exceed_capacity, pool_run, PermitPool,
    http_failure_message, is_success_status, stepped, transfer_outcome, Notice, Transfer,
    TransferInput, TransferPhase,
};
use crate::error::DataGovError;
use crate::model::ResourceView;
use crate::text::has_suffix;
use vstd::prelude::*;

verus! {

/// An empty list of resources is planned as nothing: no downloads and no
/// batch event, so nothing is fetched and nothing is reported.
pub proof fn lemma_empty_list_plans_nothing(
    p: DownloadPlan,
    rs: Seq<ResourceView>,
    dir: Seq<char>,
    dataset: Option<Seq<char>>,
    k: usize,
)
    requires
        plan_matches(p, rs, dir, dataset, k),
        rs.len() == 0,
    ensures
        p.downloads@.len() == 0,
        p.batch is None,
{
    assert(p.downloads@.map_values(|d: crate::client::PlannedDownload| planned_view(d)).len() == 0);
}

/// A single resource is downloaded exactly as it would be inside a batch:
/// planned on its own (the direct path) or at any slot of a longer list (the
/// batch path), into the same directory, it gets the same planned download,
/// hence the same file at the same path. Only the batch path has a batch event.
pub proof fn lemma_single_path_matches_batch_path(
    single: DownloadPlan,
    batch: DownloadPlan,
    r: ResourceView,
    rs: Seq<ResourceView>,
    i: int,
    dir: Seq<char>,
    dataset: Option<Seq<char>>,
    k1: usize,
    k2: usize,
)
    requires
        plan_matches(single, seq![r], dir, dataset, k1),
        plan_matches(batch, rs, dir, dataset, k2),
        rs.len() > 1,
        0 <= i < rs.len(),
        rs[i] == r,
    ensures
        single.downloads@.len() == 1,
        single.batch is None,
        batch.batch is Some,
        planned_view(single.downloads@[0]) == planned_view(batch.downloads@[i]),
{
    let sv = single.downloads@.map_values(|d: crate::client::PlannedDownload| planned_view(d));
    let bv = batch.downloads@.map_values(|d: crate::client::PlannedDownload| planned_view(d));
    assert(sv.len() == 1);
    assert(seq![r][0] == r);
    assert(sv[0] == plan_one(seq![r][0], dir, dataset));
    assert(sv[0] == planned_view(single.downloads@[0]));
    assert(bv.len() == rs.len());
    assert(bv[i] == plan_one(rs[i], dir, dataset));
    assert(bv[i] == planned_view(batch.downloads@[i]));
}

/// A plan has one download per resource, in the order of the resources: the
/// download at slot `i` is the one of resource `i`, whatever the others are.
pub proof fn lemma_one_download_per_resource_in_order(
    p: DownloadPlan,
    rs: Seq<ResourceView>,
    dir: Seq<char>,
    dataset: Option<Seq<char>>,
    k: usize,
)
    requires
        plan_matches(p, rs, dir, dataset, k),
    ensures
        p.downloads@.len() == rs.len(),
        forall|i: int| 0 <= i < rs.len() ==> planned_view(#[trigger] p.downloads@[i]) == plan_one(rs[i], dir, dataset),
{
    let v = p.downloads@.map_values(|d: crate::client::PlannedDownload| planned_view(d));
    assert(v.len() == rs.len());
    assert forall|i: int| 0 <= i < rs.len() implies planned_view(#[trigger] p.downloads@[i]) == plan_one(rs[i], dir, dataset) by {
        assert(v[i] == plan_one(rs[i], dir, dataset));
    }
}

/// A resource without URL is never fetched: its slot of any plan is a
/// no-URL download, which makes no request.
pub proof fn lemma_no_url_is_never_fetched(
    p: DownloadPlan,
    rs: Seq<ResourceView>,
    dir: Seq<char>,
    dataset: Option<Seq<char>>,
    k: usize,
    i: int,
)
    requires
        plan_matches(p, rs, dir, dataset, k),
        0 <= i < rs.len(),
        rs[i].url is None,
    ensures
        p.downloads@[i] is NoUrl,
        planned_view(p.downloads@[i]) == (PlannedView::NoUrl { resource_name: rs[i].name, dataset_name: dataset }),
{
    lemma_one_download_per_resource_in_order(p, rs, dir, dataset, k);
}

/// File names fall through three rules, in order: a named resource keeps its
/// name, with the lower-cased format appended as an extension unless the name
/// already ends with it; a nameless one takes its URL's last non-empty path segment where
/// that holds a dot; otherwise the fallback (or `data`) gets the format's
/// extension (or `.dat`). The name depends on nothing else.
pub proof fn lemma_filename_precedence(r: ResourceView, fallback: Option<Seq<char>>)
    ensures
        r.name matches Some(n) ==> resource_filename(r, fallback) == match r.format {
            Some(f) => if has_suffix(n, extension_of(f)) { n } else { n + extension_of(f) },
            None => n,
        },
        r.name is None && url_file_name(r.url) is Some ==> resource_filename(r, fallback)
            == url_file_name(r.url).unwrap(),
        r.name is None && url_file_name(r.url) is None ==> resource_filename(r, fallback) == (
        match fallback {
            Some(b) => b,
            None => "data"@,
        }) + match r.format {
            Some(f) => extension_of(f),
            None => ".dat"@,
        },
        forall|r2: ResourceView, f2: Option<Seq<char>>|
            r2 == r && f2 == fallback ==> #[trigger] resource_filename(r2, f2) == resource_filename(r, fallback),
{
}

/// A response with a status other than success always fails the fetch with
/// a download error whose message names the status code and the URL, is
/// reported as a failure, and leaves the fetch failed for good: no later
/// input turns it into a success.
pub proof fn lemma_error_status_fails_download(
    t: Transfer,
    status: u16,
    reason: String,
    content_length: Option<u64>,
    t2: Transfer,
    notice: Notice,
)
    requires
        t.phase == TransferPhase::Requesting,
        !is_success_status(status),
        stepped(t, TransferInput::Response { status, reason, content_length }, t2, notice),
    ensures
        t2.phase == TransferPhase::Failed,
        t2.error matches Some(DataGovError::DownloadError { message }) && message@
            == http_failure_message(status, reason@, t.job.url@),
        notice is Failed,
        transfer_outcome(t2) matches Some(Err(DataGovError::DownloadError { .. })),
        forall|input: TransferInput, t3: Transfer, n3: Notice|
            #[trigger] stepped(t2, input, t3, n3) ==> t3 == t2 && n3 is Nothing,
{
}

/// A fetch is decided by what happens to it: from the same state, the same
/// input leads to the same phase, byte counts and kind of event. So a
/// resource fetched on its own and the same resource fetched inside a batch,
/// given the same responses, end the same way and report the same terminal
/// event.
pub proof fn lemma_transfer_steps_are_determined(
    t: Transfer,
    input: TransferInput,
    a: Transfer,
    na: Notice,
    b: Transfer,
    nb: Notice,
)
    requires
        stepped(t, input, a, na),
        stepped(t, input, b, nb),
    ensures
        a.phase == b.phase,
        a.downloaded == b.downloaded,
        a.total == b.total,
        a.error is Some <==> b.error is Some,
        na is Nothing <==> nb is Nothing,
        na is Started <==> nb is Started,
        na is Progress <==> nb is Progress,
        na is Finished <==> nb is Finished,
        na is Failed <==> nb is Failed,
{
}

/// With a bound of `k` (at least one) on concurrent downloads, the permit
/// pool of a batch starts with `k` permits, and however its downloads take
/// and give back permits, at no point do more than `k` hold one.
pub proof fn lemma_batch_never_exceeds_configured_bound(c: DataGovConfig, ops: Seq<bool>)
    requires
        c.max_concurrent_downloads >= 1,
    ensures
        concurrency_of(c) == c.max_concurrent_downloads,
        forall|i: int|
            0 <= i <= ops.len() ==> #[trigger] pool_run(
                PermitPool { capacity: concurrency_of(c), in_use: 0 },
                ops.take(i),
            ).in_use <= c.max_concurrent_downloads,
{
    lemma_permits_never_exceed_capacity(PermitPool { capacity: concurrency_of(c), in_use: 0 }, ops);
}

} // verus!
