//! The high-level client's own decisions: which resources can be downloaded,
//! what file each one is saved as, and how a list of resources is laid out as
//! downloads.
use crate::config::{join_path, joined_path, base_dir_of, DataGovConfig};
use crate::error::DataGovError;
use crate::model::{copy_opt, opt_view, Package, Resource, ResourceView};
use crate::server::texts;
use crate::text::{char_string, contains_char, ends_with, has_char, has_suffix, join2, lower_of, to_lower};
use crate::ui::{DownloadBatch, DownloadFailed};
use vstd::prelude::*;

verus! {

broadcast use vstd::string::group_string_axioms;

/// The path segments of a URL, if the text parses as a URL whose path has segments.
pub uninterp spec fn url_segments_of(url: Seq<char>) -> Option<Seq<Seq<char>>>;

/// Relies on `url::Url::parse` and `Url::path_segments`: the segments of the
/// path of a URL that parses and has a segmented path, in order; `None`
/// otherwise. The result depends on the text alone.
#[verifier::external_body]
fn url_segments(url: &str) -> (r: Option<Vec<String>>)
    ensures
        match r {
            Some(v) => url_segments_of(url@) == Some(texts(v@)),
            None => url_segments_of(url@) is None,
        },
{
    let parsed = url::Url::parse(url).ok()?;
    let segments = parsed.path_segments()?;
    Some(segments.map(|s| s.to_string()).collect())
}

/// The type of resource URL that names an API endpoint rather than a file.
pub const API_URL_TYPE: &'static str = "api";

/// A resource can be downloaded: it has a URL, its URL is not an API
/// endpoint, and it declares a format.
pub open spec fn is_downloadable(r: ResourceView) -> bool {
    &&& r.url is Some
    &&& r.url_type != Some(API_URL_TYPE@)
    &&& r.format is Some
}

/// The downloadable resources of a list, in their order.
pub open spec fn downloadable(rs: Seq<ResourceView>) -> Seq<ResourceView>
    decreases rs.len(),
{
    if rs.len() == 0 {
        seq![]
    } else {
        let init = downloadable(rs.drop_last());
        if is_downloadable(rs.last()) {
            init.push(rs.last())
        } else {
            init
        }
    }
}

/// The resources of a dataset; none when it lists none.
pub open spec fn package_resources(p: Package) -> Seq<ResourceView> {
    match p.resources {
        Some(v) => v@.map_values(|r: Resource| r@),
        None => seq![],
    }
}

/// The file name extension for a declared format: a dot and the format in lower case.
pub open spec fn extension_of(format: Seq<char>) -> Seq<char> {
    seq!['.'] + lower_of(format)
}

/// The last non-empty segment of a list.
pub open spec fn last_nonempty(segs: Seq<Seq<char>>) -> Option<Seq<char>>
    decreases segs.len(),
{
    if segs.len() == 0 {
        None
    } else if segs.last().len() > 0 {
        Some(segs.last())
    } else {
        last_nonempty(segs.drop_last())
    }
}

/// The last non-empty path segment, where there is one and it holds a dot.
pub open spec fn segment_file_name(segments: Option<Seq<Seq<char>>>) -> Option<Seq<char>> {
    match segments {
        Some(segs) => match last_nonempty(segs) {
            Some(seg) => if has_char(seg, '.') { Some(seg) } else { None },
            None => None,
        },
        None => None,
    }
}

/// A URL's last non-empty path segment, where there is one and it holds a dot.
pub open spec fn url_file_name(url: Option<Seq<char>>) -> Option<Seq<char>> {
    match url {
        Some(u) => segment_file_name(url_segments_of(u)),
        None => None,
    }
}

/// The file name made of a resource's parts: its name, its format already in
/// lower case, the path segments of its URL, and a fallback name. In order of
/// precedence: the name, with the format's extension appended unless the name
/// already ends with it; the last non-empty URL segment, where it holds a dot;
/// the fallback (or `data`) with the format's extension (or `.dat`).
pub open spec fn filename_from_parts(
    name: Option<Seq<char>>,
    lowered_format: Option<Seq<char>>,
    segments: Option<Seq<Seq<char>>>,
    fallback: Option<Seq<char>>,
) -> Seq<char> {
    match name {
        Some(n) => match lowered_format {
            Some(l) => if has_suffix(n, seq!['.'] + l) { n } else { n + (seq!['.'] + l) },
            None => n,
        },
        None => match segment_file_name(segments) {
            Some(seg) => seg,
            None => {
                let base = match fallback {
                    Some(b) => b,
                    None => "data"@,
                };
                match lowered_format {
                    Some(l) => base + (seq!['.'] + l),
                    None => base + ".dat"@,
                }
            },
        },
    }
}

/// The file name of a resource download (see [`filename_from_parts`]), with
/// the format lower-cased as `str::to_lowercase` does and the URL split into
/// path segments.
pub open spec fn resource_filename(r: ResourceView, fallback: Option<Seq<char>>) -> Seq<char> {
    filename_from_parts(
        r.name,
        match r.format {
            Some(f) => Some(lower_of(f)),
            None => None,
        },
        match r.url {
            Some(u) => url_segments_of(u),
            None => None,
        },
        fallback,
    )
}

/// The message of a download whose resource has no URL.
pub const NO_URL_MESSAGE: &'static str = "Resource has no URL";

/// What one resource of a download plan comes to.
#[derive(Debug, Clone)]
pub enum PlannedDownload {
    /// The resource has no URL: no request is made, the outcome is a
    /// resource-not-found failure, and this failure event is reported.
    NoUrl { failed: DownloadFailed },
    /// The resource is fetched from `url` into the file at `output_path`.
    Fetch(DownloadJob),
}

/// One file fetch: where from, where to, and the names its events carry.
#[derive(Debug, Clone)]
pub struct DownloadJob {
    pub url: String,
    pub output_path: String,
    pub resource_name: Option<String>,
    pub dataset_name: Option<String>,
}

/// What a planned download holds, as text.
pub enum PlannedView {
    NoUrl { resource_name: Option<Seq<char>>, dataset_name: Option<Seq<char>> },
    Fetch {
        url: Seq<char>,
        output_path: Seq<char>,
        resource_name: Option<Seq<char>>,
        dataset_name: Option<Seq<char>>,
    },
}

/// The text of a planned download; the failure event of one without URL
/// carries no path and the no-URL message.
pub open spec fn planned_view(p: PlannedDownload) -> PlannedView {
    match p {
        PlannedDownload::NoUrl { failed } => PlannedView::NoUrl {
            resource_name: opt_view(failed.resource_name),
            dataset_name: opt_view(failed.dataset_name),
        },
        PlannedDownload::Fetch(j) => PlannedView::Fetch {
            url: j.url@,
            output_path: j.output_path@,
            resource_name: opt_view(j.resource_name),
            dataset_name: opt_view(j.dataset_name),
        },
    }
}

/// The failure event of a planned download without URL is well formed.
pub open spec fn planned_ok(p: PlannedDownload) -> bool {
    match p {
        PlannedDownload::NoUrl { failed } => failed.output_path is None && failed.error@
            == NO_URL_MESSAGE@,
        PlannedDownload::Fetch(_) => true,
    }
}

/// The download of one resource into directory `dir`, with events naming
/// `dataset`.
pub open spec fn plan_one(r: ResourceView, dir: Seq<char>, dataset: Option<Seq<char>>) -> PlannedView {
    match r.url {
        None => PlannedView::NoUrl { resource_name: r.name, dataset_name: dataset },
        Some(u) => PlannedView::Fetch {
            url: u,
            output_path: joined_path(dir, resource_filename(r, None)),
            resource_name: r.name,
            dataset_name: dataset,
        },
    }
}

/// The downloads of a list of resources into one directory, slot for slot.
pub open spec fn plan_all(rs: Seq<ResourceView>, dir: Seq<char>, dataset: Option<Seq<char>>) -> Seq<
    PlannedView,
> {
    Seq::new(rs.len(), |i: int| plan_one(rs[i], dir, dataset))
}

/// How a list of downloads is run: not at all when empty, directly when it
/// holds one resource, as a bounded batch when it holds more.
#[derive(Debug, Clone)]
pub struct DownloadPlan {
    /// The batch event to report first; only for more than one resource.
    pub batch: Option<DownloadBatch>,
    /// One planned download per resource, in the order of the resources.
    pub downloads: Vec<PlannedDownload>,
    /// How many downloads may hold a permit at once (at least one).
    pub max_concurrency: usize,
}

/// The high-level client's settings and its decisions that need no network.
/// The network side (search, show, fetching files) is driven by the caller
/// around these decisions.
#[derive(Clone)]
pub struct DataGovClient {
    pub config: DataGovConfig,
}

impl DataGovClient {
    /// A client with the default settings.
    pub fn new() -> (r: DataGovClient)
        ensures
            r.config.mode == crate::config::OperatingMode::Interactive,
            r.config.max_concurrent_downloads == crate::config::DEFAULT_MAX_CONCURRENT_DOWNLOADS,
            r.config.download_timeout_secs == crate::config::DEFAULT_DOWNLOAD_TIMEOUT_SECS,
            r.config.status_reporter is None,
    {
        DataGovClient { config: DataGovConfig::new() }
    }

    /// A client with the given settings.
    pub fn with_config(config: DataGovConfig) -> (r: DataGovClient)
        ensures
            r.config == config,
    {
        DataGovClient { config }
    }

    /// The current base download directory.
    pub fn download_dir(&self) -> (r: String)
        ensures
            r@ == base_dir_of(self.config),
    {
        self.config.get_base_download_dir()
    }

    /// The resources of a dataset that look like downloadable files: they have
    /// a URL, the URL is not an API endpoint, and they declare a format. The
    /// order of the dataset is kept.
    pub fn get_downloadable_resources(package: &Package) -> (r: Vec<Resource>)
        ensures
            r@.map_values(|x: Resource| x@) == downloadable(package_resources(*package)),
    {
        let mut out: Vec<Resource> = Vec::new();
        match &package.resources {
            None => {
                assert(out@.map_values(|x: Resource| x@) =~= downloadable(seq![]));
            },
            Some(rs) => {
                let ghost all = rs@.map_values(|x: Resource| x@);
                let mut i: usize = 0;
                while i < rs.len()
                    invariant
                        i <= rs@.len(),
                        all == rs@.map_values(|x: Resource| x@),
                        out@.map_values(|x: Resource| x@) == downloadable(all.subrange(0, i as int)),
                    decreases rs@.len() - i,
                {
                    let r = &rs[i];
                    assert(all.subrange(0, i + 1).drop_last() =~= all.subrange(0, i as int));
                    assert(all.subrange(0, i + 1).last() == r@);
                    if Self::is_downloadable(r) {
                        out.push(r.duplicate());
                    }
                    assert(out@.map_values(|x: Resource| x@) =~= downloadable(all.subrange(0, i + 1)));
                    i = i + 1;
                }
                assert(all.subrange(0, rs@.len() as int) =~= all);
            },
        }
        out
    }

    /// Whether a resource looks like a downloadable file.
    pub fn is_downloadable(r: &Resource) -> (b: bool)
        ensures
            b == is_downloadable(r@),
    {
        let api_endpoint = match &r.url_type {
            Some(t) => same_text(t.as_str(), API_URL_TYPE),
            None => false,
        };
        r.url.is_some() && !api_endpoint && r.format.is_some()
    }

    /// The file name to save a resource as (see [`resource_filename`] for the
    /// order of precedence).
    pub fn get_resource_filename(resource: &Resource, fallback_name: Option<&str>) -> (r: String)
        ensures
            r@ == resource_filename(
                resource@,
                match fallback_name {
                    Some(f) => Some(f@),
                    None => None,
                },
            ),
    {
        let lowered = match &resource.format {
            Some(format) => Some(to_lower(format.as_str())),
            None => None,
        };
        let segments = match (&resource.name, &resource.url) {
            (None, Some(url)) => url_segments(url.as_str()),
            _ => None,
        };
        let lowered_ref = match &lowered {
            Some(l) => Some(l.as_str()),
            None => None,
        };
        let segments_ref = match &segments {
            Some(v) => Some(v),
            None => None,
        };
        let r = Self::filename_from_parts(&resource.name, lowered_ref, segments_ref, fallback_name);
        proof {
            if resource.name is None && resource.url is Some {
                assert(seq_opt(segments) == url_segments_of(resource.url.unwrap()@));
            }
        }
        r
    }

    /// The file name made of a resource's name, its format already in lower
    /// case, the path segments of its URL, and a fallback name.
    pub fn filename_from_parts(
        name: &Option<String>,
        lowered_format: Option<&str>,
        segments: Option<&Vec<String>>,
        fallback_name: Option<&str>,
    ) -> (r: String)
        ensures
            r@ == filename_from_parts(
                opt_view(*name),
                str_opt(lowered_format),
                match segments {
                    Some(v) => Some(texts(v@)),
                    None => None,
                },
                str_opt(fallback_name),
            ),
    {
        if let Some(name) = name {
            if let Some(lower) = lowered_format {
                let ext = dot_ext(lower);
                if ends_with(name.as_str(), ext.as_str()) {
                    return name.clone();
                } else {
                    let mut r = name.clone();
                    r.append(ext.as_str());
                    return r;
                }
            }
            return name.clone();
        }
        if let Some(segs) = segments {
            if let Some(seg) = last_nonempty_segment(segs) {
                if contains_char(seg.as_str(), '.') {
                    return seg;
                }
            }
        }
        let base = match fallback_name {
            Some(f) => f,
            None => "data",
        };
        match lowered_format {
            Some(lower) => {
                let ext = dot_ext(lower);
                join2(base, ext.as_str())
            },
            None => {
                let mut r = base.to_string();
                r.append(".dat");
                r
            },
        }
    }

    /// The download of one resource into `dir`.
    fn plan_one(resource: &Resource, dir: &str, dataset_name: &Option<String>) -> (r: PlannedDownload)
        ensures
            planned_view(r) == plan_one(resource@, dir@, opt_view(*dataset_name)),
            planned_ok(r),
    {
        match &resource.url {
            None => PlannedDownload::NoUrl {
                failed: DownloadFailed {
                    resource_name: copy_opt(&resource.name),
                    dataset_name: copy_opt(dataset_name),
                    output_path: None,
                    error: NO_URL_MESSAGE.to_string(),
                },
            },
            Some(url) => {
                let filename = Self::get_resource_filename(resource, None);
                PlannedDownload::Fetch(
                    DownloadJob {
                        url: url.clone(),
                        output_path: join_path(dir, filename.as_str()),
                        resource_name: copy_opt(&resource.name),
                        dataset_name: copy_opt(dataset_name),
                    },
                )
            },
        }
    }

    /// The downloads of all resources into `dir`, slot for slot.
    fn plan_each(resources: &Vec<Resource>, dir: &str, dataset_name: &Option<String>) -> (r: Vec<
        PlannedDownload,
    >)
        ensures
            r@.len() == resources@.len(),
            forall|i: int|
                0 <= i < r@.len() ==> planned_view(#[trigger] r@[i]) == plan_one(
                    resources@[i]@,
                    dir@,
                    opt_view(*dataset_name),
                ) && planned_ok(r@[i]),
    {
        let mut out: Vec<PlannedDownload> = Vec::new();
        let mut i: usize = 0;
        while i < resources.len()
            invariant
                i <= resources@.len(),
                out@.len() == i,
                forall|k: int|
                    0 <= k < i ==> planned_view(#[trigger] out@[k]) == plan_one(
                        resources@[k]@,
                        dir@,
                        opt_view(*dataset_name),
                    ) && planned_ok(out@[k]),
            decreases resources@.len() - i,
        {
            out.push(Self::plan_one(&resources[i], dir, dataset_name));
            i = i + 1;
        }
        out
    }

    /// The bound on concurrent downloads of this client, at least one.
    fn concurrency(&self) -> (k: usize)
        ensures
            k == concurrency_of(self.config),
    {
        if self.config.max_concurrent_downloads < 1 {
            1
        } else {
            self.config.max_concurrent_downloads
        }
    }

    /// How to download one resource to an exact file path: no batch event,
    /// one permit, and the planned download names no dataset.
    pub fn plan_resource_at(resource: &Resource, output_path: &str) -> (r: DownloadPlan)
        ensures
            r.batch is None,
            r.max_concurrency == 1,
            r.downloads@.len() == 1,
            planned_ok(r.downloads@[0]),
            planned_view(r.downloads@[0]) == match resource@.url {
                None => PlannedView::NoUrl { resource_name: resource@.name, dataset_name: None },
                Some(u) => PlannedView::Fetch {
                    url: u,
                    output_path: output_path@,
                    resource_name: resource@.name,
                    dataset_name: None,
                },
            },
    {
        let planned = match &resource.url {
            None => PlannedDownload::NoUrl {
                failed: DownloadFailed {
                    resource_name: copy_opt(&resource.name),
                    dataset_name: None,
                    output_path: None,
                    error: NO_URL_MESSAGE.to_string(),
                },
            },
            Some(url) => PlannedDownload::Fetch(
                DownloadJob {
                    url: url.clone(),
                    output_path: output_path.to_string(),
                    resource_name: copy_opt(&resource.name),
                    dataset_name: None,
                },
            ),
        };
        let mut downloads: Vec<PlannedDownload> = Vec::new();
        downloads.push(planned);
        DownloadPlan { batch: None, downloads, max_concurrency: 1 }
    }

    /// How to download several resources into `output_dir` (or the base
    /// download directory): one planned download per resource, in order, and
    /// a batch event first when there is more than one.
    pub fn plan_resources(&self, resources: &Vec<Resource>, output_dir: Option<&str>) -> (r:
        DownloadPlan)
        ensures
            plan_matches(
                r,
                resources@.map_values(|x: Resource| x@),
                match output_dir {
                    Some(d) => d@,
                    None => base_dir_of(self.config),
                },
                None,
                concurrency_of(self.config),
            ),
    {
        let dir = match output_dir {
            Some(d) => d.to_string(),
            None => self.config.get_base_download_dir(),
        };
        let none: Option<String> = None;
        self.plan_in(resources, dir.as_str(), &none)
    }

    /// How to download several resources of one dataset into its own
    /// directory: one planned download per resource, in order, with the
    /// dataset named in each event, and a batch event first when there is
    /// more than one.
    pub fn plan_dataset_resources(&self, resources: &Vec<Resource>, dataset_name: &str) -> (r:
        DownloadPlan)
        ensures
            plan_matches(
                r,
                resources@.map_values(|x: Resource| x@),
                joined_path(base_dir_of(self.config), dataset_name@),
                Some(dataset_name@),
                concurrency_of(self.config),
            ),
    {
        let dir = self.config.get_dataset_download_dir(dataset_name);
        let name: Option<String> = Some(dataset_name.to_string());
        self.plan_in(resources, dir.as_str(), &name)
    }

    fn plan_in(&self, resources: &Vec<Resource>, dir: &str, dataset_name: &Option<String>) -> (r:
        DownloadPlan)
        ensures
            plan_matches(
                r,
                resources@.map_values(|x: Resource| x@),
                dir@,
                opt_view(*dataset_name),
                concurrency_of(self.config),
            ),
    {
        let downloads = Self::plan_each(resources, dir, dataset_name);
        let batch = if resources.len() > 1 {
            Some(DownloadBatch { resource_count: resources.len(), dataset_name: copy_opt(dataset_name) })
        } else {
            None
        };
        let r = DownloadPlan { batch, downloads, max_concurrency: self.concurrency() };
        assert(r.downloads@.map_values(|p: PlannedDownload| planned_view(p)) =~= plan_all(
            resources@.map_values(|x: Resource| x@),
            dir@,
            opt_view(*dataset_name),
        ));
        r
    }
}

/// The bound on concurrent downloads of a configuration, at least one.
pub open spec fn concurrency_of(c: DataGovConfig) -> usize {
    if c.max_concurrent_downloads < 1 { 1 } else { c.max_concurrent_downloads }
}

/// A plan lays out the resources `rs` into `dir`: one planned download per
/// resource, slot for slot; a batch event with the count and the dataset name
/// exactly when there is more than one resource; and the concurrency bound.
pub open spec fn plan_matches(
    p: DownloadPlan,
    rs: Seq<ResourceView>,
    dir: Seq<char>,
    dataset: Option<Seq<char>>,
    k: usize,
) -> bool {
    &&& p.downloads@.map_values(|d: PlannedDownload| planned_view(d)) == plan_all(rs, dir, dataset)
    &&& forall|i: int| 0 <= i < p.downloads@.len() ==> planned_ok(#[trigger] p.downloads@[i])
    &&& (p.batch is Some <==> rs.len() > 1)
    &&& (p.batch matches Some(b) ==> b.resource_count == rs.len() && opt_view(b.dataset_name)
        == dataset)
    &&& p.max_concurrency == k
    &&& k >= 1
}

/// A dot followed by the extension text.
fn dot_ext(ext: &str) -> (r: String)
    ensures
        r@ == seq!['.'] + ext@,
{
    let mut r = char_string('.');
    r.append(ext);
    r
}

/// Whether two texts are the same.
pub fn same_text(a: &str, b: &str) -> (r: bool)
    ensures
        r == (a@ == b@),
{
    let n = a.unicode_len();
    if n != b.unicode_len() {
        return false;
    }
    let mut i: usize = 0;
    while i < n
        invariant
            n == a@.len(),
            n == b@.len(),
            i <= n,
            forall|j: int| 0 <= j < i ==> a@[j] == b@[j],
        decreases n - i,
    {
        if a.get_char(i) != b.get_char(i) {
            return false;
        }
        i = i + 1;
    }
    assert(a@ =~= b@);
    true
}

/// The outcome of a planned download without URL.
pub fn no_url_outcome() -> (r: DataGovError)
    ensures
        r matches DataGovError::ResourceNotFound { message } && message@ == NO_URL_MESSAGE@,
{
    DataGovError::resource_not_found(NO_URL_MESSAGE)
}

/// The text of an optional `&str`.
pub open spec fn str_opt(v: Option<&str>) -> Option<Seq<char>> {
    match v {
        Some(t) => Some(t@),
        None => None,
    }
}

/// The texts of an optional list of strings.
pub open spec fn seq_opt(v: Option<Vec<String>>) -> Option<Seq<Seq<char>>> {
    match v {
        Some(w) => Some(texts(w@)),
        None => None,
    }
}

/// The last non-empty segment of a list, if any.
pub fn last_nonempty_segment(segs: &Vec<String>) -> (r: Option<String>)
    ensures
        opt_view(r) == last_nonempty(texts(segs@)),
{
    let ghost t = texts(segs@);
    let mut i: usize = segs.len();
    assert(t.subrange(0, i as int) =~= t);
    while i > 0
        invariant
            i <= segs@.len(),
            t == texts(segs@),
            last_nonempty(t) == last_nonempty(t.subrange(0, i as int)),
        decreases i,
    {
        let ghost pre = t.subrange(0, i as int);
        assert(pre.drop_last() =~= t.subrange(0, i - 1));
        assert(pre.last() == segs@[i - 1]@);
        if segs[i - 1].unicode_len() > 0 {
            return Some(segs[i - 1].clone());
        }
        i = i - 1;
    }
    assert(t.subrange(0, 0) =~= Seq::<Seq<char>>::empty());
    None
}

} // verus!
