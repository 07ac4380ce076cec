//! Settings of the catalog connection and of the high-level client.
use crate::model::opt_view;
use crate::ui::StatusReporter;
use std::sync::Arc;
use vstd::prelude::*;

verus! {

/// The catalog that the clients talk to unless told otherwise.
pub const DATA_GOV_BASE_URL: &'static str = "https://catalog.data.gov/api/3";

/// The user agent sent unless told otherwise.
pub const DEFAULT_USER_AGENT: &'static str = "data-gov-rs/1.0";

/// How many downloads of a batch run at once unless told otherwise.
pub const DEFAULT_MAX_CONCURRENT_DOWNLOADS: usize = 3;

/// Seconds a download may take unless told otherwise.
pub const DEFAULT_DOWNLOAD_TIMEOUT_SECS: u64 = 300;

/// The path of `file` inside the directory `dir`, as the platform's path
/// joining makes it.
pub uninterp spec fn joined_path(dir: Seq<char>, file: Seq<char>) -> Seq<char>;

/// Relies on `std::path::Path::join`: the joined path depends on the two
/// texts alone.
#[verifier::external_body]
pub fn join_path(dir: &str, file: &str) -> (r: String)
    ensures
        r@ == joined_path(dir@, file@),
{
    std::path::Path::new(dir).join(file).to_string_lossy().into_owned()
}

/// Relies on `dirs::download_dir`: the user's downloads folder, if the
/// platform has one. It depends on the machine, so nothing is said of it.
#[verifier::external_body]
fn system_download_dir() -> (r: Option<String>) {
    dirs::download_dir().map(|p| p.to_string_lossy().into_owned())
}

/// Relies on `dirs::home_dir`: the user's home folder, if known. It depends on
/// the machine, so nothing is said of it.
#[verifier::external_body]
fn system_home_dir() -> (r: Option<String>) {
    dirs::home_dir().map(|p| p.to_string_lossy().into_owned())
}

/// The default download directory, given what the machine reports: its
/// downloads folder, else a `Downloads` folder in the home folder, else
/// `./Downloads`.
pub open spec fn download_dir_choice(download: Option<Seq<char>>, home: Option<Seq<char>>) -> Seq<char> {
    match download {
        Some(d) => d,
        None => joined_path(
            match home {
                Some(h) => h,
                None => "."@,
            },
            "Downloads"@,
        ),
    }
}

/// The default download directory, given the machine's downloads folder and
/// home folder, where it has them.
pub fn choose_download_dir(download: Option<String>, home: Option<String>) -> (r: String)
    ensures
        r@ == download_dir_choice(opt_view(download), opt_view(home)),
{
    match download {
        Some(dir) => dir,
        None => {
            let base = match home {
                Some(h) => h,
                None => ".".to_string(),
            };
            join_path(base.as_str(), "Downloads")
        },
    }
}

/// Where downloads go by default, as the machine reports its folders (see
/// [`choose_download_dir`]).
pub fn default_download_dir() -> (r: String)
    ensures
        exists|download: Option<Seq<char>>, home: Option<Seq<char>>|
            r@ == download_dir_choice(download, home),
{
    let download = system_download_dir();
    let home = system_home_dir();
    let ghost (d, h) = (opt_view(download), opt_view(home));
    let r = choose_download_dir(download, home);
    assert(r@ == download_dir_choice(d, h));
    r
}

/// Where the client puts downloads.
#[derive(Debug, Clone, Copy, PartialEq, Eq, Structural)]
pub enum OperatingMode {
    /// Interactive session: downloads go to the configured base directory.
    Interactive,
    /// One command from the command line: downloads go to the working directory.
    CommandLine,
}

/// An API key for the catalog, with an optional prefix (such as `Bearer`).
#[derive(Debug, Clone)]
pub struct ApiKey {
    pub prefix: Option<String>,
    pub key: String,
}

/// Basic authentication credentials: user name and optional password.
pub type BasicAuth = (String, Option<String>);

/// Connection settings of the catalog client.
#[derive(Debug, Clone)]
pub struct Configuration {
    /// Base URL of the action API, such as `https://catalog.data.gov/api/3`.
    pub base_path: String,
    pub user_agent: Option<String>,
    pub basic_auth: Option<BasicAuth>,
    pub oauth_access_token: Option<String>,
    pub bearer_access_token: Option<String>,
    pub api_key: Option<ApiKey>,
}

impl Configuration {
    /// The settings for data.gov, without credentials.
    pub fn new() -> (r: Configuration)
        ensures
            r.base_path@ == DATA_GOV_BASE_URL@,
            r.user_agent matches Some(u) && u@ == DEFAULT_USER_AGENT@,
            r.basic_auth is None,
            r.oauth_access_token is None,
            r.bearer_access_token is None,
            r.api_key is None,
    {
        Configuration {
            base_path: DATA_GOV_BASE_URL.to_string(),
            user_agent: Some(DEFAULT_USER_AGENT.to_string()),
            basic_auth: None,
            oauth_access_token: None,
            bearer_access_token: None,
            api_key: None,
        }
    }
}

/// Settings of the high-level client.
#[derive(Clone)]
pub struct DataGovConfig {
    /// Settings of the catalog connection.
    pub ckan_config: Configuration,
    /// Operating mode (decides the base download directory).
    pub mode: OperatingMode,
    /// Base download directory in interactive mode (before the dataset subdirectory).
    pub base_download_dir: String,
    /// Base download directory in command-line mode: the process's working directory.
    pub working_dir: String,
    /// User agent for HTTP requests.
    pub user_agent: String,
    /// How many downloads of a batch may hold a permit at once.
    pub max_concurrent_downloads: usize,
    /// Timeout for downloads, in seconds.
    pub download_timeout_secs: u64,
    /// Optional sink of download events.
    pub status_reporter: Option<Arc<dyn StatusReporter>>,
}

impl DataGovConfig {
    /// The defaults: data.gov, interactive mode, the system downloads folder,
    /// three concurrent downloads, a five-minute timeout, no reporter.
    pub fn new() -> (r: DataGovConfig)
        ensures
            r.ckan_config.base_path@ == DATA_GOV_BASE_URL@,
            r.ckan_config.api_key is None,
            r.mode == OperatingMode::Interactive,
            r.working_dir@ == "."@,
            r.user_agent@ == DEFAULT_USER_AGENT@,
            r.max_concurrent_downloads == DEFAULT_MAX_CONCURRENT_DOWNLOADS,
            r.download_timeout_secs == DEFAULT_DOWNLOAD_TIMEOUT_SECS,
            r.status_reporter is None,
    {
        DataGovConfig {
            ckan_config: Configuration::new(),
            mode: OperatingMode::Interactive,
            base_download_dir: default_download_dir(),
            working_dir: ".".to_string(),
            user_agent: DEFAULT_USER_AGENT.to_string(),
            max_concurrent_downloads: DEFAULT_MAX_CONCURRENT_DOWNLOADS,
            download_timeout_secs: DEFAULT_DOWNLOAD_TIMEOUT_SECS,
            status_reporter: None,
        }
    }

    /// The same settings with another base download directory.
    pub fn with_download_dir(self, dir: &str) -> (r: DataGovConfig)
        ensures
            r.base_download_dir@ == dir@,
            r == (DataGovConfig { base_download_dir: r.base_download_dir, ..self }),
    {
        let mut c = self;
        c.base_download_dir = dir.to_string();
        c
    }

    /// The same settings with another working directory (the base download
    /// directory in command-line mode).
    pub fn with_working_dir(self, dir: &str) -> (r: DataGovConfig)
        ensures
            r.working_dir@ == dir@,
            r == (DataGovConfig { working_dir: r.working_dir, ..self }),
    {
        let mut c = self;
        c.working_dir = dir.to_string();
        c
    }

    /// The same settings in another operating mode.
    pub fn with_mode(self, mode: OperatingMode) -> (r: DataGovConfig)
        ensures
            r == (DataGovConfig { mode, ..self }),
    {
        let mut c = self;
        c.mode = mode;
        c
    }

    /// The base download directory of the operating mode: the configured
    /// directory when interactive, the working directory on the command line.
    pub fn get_base_download_dir(&self) -> (r: String)
        ensures
            r@ == base_dir_of(*self),
    {
        match self.mode {
            OperatingMode::Interactive => self.base_download_dir.clone(),
            OperatingMode::CommandLine => self.working_dir.clone(),
        }
    }

    /// The download directory of one dataset: its name inside the base directory.
    pub fn get_dataset_download_dir(&self, dataset_name: &str) -> (r: String)
        ensures
            r@ == joined_path(base_dir_of(*self), dataset_name@),
    {
        let base = self.get_base_download_dir();
        join_path(base.as_str(), dataset_name)
    }

    /// The same settings with an API key (without prefix) for the catalog.
    pub fn with_api_key(self, api_key: &str) -> (r: DataGovConfig)
        ensures
            r.ckan_config.api_key matches Some(k) && k.key@ == api_key@ && k.prefix is None,
            r.ckan_config == (Configuration { api_key: r.ckan_config.api_key, ..self.ckan_config }),
            r == (DataGovConfig { ckan_config: r.ckan_config, ..self }),
    {
        let mut c = self;
        c.ckan_config.api_key = Some(ApiKey { key: api_key.to_string(), prefix: None });
        c
    }

    /// The same settings with another user agent, for downloads and for the catalog.
    pub fn with_user_agent(self, user_agent: &str) -> (r: DataGovConfig)
        ensures
            r.user_agent@ == user_agent@,
            r.ckan_config.user_agent matches Some(u) && u@ == user_agent@,
            r.ckan_config == (Configuration { user_agent: r.ckan_config.user_agent, ..self.ckan_config }),
            r == (DataGovConfig { user_agent: r.user_agent, ckan_config: r.ckan_config, ..self }),
    {
        let mut c = self;
        c.user_agent = user_agent.to_string();
        c.ckan_config.user_agent = Some(user_agent.to_string());
        c
    }

    /// The same settings with another bound on concurrent downloads; a bound
    /// below one counts as one.
    pub fn with_max_concurrent_downloads(self, max: usize) -> (r: DataGovConfig)
        ensures
            r == (DataGovConfig { max_concurrent_downloads: if max < 1 { 1 } else { max }, ..self }),
            r.max_concurrent_downloads >= 1,
    {
        let mut c = self;
        c.max_concurrent_downloads = if max < 1 { 1 } else { max };
        c
    }

    /// The same settings with another download timeout.
    pub fn with_download_timeout(self, timeout_secs: u64) -> (r: DataGovConfig)
        ensures
            r == (DataGovConfig { download_timeout_secs: timeout_secs, ..self }),
    {
        let mut c = self;
        c.download_timeout_secs = timeout_secs;
        c
    }

    /// The same settings with a sink for download events.
    pub fn with_status_reporter(self, reporter: Option<Arc<dyn StatusReporter>>) -> (r: DataGovConfig)
        ensures
            r == (DataGovConfig { status_reporter: reporter, ..self }),
    {
        let mut c = self;
        c.status_reporter = reporter;
        c
    }

    /// The same settings without a sink for download events.
    pub fn without_status_reporter(self) -> (r: DataGovConfig)
        ensures
            r == (DataGovConfig { status_reporter: None, ..self }),
    {
        let mut c = self;
        c.status_reporter = None;
        c
    }

    /// The sink for download events, if one is set.
    pub fn status_reporter(&self) -> (r: Option<&Arc<dyn StatusReporter>>)
        ensures
            r is Some <==> self.status_reporter is Some,
            r matches Some(a) ==> self.status_reporter == Some(*a),
    {
        match &self.status_reporter {
            Some(a) => Some(a),
            None => None,
        }
    }
}

/// The base download directory of a configuration's operating mode.
pub open spec fn base_dir_of(c: DataGovConfig) -> Seq<char> {
    match c.mode {
        OperatingMode::Interactive => c.base_download_dir@,
        OperatingMode::CommandLine => c.working_dir@,
    }
}

} // verus!
