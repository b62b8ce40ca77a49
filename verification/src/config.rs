//! What the runtime is started with: the command line options and the choice
//! of where the lookup data comes from.

use std::time::Duration;
use vstd::prelude::*;
use vstd::string::*;

verus! {

/// The options of the command line.
#[derive(Clone, Debug)]
pub struct Opt {
    /// Port number that the server listens on.
    pub http_listen_port: u16,
    /// Path to a file containing configuration parameters.
    pub config_path: String,
}

/// Where the configuration says the lookup data is.
#[derive(Clone, Debug)]
pub enum Data {
    /// Download the data with an HTTP GET. The schemes `http` and `https` are
    /// taken.
    Url(String),
    /// Read the data from a file of the local file system.
    File(String),
}

/// Whether a download of lookup data is to carry a token.
#[derive(Clone, Copy, Debug, PartialEq, Eq, Structural)]
pub enum LookupDataAuth {
    /// No token.
    NoToken,
    /// A bearer token from the metadata service.
    GcpMetadataToken,
}

/// The part of the configuration that is about the lookup data.
#[derive(Debug)]
pub struct LoadLookupDataConfig {
    /// Where the data is. Without it no data is available for lookup.
    pub lookup_data: Option<Data>,
    /// How often to load the data again. Without it the data is loaded once.
    pub lookup_data_download_period: Option<Duration>,
    /// Whether a download is to carry a token.
    pub lookup_data_auth: LookupDataAuth,
}

/// A source of lookup data that the runtime can load from.
#[derive(Clone, Debug)]
pub enum LookupDataSource {
    Http { url: String, auth: LookupDataAuth },
    File(String),
}

/// Why the lookup data of a configuration cannot be loaded.
#[derive(Clone, Debug)]
pub enum ConfigError {
    /// The URL of the lookup data is no URL.
    InvalidUrl,
    /// The URL has a scheme other than `http` and `https`.
    UnknownScheme(String),
}

/// What is to be done about the lookup data at startup.
#[derive(Debug)]
pub enum LookupPlan {
    /// There is no lookup data.
    NoData,
    /// Load the data once, before the first request.
    LoadOnce(LookupDataSource),
    /// Load the data before the first request, and again after every period.
    LoadAndRefresh(LookupDataSource, Duration),
}

/// The scheme of a URL, or nothing where the text is no URL.
pub uninterp spec fn spec_url_scheme(url: Seq<char>) -> Option<Seq<char>>;

/// `Url::parse` and `Url::scheme` of the `url` crate: the scheme of a URL, or
/// nothing where the text does not parse as a URL.
#[verifier::external_body]
fn url_scheme(url: &str) -> (scheme: Option<String>)
    ensures
        scheme is Some <==> spec_url_scheme(url@) is Some,
        scheme matches Some(s) ==> Some(s@) == spec_url_scheme(url@),
{
    match url::Url::parse(url) {
        Ok(parsed) => Some(parsed.scheme().to_string()),
        Err(_) => None,
    }
}

/// A source of lookup data as a mathematical value.
pub enum SourceView {
    Http { url: Seq<char>, auth: LookupDataAuth },
    File(Seq<char>),
}

impl View for LookupDataSource {
    type V = SourceView;

    open spec fn view(&self) -> SourceView {
        match self {
            LookupDataSource::Http { url, auth } => SourceView::Http { url: url@, auth: *auth },
            LookupDataSource::File(path) => SourceView::File(path@),
        }
    }
}

/// A configuration error as a mathematical value.
pub enum ConfigErrorView {
    InvalidUrl,
    UnknownScheme(Seq<char>),
}

impl View for ConfigError {
    type V = ConfigErrorView;

    open spec fn view(&self) -> ConfigErrorView {
        match self {
            ConfigError::InvalidUrl => ConfigErrorView::InvalidUrl,
            ConfigError::UnknownScheme(scheme) => ConfigErrorView::UnknownScheme(scheme@),
        }
    }
}

/// A plan as a mathematical value.
pub enum PlanView {
    NoData,
    LoadOnce(SourceView),
    LoadAndRefresh(SourceView, Duration),
}

impl View for LookupPlan {
    type V = PlanView;

    open spec fn view(&self) -> PlanView {
        match self {
            LookupPlan::NoData => PlanView::NoData,
            LookupPlan::LoadOnce(source) => PlanView::LoadOnce(source@),
            LookupPlan::LoadAndRefresh(source, period) => PlanView::LoadAndRefresh(
                source@,
                *period,
            ),
        }
    }
}

/// Whether downloads are made from URLs of this scheme.
pub open spec fn spec_known_scheme(scheme: Seq<char>) -> bool {
    scheme == "http"@ || scheme == "https"@
}

/// The source that a URL stands for, given the scheme that the URL has: a
/// download for the schemes `http` and `https`. A text that is no URL has no
/// scheme and is turned down, and so is every other scheme.
pub open spec fn spec_source_for_url(
    url: Seq<char>,
    scheme: Option<Seq<char>>,
    auth: LookupDataAuth,
) -> Result<SourceView, ConfigErrorView> {
    match scheme {
        None => Err(ConfigErrorView::InvalidUrl),
        Some(s) => if spec_known_scheme(s) {
            Ok(SourceView::Http { url, auth })
        } else {
            Err(ConfigErrorView::UnknownScheme(s))
        },
    }
}

/// The source of lookup data that a configuration names, if it names one.
pub open spec fn spec_lookup_data_source(config: LoadLookupDataConfig) -> Result<
    Option<SourceView>,
    ConfigErrorView,
> {
    match config.lookup_data {
        None => Ok(None),
        Some(Data::File(path)) => Ok(Some(SourceView::File(path@))),
        Some(Data::Url(url)) => match spec_source_for_url(
            url@,
            spec_url_scheme(url@),
            config.lookup_data_auth,
        ) {
            Ok(source) => Ok(Some(source)),
            Err(error) => Err(error),
        },
    }
}

/// What is to be done about the lookup data at startup: nothing without a
/// source, else a first load, and further loads where the configuration has a
/// period.
pub open spec fn spec_lookup_plan(config: LoadLookupDataConfig) -> Result<
    PlanView,
    ConfigErrorView,
> {
    match spec_lookup_data_source(config) {
        Ok(None) => Ok(PlanView::NoData),
        Ok(Some(source)) => match config.lookup_data_download_period {
            Some(period) => Ok(PlanView::LoadAndRefresh(source, period)),
            None => Ok(PlanView::LoadOnce(source)),
        },
        Err(error) => Err(error),
    }
}

/// The source that a URL with the given scheme stands for. A text that is no
/// URL and a scheme other than `http` and `https` are turned down.
pub fn source_for_url(url: &str, scheme: Option<String>, auth: LookupDataAuth) -> (source: Result<
    LookupDataSource,
    ConfigError,
>)
    ensures
        match spec_source_for_url(
            url@,
            match scheme {
                Some(s) => Some(s@),
                None => None,
            },
            auth,
        ) {
            Ok(expected) => source matches Ok(found) && found@ == expected,
            Err(expected) => source matches Err(error) && error@ == expected,
        },
{
    match scheme {
        None => Err(ConfigError::InvalidUrl),
        Some(s) => {
            let http = String::from_str("http");
            let https = String::from_str("https");
            if s == http || s == https {
                Ok(LookupDataSource::Http { url: String::from_str(url), auth })
            } else {
                Err(ConfigError::UnknownScheme(s))
            }
        },
    }
}

/// The source of lookup data that a configuration names, if it names one.
pub fn lookup_data_source(config: &LoadLookupDataConfig) -> (source: Result<
    Option<LookupDataSource>,
    ConfigError,
>)
    ensures
        match spec_lookup_data_source(*config) {
            Ok(Some(expected)) => source matches Ok(Some(found)) && found@ == expected,
            Ok(None) => source matches Ok(None),
            Err(expected) => source matches Err(error) && error@ == expected,
        },
{
    match &config.lookup_data {
        Some(Data::Url(url_string)) => {
            let scheme = url_scheme(url_string.as_str());
            match source_for_url(url_string.as_str(), scheme, config.lookup_data_auth) {
                Ok(source) => Ok(Some(source)),
                Err(error) => Err(error),
            }
        },
        Some(Data::File(path)) => Ok(Some(LookupDataSource::File(path.clone()))),
        None => Ok(None),
    }
}

/// What is to be done about the lookup data at startup: nothing without a
/// source, else a first load, and further loads where the configuration has a
/// period.
pub fn lookup_plan(config: &LoadLookupDataConfig) -> (plan: Result<LookupPlan, ConfigError>)
    ensures
        match spec_lookup_plan(*config) {
            Ok(expected) => plan matches Ok(found) && found@ == expected,
            Err(expected) => plan matches Err(error) && error@ == expected,
        },
{
    match lookup_data_source(config) {
        Ok(Some(source)) => match config.lookup_data_download_period {
            Some(period) => Ok(LookupPlan::LoadAndRefresh(source, period)),
            None => Ok(LookupPlan::LoadOnce(source)),
        },
        Ok(None) => Ok(LookupPlan::NoData),
        Err(error) => Err(error),
    }
}

} // verus!
