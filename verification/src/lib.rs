//! Core logic of a link checker: status-code selection, URL and link
//! resolution, bases, requests, file types, text fragments and error
//! explanations.
mod accept;
mod address;
mod anti_bot;
mod base;
mod diagnosis;
mod error;
mod exclude;
mod files;
pub mod fragment_directive;
mod hints;
mod input;
mod mail;
mod methods;
pub mod fragment_checker;
pub mod parsed_fragment;
mod paths;
mod preprocessor;
mod redirects;
mod remap;
mod request;
mod request_builder;
mod sitemap;
mod source;
mod spans;
mod status;
mod status_code;
mod text;
pub mod text_fragments;
mod uri;
mod wikilink;
mod windows_path;

pub use accept::{AcceptRange, AcceptRangeError, AcceptSelector, AcceptSelectorError};
pub use address::{AbsoluteUrl, Host, UrlParseError};
pub use anti_bot::{detect_software, hint_bot_detection, AntiBotSoftware};
pub use base::{parse_url_or_path, Base, BaseInfo};
pub use diagnosis::{
    analyze_basic_reqwest_error, analyze_certificate_error, analyze_error_chain,
    analyze_error_source_chain, analyze_generic_error_string, analyze_hyper_error,
    analyze_io_error, analyze_io_other_error, analyze_url_parse_error, fallback_reqwest_analysis,
    ErrorCause, ErrorRule, ErrorRules, HyperErrorInfo, IoErrorKind, RequestFailure,
};
pub use error::{ErrorKind, InternalError, UriError};
pub use exclude::{ExcludeReason, MarkdownFlavor};
pub use fragment_directive::TextFragmentStatus;
pub use files::{is_url, valid_extension, FileExtensions, FileType};
pub use hints::{Hint, Hints};
pub use input::{
    ContentStep, DiscoveredContent, Input, InputContent, InputResolver, InputSource, ResolveStep,
    SourceStep,
};
pub use mail::{error_from_output, MailCheckOutput, Reachable};
pub use methods::{Methods, MethodsError};
pub use paths::{absolute_path, is_absolute, join_path, resolve};
pub use preprocessor::{Preprocessor, RootDir};
pub use redirects::{Redirect, RedirectHistory, Redirects};
pub use remap::{RemapHistory, Remapping};
pub use request::{
    BasicAuthCredentials, BasicAuthCredentialsParseError, BasicAuthSelectorParseError,
    BasicAuthSelector, RawBasicAuthSelector, Request,
};
pub use request_builder::{
    create, create_request, create_uri_from_file_path, error_uri, is_anchor,
    prepend_root_dir_if_absolute_local_link, remove_get_params_and_separate_fragment,
    resolve_and_create_url, try_parse_into_uri, RequestError,
};
pub use sitemap::{Sitemap, SitemapEntity};
pub use source::{file_source_url_of, ResolvedInputSource};
pub use spans::{span, span_line, OffsetSpanProvider, SourceSpanProvider};
pub use status::{CacheStatus, Status, StatusSummary};
pub use status_code::{
    default_accepted_status_codes, status_codes_of, HttpStatusCode, StatusCodeExcluder, StatusCodeSelector,
    StatusCodeSelectorError,
};
pub use text::chars_of;
pub use wikilink::WikilinkChecker;
pub use windows_path::WindowsPath;
pub use uri::{
    is_root_relative_link, GithubUri, ParsedUri, RawUri, RawUriSpan, RelativeUri, Uri, UriKind,
};
