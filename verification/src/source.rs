//! From the URL of a source repository to the name of the extension.
//!
//! The URL is parsed by the `url` crate. Of what it finds, the rules read
//! the host, which must be the supported code-hosting provider, and the path,
//! whose second segment is the name of the repository and of the extension.

use crate::error::Error;
use crate::path::{
    lemma_second_segment_has_no_slash, lemma_second_segment_is_repository, path_segments,
    second_segment, second_segment_of,
};
use vstd::prelude::*;
use vstd::string::*;

verus! {

/// The one code-hosting provider from which extensions are installed.
pub const SUPPORTED_HOST: &'static str = "github.com";

/// What the rules read of a parsed URL.
#[derive(Debug)]
pub struct UrlParts {
    /// The host, where the URL has one.
    pub host: Option<String>,
    /// The path.
    pub path: String,
}

/// A parsed URL as mathematical values.
pub struct UrlPartsView {
    pub host: Option<Seq<char>>,
    pub path: Seq<char>,
}

impl View for UrlParts {
    type V = UrlPartsView;

    open spec fn view(&self) -> UrlPartsView {
        UrlPartsView {
            host: match self.host {
                Some(host) => Some(host@),
                None => None,
            },
            path: self.path@,
        }
    }
}

/// The error of the `url` crate's parser.
#[verifier::external_type_specification]
#[verifier::external_body]
pub struct ExParseError(url::ParseError);

/// Host and path of the URL that `url::Url::parse` makes of a text, or `None`
/// where it refuses the text.
pub uninterp spec fn parsed_url(input: Seq<char>) -> Option<UrlPartsView>;

/// Parses `input` with `url::Url::parse` and reads the result's `host_str`
/// and `path`. The parser is a function of the text alone, and what it
/// returns goes by the name `parsed_url`; nothing more is claimed of it.
#[verifier::external_body]
fn parse_url(input: &str) -> (parsed: Result<UrlParts, url::ParseError>)
    ensures
        match parsed {
            Ok(parts) => parsed_url(input@) == Some(parts@),
            Err(_) => parsed_url(input@) is None,
        },
{
    let url = url::Url::parse(input)?;
    Ok(UrlParts { host: url.host_str().map(String::from), path: String::from(url.path()) })
}

/// The name that a parsed URL gives: the second segment of its path, if its
/// host is the supported one. An empty segment names no repository.
pub open spec fn name_of_parts(parts: UrlPartsView) -> Result<Seq<char>, Error> {
    if parts.host != Some(SUPPORTED_HOST@) {
        Err(Error::UnsupportedHost)
    } else {
        match second_segment(parts.path) {
            Some(name) => if name.len() > 0 {
                Ok(name)
            } else {
                Err(Error::MissingRepositoryName)
            },
            None => Err(Error::MissingRepositoryName),
        }
    }
}

/// The name that a URL gives, from what the parser made of it.
pub open spec fn derived_name(parsed: Option<UrlPartsView>) -> Result<Seq<char>, Error> {
    match parsed {
        Some(parts) => name_of_parts(parts),
        None => Err(Error::MalformedUrl),
    }
}

/// The name of the extension that a parsed URL points to.
///
/// The host is tested first: a URL with another host, or with none, is
/// refused as `UnsupportedHost` whatever its path. The second segment is
/// returned as it stands in the path; where the path has none, or an empty
/// one, the URL is refused as `MissingRepositoryName`.
pub fn name_from_parts(parts: &UrlParts) -> (name: Result<String, Error>)
    ensures
        match name {
            Ok(n) => name_of_parts(parts@) == Ok::<Seq<char>, Error>(n@),
            Err(e) => name_of_parts(parts@) == Err::<Seq<char>, Error>(e),
        },
{
    let supported = match &parts.host {
        Some(host) => *host == SUPPORTED_HOST.to_owned(),
        None => false,
    };
    if !supported {
        return Err(Error::UnsupportedHost);
    }
    match second_segment_of(parts.path.as_str()) {
        Some(name) => if name.as_str().is_empty() {
            Err(Error::MissingRepositoryName)
        } else {
            Ok(name)
        },
        None => Err(Error::MissingRepositoryName),
    }
}

/// The name of the extension that the repository at `url` holds.
pub fn derive_name(url: &str) -> (name: Result<String, Error>)
    ensures
        match name {
            Ok(n) => derived_name(parsed_url(url@)) == Ok::<Seq<char>, Error>(n@),
            Err(e) => derived_name(parsed_url(url@)) == Err::<Seq<char>, Error>(e),
        },
{
    match parse_url(url) {
        Ok(parts) => name_from_parts(&parts),
        Err(_) => Err(Error::MalformedUrl),
    }
}

/// A URL on the supported host whose path is `/`, an owner, `/` and a
/// repository, with or without more segments behind, gives the repository as
/// its name, exactly as it stands in the path.
pub proof fn lemma_repository_url_gives_repository(
    owner: Seq<char>,
    repository: Seq<char>,
    rest: Seq<char>,
)
    requires
        !owner.contains('/'),
        !repository.contains('/'),
        repository.len() > 0,
    ensures
        name_of_parts(
            UrlPartsView {
                host: Some(SUPPORTED_HOST@),
                path: seq!['/'] + owner + seq!['/'] + repository,
            },
        ) == Ok::<Seq<char>, Error>(repository),
        name_of_parts(
            UrlPartsView {
                host: Some(SUPPORTED_HOST@),
                path: seq!['/'] + owner + seq!['/'] + repository + seq!['/'] + rest,
            },
        ) == Ok::<Seq<char>, Error>(repository),
{
    lemma_second_segment_is_repository(owner, repository, rest);
}

/// A URL with another host than the supported one, or with none, is refused
/// as `UnsupportedHost`, whatever its path.
pub proof fn lemma_other_host_is_unsupported(parts: UrlPartsView)
    requires
        parts.host != Some(SUPPORTED_HOST@),
    ensures
        name_of_parts(parts) == Err::<Seq<char>, Error>(Error::UnsupportedHost),
{
}

/// A URL on the supported host whose path has fewer than two segments, or
/// an empty second one, is refused as `MissingRepositoryName`.
pub proof fn lemma_short_path_misses_repository(parts: UrlPartsView)
    requires
        parts.host == Some(SUPPORTED_HOST@),
        match path_segments(parts.path) {
            Some(segments) => segments.len() < 2 || segments[1].len() == 0,
            None => true,
        },
    ensures
        name_of_parts(parts) == Err::<Seq<char>, Error>(Error::MissingRepositoryName),
{
}

/// A text that the parser refuses gives `MalformedUrl`, and no other input
/// does.
pub proof fn lemma_malformed_iff_unparsed(parsed: Option<UrlPartsView>)
    ensures
        derived_name(parsed) == Err::<Seq<char>, Error>(Error::MalformedUrl) <==> parsed is None,
{
}

/// A name that a URL gives is not empty and holds no `/`: it can stand as one
/// component of a path.
pub proof fn lemma_name_is_one_component(parsed: Option<UrlPartsView>)
    requires
        derived_name(parsed) is Ok,
    ensures
        derived_name(parsed)->Ok_0.len() > 0,
        !derived_name(parsed)->Ok_0.contains('/'),
{
    lemma_second_segment_has_no_slash(parsed->Some_0.path);
}

} // verus!
