use just_self::error::Error;
use just_self::path::second_segment_of;
use just_self::source::{derive_name, name_from_parts, UrlParts, SUPPORTED_HOST};

fn parts(host: Option<&str>, path: &str) -> UrlParts {
    UrlParts { host: host.map(String::from), path: String::from(path) }
}

#[test]
fn scenario_widget_url_gives_widget() {
    assert_eq!(derive_name("https://github.com/acme/widget"), Ok("widget".to_string()));
}

#[test]
fn scenario_other_provider_is_unsupported() {
    assert_eq!(derive_name("https://gitlab.com/acme/widget"), Err(Error::UnsupportedHost));
}

#[test]
fn repository_is_the_second_segment() {
    assert_eq!(derive_name("https://github.com/acme/widget/"), Ok("widget".to_string()));
    assert_eq!(derive_name("https://github.com/acme/widget/tree/main"), Ok("widget".to_string()));
    assert_eq!(derive_name("https://github.com/acme/widget?tab=readme#top"), Ok("widget".to_string()));
    assert_eq!(derive_name("http://github.com/a/b"), Ok("b".to_string()));
}

#[test]
fn repository_is_returned_as_the_parser_leaves_it() {
    assert_eq!(derive_name("https://github.com/acme/widget.git"), Ok("widget.git".to_string()));
    assert_eq!(derive_name("https://github.com/acme/my repo"), Ok("my%20repo".to_string()));
}

#[test]
fn host_is_compared_as_the_parser_leaves_it() {
    assert_eq!(derive_name("HTTPS://GitHub.COM/acme/widget"), Ok("widget".to_string()));
    assert_eq!(derive_name("https://user@github.com:443/acme/widget"), Ok("widget".to_string()));
}

#[test]
fn other_hosts_are_unsupported() {
    assert_eq!(derive_name("https://www.github.com/acme/widget"), Err(Error::UnsupportedHost));
    assert_eq!(derive_name("https://github.com.example.org/acme/widget"), Err(Error::UnsupportedHost));
    assert_eq!(derive_name("https://127.0.0.1/acme/widget"), Err(Error::UnsupportedHost));
    assert_eq!(derive_name("https://gitlab.com/acme"), Err(Error::UnsupportedHost));
}

#[test]
fn urls_without_host_are_unsupported() {
    assert_eq!(derive_name("mailto:someone@github.com"), Err(Error::UnsupportedHost));
    assert_eq!(derive_name("data:text/plain,github.com/acme/widget"), Err(Error::UnsupportedHost));
}

#[test]
fn short_paths_miss_the_repository() {
    assert_eq!(derive_name("https://github.com"), Err(Error::MissingRepositoryName));
    assert_eq!(derive_name("https://github.com/"), Err(Error::MissingRepositoryName));
    assert_eq!(derive_name("https://github.com/acme"), Err(Error::MissingRepositoryName));
    assert_eq!(derive_name("https://github.com/acme?x=/y"), Err(Error::MissingRepositoryName));
}

#[test]
fn empty_second_segment_names_no_repository() {
    assert_eq!(derive_name("https://github.com/acme/"), Err(Error::MissingRepositoryName));
    assert_eq!(derive_name("https://github.com/acme//widget"), Err(Error::MissingRepositoryName));
    assert_eq!(derive_name("https://github.com//"), Err(Error::MissingRepositoryName));
}

#[test]
fn unparsable_text_is_malformed() {
    assert_eq!(derive_name(""), Err(Error::MalformedUrl));
    assert_eq!(derive_name("not a url"), Err(Error::MalformedUrl));
    assert_eq!(derive_name("github.com/acme/widget"), Err(Error::MalformedUrl));
    assert_eq!(derive_name("https://"), Err(Error::MalformedUrl));
    assert_eq!(derive_name("../acme/widget"), Err(Error::MalformedUrl));
}

#[test]
fn parsed_parts_give_the_name() {
    assert_eq!(SUPPORTED_HOST, "github.com");
    assert_eq!(name_from_parts(&parts(Some("github.com"), "/acme/widget")), Ok("widget".to_string()));
    assert_eq!(name_from_parts(&parts(Some("github.com"), "/acme/widget/x/y")), Ok("widget".to_string()));
    assert_eq!(name_from_parts(&parts(Some("github.com"), "/acme//y")), Err(Error::MissingRepositoryName));
}

#[test]
fn parsed_parts_are_refused_host_first() {
    assert_eq!(name_from_parts(&parts(Some("gitlab.com"), "/acme/widget")), Err(Error::UnsupportedHost));
    assert_eq!(name_from_parts(&parts(Some("gitlab.com"), "/")), Err(Error::UnsupportedHost));
    assert_eq!(name_from_parts(&parts(None, "/acme/widget")), Err(Error::UnsupportedHost));
    assert_eq!(name_from_parts(&parts(Some("github.com"), "/acme")), Err(Error::MissingRepositoryName));
    assert_eq!(name_from_parts(&parts(Some("github.com"), "acme/widget")), Err(Error::MissingRepositoryName));
    assert_eq!(name_from_parts(&parts(Some("github.com"), "")), Err(Error::MissingRepositoryName));
}

#[test]
fn second_segment_of_paths() {
    assert_eq!(second_segment_of("/a/b"), Some("b".to_string()));
    assert_eq!(second_segment_of("/a/b/c"), Some("b".to_string()));
    assert_eq!(second_segment_of("/a/"), Some(String::new()));
    assert_eq!(second_segment_of("//"), Some(String::new()));
    assert_eq!(second_segment_of("//b"), Some("b".to_string()));
    assert_eq!(second_segment_of("/é/ü/x"), Some("ü".to_string()));
    assert_eq!(second_segment_of("/a"), None);
    assert_eq!(second_segment_of("/"), None);
    assert_eq!(second_segment_of(""), None);
    assert_eq!(second_segment_of("a/b"), None);
}
