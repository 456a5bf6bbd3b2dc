use bedrock_updater::error::BedrockUpdaterError;
use bedrock_updater::link::{extract_download_link, find_download_link};

const SELECTOR: &str = "a.downloadlink[data-platform=serverBedrockLinux]";

fn page(body: &str) -> String {
    format!("<html><head></head><body>{}</body></html>", body)
}

#[test]
fn extract_no_element() {
    let hrefs: Vec<Option<String>> = vec![];
    assert_eq!(extract_download_link(&hrefs), Err(BedrockUpdaterError::NoDownloadElement));
}

#[test]
fn extract_too_many_elements() {
    let hrefs = vec![Some("a".to_string()), Some("b".to_string())];
    assert_eq!(extract_download_link(&hrefs), Err(BedrockUpdaterError::TooManyDownloadElements));
}

#[test]
fn extract_missing_attr() {
    let hrefs: Vec<Option<String>> = vec![None];
    assert_eq!(extract_download_link(&hrefs), Err(BedrockUpdaterError::NoDownloadLinkAttr));
}

#[test]
fn extract_single_link() {
    let hrefs = vec![Some("https://example.com/a.zip".to_string())];
    assert_eq!(extract_download_link(&hrefs), Ok("https://example.com/a.zip".to_string()));
}

#[test]
fn find_single_download_link() {
    let html = page(
        "<a class=\"downloadlink\" data-platform=\"serverBedrockLinux\" \
         href=\"https://example.com/bin/bedrock-server-linux-x64-1.21.0.3.zip\">download</a>",
    );
    let reference = find_download_link(&html, SELECTOR).unwrap();
    assert_eq!(reference.url, "https://example.com/bin/bedrock-server-linux-x64-1.21.0.3.zip");
    assert_eq!(reference.path, "/bin/bedrock-server-linux-x64-1.21.0.3.zip");
}

#[test]
fn find_ignores_other_platforms() {
    let html = page(
        "<a class=\"downloadlink\" data-platform=\"serverBedrockWindows\" \
         href=\"https://example.com/win.zip\">win</a>\
         <a class=\"downloadlink\" data-platform=\"serverBedrockLinux\" \
         href=\"https://example.com/linux.zip\">linux</a>",
    );
    let reference = find_download_link(&html, SELECTOR).unwrap();
    assert_eq!(reference.url, "https://example.com/linux.zip");
}

#[test]
fn find_no_element() {
    let html = page("<a class=\"otherlink\" href=\"https://example.com/a.zip\">x</a>");
    let r = find_download_link(&html, SELECTOR);
    assert!(matches!(r, Err(BedrockUpdaterError::NoDownloadElement)));
}

#[test]
fn find_too_many_elements() {
    let html = page(
        "<a class=\"downloadlink\" data-platform=\"serverBedrockLinux\" \
         href=\"https://example.com/a.zip\">a</a>\
         <a class=\"downloadlink\" data-platform=\"serverBedrockLinux\" \
         href=\"https://example.com/b.zip\">b</a>",
    );
    let r = find_download_link(&html, SELECTOR);
    assert!(matches!(r, Err(BedrockUpdaterError::TooManyDownloadElements)));
}

#[test]
fn find_missing_href() {
    let html = page(
        "<a class=\"downloadlink\" data-platform=\"serverBedrockLinux\">download</a>",
    );
    let r = find_download_link(&html, SELECTOR);
    assert!(matches!(r, Err(BedrockUpdaterError::NoDownloadLinkAttr)));
}

#[test]
fn find_unparseable_url() {
    let html = page(
        "<a class=\"downloadlink\" data-platform=\"serverBedrockLinux\" \
         href=\"not a url\">download</a>",
    );
    let r = find_download_link(&html, SELECTOR);
    assert!(matches!(r, Err(BedrockUpdaterError::CannotParseUrl)));
}

#[test]
fn find_bad_selector() {
    let html = page("<a href=\"https://example.com/a.zip\">x</a>");
    let r = find_download_link(&html, "][not-a-selector");
    assert!(matches!(r, Err(BedrockUpdaterError::SelectorParseError)));
}

#[test]
fn path_excludes_query_parameters() {
    // Version-like substrings in the query must not reach version
    // extraction: only the path component is kept.
    let html = page(
        "<a class=\"downloadlink\" data-platform=\"serverBedrockLinux\" \
         href=\"https://example.com/srv-1.20.0.1.zip?candidate=9.9.9.9\">download</a>",
    );
    let reference = find_download_link(&html, SELECTOR).unwrap();
    assert_eq!(reference.path, "/srv-1.20.0.1.zip");
    assert!(!reference.path.contains("9.9.9.9"));
}
