use cata_rust::open_url_outcome;
use cata_rust::BridgeError;
use cata_rust::Dispatch;

fn open_with(platform: impl FnOnce(&str) -> Dispatch, url: &str) -> Result<(), BridgeError> {
    open_url_outcome(platform(url))
}

#[test]
fn opened_is_success() {
    assert_eq!(open_url_outcome(Dispatch::Opened), Ok(()));
}

#[test]
fn refused_is_a_launch_error() {
    assert_eq!(open_url_outcome(Dispatch::Refused), Err(BridgeError::Launch));
}

#[test]
fn platform_without_browser() {
    let mut asked: Vec<String> = Vec::new();
    let answer = open_with(
        |url| {
            asked.push(url.to_string());
            Dispatch::Refused
        },
        "https://example.com",
    );
    assert_eq!(answer, Err(BridgeError::Launch));
    assert_eq!(asked, vec!["https://example.com".to_string()]);
}

#[test]
fn platform_with_browser() {
    let mut asked: Vec<String> = Vec::new();
    let answer = open_with(
        |url| {
            asked.push(url.to_string());
            Dispatch::Opened
        },
        "https://example.com",
    );
    assert_eq!(answer, Ok(()));
    assert_eq!(asked, vec!["https://example.com".to_string()]);
}
