use cata_rust::canonical::is_canonical;
use cata_rust::canonical::surface;
use cata_rust::encode_url;
use cata_rust::BridgeError;
use url::ParseError;
use url::Url;

fn encoded(text: &str) -> Result<String, BridgeError> {
    encode_url(text.to_string())
}

#[test]
fn scheme_and_host_are_lower_cased() {
    assert_eq!(
        encoded("HTTPS://Example.com/Path"),
        Ok("https://example.com/Path".to_string())
    );
}

#[test]
fn empty_path_becomes_slash() {
    assert_eq!(encoded("https://example.com"), Ok("https://example.com/".to_string()));
}

#[test]
fn default_port_is_dropped() {
    assert_eq!(encoded("https://example.com:443/a"), Ok("https://example.com/a".to_string()));
    assert_eq!(encoded("http://example.com:8080/a"), Ok("http://example.com:8080/a".to_string()));
}

#[test]
fn dot_segments_are_resolved() {
    assert_eq!(encoded("http://example.com/a/./b/../c"), Ok("http://example.com/a/c".to_string()));
}

#[test]
fn unsafe_characters_are_escaped() {
    assert_eq!(
        encoded("https://example.com/a b?q=x y#f g"),
        Ok("https://example.com/a%20b?q=x%20y#f%20g".to_string())
    );
    assert_eq!(
        encoded("https://example.com/\u{e9}"),
        Ok("https://example.com/%C3%A9".to_string())
    );
}

#[test]
fn surrounding_whitespace_is_dropped() {
    assert_eq!(encoded("  https://example.com/  "), Ok("https://example.com/".to_string()));
}

#[test]
fn text_without_scheme_is_refused() {
    assert_eq!(encoded("not a url"), Err(BridgeError::Parse));
    assert_eq!(encoded(""), Err(BridgeError::Parse));
    assert_eq!(encoded("/just/a/path"), Err(BridgeError::Parse));
    assert_eq!(encoded("example.com"), Err(BridgeError::Parse));
    assert_eq!(encoded("//example.com/"), Err(BridgeError::Parse));
}

#[test]
fn malformed_authority_is_refused() {
    assert_eq!(encoded("https://"), Err(BridgeError::Parse));
    assert_eq!(encoded("http://[::1"), Err(BridgeError::Parse));
    assert_eq!(encoded("http://example.com:99999/"), Err(BridgeError::Parse));
    assert_eq!(encoded("http://exa mple.com/"), Err(BridgeError::Parse));
}

#[test]
fn encoding_twice_changes_nothing_for_these() {
    let inputs = [
        "HTTPS://Example.com/Path",
        "https://example.com",
        "http://user:pw@Example.COM:80/a/../b/./c?x=1&y=2#frag",
        "https://example.com/a b?q=x y#f g",
        "https://example.com/%7Euser/%zz?%41",
        "https://xn--nxasmq6b.example/",
        "https://\u{4f8b}\u{3048}.jp/\u{30d1}\u{30b9}?\u{30af}=\u{30a8}#\u{30d5}",
        "http://192.168.000.001/",
        "http://0x7f.1/",
        "http://[2001:DB8::1]:8080/",
        "file:///C:/Users/x/../y",
        "file://localhost/etc/hosts",
        "mailto:Someone@Example.com?subject=a b",
        "data:text/plain,Hello World  #f",
        "data:text/plain,Hello World  ",
        "urn:isbn:0451450523",
        "web+demo:/.//not-a-host/",
        "web+demo:/..//not-a-host/",
        "foo://host/a//b/../..//c",
        "foo:////",
        "foo:/.//",
        "ws://example.com/chat?x#",
        "https://example.com/?",
        "https://example.com/#",
        "https://example.com?#",
        "ftp://ftp.example.com:21/pub/",
        "javascript:alert('x y')",
        "blob:https://example.com/550e8400",
        "http://example.com/\t\n path",
        "http://EXAMPLE.com./a",
        "http://a/b/c/%2e%2e/%2E/d",
        "non-special://h:0/p",
        "sc://\u{f1}/",
        "a:\t b",
    ];
    for input in inputs {
        let once = encoded(input);
        let text = once.clone().expect(input);
        assert_eq!(encoded(&text), once, "for {}", input);
        assert!(is_canonical(&text), "for {}", input);
    }
}

#[test]
fn encoding_twice_changes_nothing_for_these_assembled_inputs() {
    let schemes = ["http", "HTTPS", "ftp", "file", "ws", "foo", "mailto", "data", "a+b.c-d"];
    let seps = [":", "://", ":/", ":///", ":////"];
    let hosts = [
        "", "example.com", "EXAMPLE.com.", "u:p@h", "u@h:8", "[::1]", "[::ffff:1.2.3.4]:1", "1.2.3.4",
        "0x10.1", "h:80", "h:443", "\u{e9}.fr", "a%41b", "a%2eb", "h:", "@h", ":@h", "C:", "c|",
    ];
    let paths = [
        "", "/", "/a", "/a/", "/.", "/..", "/./", "/a/../..", "//", "/.//x", "/..//x", "/%2e", "/%2E%2e/y",
        "/a b", "/a\tb", "/\u{e9}", "/C:/x", "/c|/x", "\\a\\b", "/a\\..\\b", "/ ", " ", "/~", "/%",
        "/%zz", "/a;b=c", "/{}", "/\"<>`", "/^",
    ];
    let tails = ["", "?", "?q", "?a=b&c=d", "? x", "?'", "?#", "#", "#f", "# f", "?q#f", "#%zz", "?\u{e9}#\u{e9}", "  ", "?a  ", "#a  "];
    let mut parsed = 0;
    for scheme in schemes {
        for sep in seps {
            for host in hosts {
                for path in paths {
                    for tail in tails {
                        let input = format!("{}{}{}{}{}", scheme, sep, host, path, tail);
                        if let Ok(once) = encoded(&input) {
                            parsed += 1;
                            assert_eq!(encoded(&once), Ok(once.clone()), "for {:?}", input);
                        }
                    }
                }
            }
        }
    }
    assert!(parsed > 10000);
}

#[test]
fn canonical_texts_are_recognised() {
    assert!(is_canonical("https://example.com/"));
    assert!(is_canonical("https://example.com/Path?q=1#f"));
    assert!(!is_canonical("https://example.com"));
    assert!(!is_canonical("HTTPS://Example.com/Path"));
    assert!(!is_canonical("not a url"));
    assert!(!is_canonical(""));
}

#[test]
fn parser_answers_are_surfaced() {
    assert_eq!(surface(Ok("x".to_string()), BridgeError::Parse), Ok("x".to_string()));
    assert_eq!(
        surface(Err(ParseError::RelativeUrlWithoutBase), BridgeError::Parse),
        Err(BridgeError::Parse)
    );
    assert_eq!(
        surface(Err(ParseError::EmptyHost), BridgeError::Construction),
        Err(BridgeError::Construction)
    );
    assert_eq!(
        surface(Url::parse("HTTP://A/").map(String::from), BridgeError::Parse),
        Ok("http://a/".to_string())
    );
}

#[test]
fn errors_are_told_apart() {
    assert_ne!(BridgeError::Parse, BridgeError::Launch);
    assert_ne!(BridgeError::Parse, BridgeError::Construction);
    assert_ne!(BridgeError::Launch, BridgeError::Construction);
    assert_eq!(format!("{:?}", BridgeError::Parse), "Parse");
}

#[test]
fn host_before_doubled_slash_and_drive_letter() {
    let once = encoded("file://host//C:/");
    assert_eq!(once, Ok("file://host/C:/".to_string()));
    assert!(!is_canonical("file://host/C:/"));
    let twice = encoded("file://host/C:/");
    assert_eq!(twice, Ok("file:///C:/".to_string()));
    assert_ne!(twice, once);
    assert!(is_canonical("file:///C:/"));
    assert_eq!(encoded("file:///C:/"), twice);
}

#[test]
fn answers_that_are_canonical_stay() {
    let inputs = [
        "HTTPS://Example.com/Path",
        "file://host//C:/",
        "file://host/C:/",
        "file://host//c|/x?q#f",
        "http://host//C:/",
    ];
    for input in inputs {
        let once = encoded(input).unwrap();
        if is_canonical(&once) {
            assert_eq!(encoded(&once), Ok(once.clone()), "for {}", input);
        } else {
            assert_ne!(encoded(&once), Ok(once.clone()), "for {}", input);
        }
    }
}
