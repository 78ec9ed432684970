use page_resolver::cache::derive_key;
use page_resolver::classifier::{classify, is_spa, looks_like_app_shell, Classification};

#[test]
fn plain_markup_is_static() {
    assert_eq!(classify("<html><body>Hi</body></html>"), Classification::Static);
}

#[test]
fn inline_fetch_is_dynamic() {
    assert_eq!(classify("<script>fetch('/api')</script>"), Classification::Dynamic);
}

#[test]
fn each_signature_alone_is_dynamic() {
    assert_eq!(classify("x.fetch(y)"), Classification::Dynamic);
    assert_eq!(classify("new XMLHttpRequest()"), Classification::Dynamic);
    assert_eq!(classify("window.__INITIAL_STATE__ = {}"), Classification::Dynamic);
}

#[test]
fn near_misses_are_static() {
    assert_eq!(classify("fetch the data"), Classification::Static);
    assert_eq!(classify("XMLHttp Request"), Classification::Static);
    assert_eq!(classify("window.__INITIAL_STATE_"), Classification::Static);
    assert_eq!(classify(""), Classification::Static);
}

#[test]
fn classification_repeats_on_same_input() {
    let pages = ["<p>a</p>", "<script>fetch('/x')</script>", "", "XMLHttpRequest"];
    for p in pages.iter() {
        assert_eq!(classify(p), classify(p));
        assert_eq!(is_spa(p), is_spa(p));
    }
}

#[test]
fn is_spa_matches_classify() {
    assert!(is_spa("<script>fetch('/api')</script>"));
    assert!(!is_spa("<html><body>Hi</body></html>"));
}

#[test]
fn app_shell_markers() {
    assert!(looks_like_app_shell("<div id=app></div><script src=\"/app.js\"></script>"));
    assert!(looks_like_app_shell("ReactDOM.render(<App/>)"));
    assert!(looks_like_app_shell("<script id=\"next-data\">"));
    assert!(looks_like_app_shell("ng-app angular"));
    assert!(looks_like_app_shell("powered by vuejs"));
    assert!(looks_like_app_shell("window.__INITIAL_STATE__={}"));
    assert!(!looks_like_app_shell("<html><body><p>plain</p></body></html>"));
}

#[test]
fn cache_key_prefixes_method() {
    assert_eq!(derive_key("https://a.com/x"), "GET:https://a.com/x");
    assert_eq!(derive_key(""), "GET:");
}
