use vstd::prelude::*;
use crate::text::{char_vec, contains_chars, seq_contains};

verus! {

/// Whether a page can be read from its markup or needs script execution.
#[derive(Clone, Copy, Debug, PartialEq, Eq, Structural)]
pub enum Classification {
    Static,
    Dynamic,
}

/// The markup issues a network call, an XHR, or carries injected initial state.
pub open spec fn has_dynamic_signature(h: Seq<char>) -> bool {
    seq_contains(h, "fetch("@) || seq_contains(h, "XMLHttpRequest"@) || seq_contains(
        h,
        "window.__INITIAL_STATE__"@,
    )
}

pub open spec fn classification_of(h: Seq<char>) -> Classification {
    if has_dynamic_signature(h) {
        Classification::Dynamic
    } else {
        Classification::Static
    }
}

/// The landing page of a site shows one of the markers of a client-rendered
/// application: injected state, a React or Vue or Angular bootstrap, Next.js
/// data, or an external script.
pub open spec fn has_app_shell_marker(h: Seq<char>) -> bool {
    ||| seq_contains(h, "window.__INITIAL_STATE__"@)
    ||| seq_contains(h, "ReactDOM.render"@)
    ||| seq_contains(h, "vuejs"@)
    ||| seq_contains(h, "angular"@)
    ||| seq_contains(h, "next-data"@)
    ||| seq_contains(h, "<script src="@)
}

fn chars_contain(h: &Vec<char>, p: &str) -> (r: bool)
    ensures
        r == seq_contains(h@, p@),
{
    let pv = char_vec(p);
    contains_chars(h, &pv)
}

/// Whether the page shows a signature of client-side rendering.
pub fn is_spa(html_content: &str) -> (r: bool)
    ensures
        r == has_dynamic_signature(html_content@),
{
    let h = char_vec(html_content);
    chars_contain(&h, "fetch(") || chars_contain(&h, "XMLHttpRequest") || chars_contain(
        &h,
        "window.__INITIAL_STATE__",
    )
}

/// Classifies a page: `Dynamic` exactly when it shows a signature of
/// client-side rendering.
pub fn classify(html: &str) -> (r: Classification)
    ensures
        r == classification_of(html@),
{
    if is_spa(html) {
        Classification::Dynamic
    } else {
        Classification::Static
    }
}

/// Whether a site's landing page looks like a client-rendered application,
/// which decides the default rendering mode of a crawl.
pub fn looks_like_app_shell(body: &str) -> (r: bool)
    ensures
        r == has_app_shell_marker(body@),
{
    let h = char_vec(body);
    chars_contain(&h, "window.__INITIAL_STATE__") || chars_contain(&h, "ReactDOM.render")
        || chars_contain(&h, "vuejs") || chars_contain(&h, "angular") || chars_contain(
        &h,
        "next-data",
    ) || chars_contain(&h, "<script src=")
}

/// The classification of a page is a function of its text alone: two calls on
/// equal text give equal results.
pub proof fn classification_is_deterministic(a: Seq<char>, b: Seq<char>)
    requires
        a == b,
    ensures
        classification_of(a) == classification_of(b),
{
}

/// A page is dynamic exactly when it contains one of the three signatures.
pub proof fn dynamic_iff_signature(h: Seq<char>)
    ensures
        (classification_of(h) == Classification::Dynamic) <==> (seq_contains(h, "fetch("@)
            || seq_contains(h, "XMLHttpRequest"@) || seq_contains(h, "window.__INITIAL_STATE__"@)),
        (classification_of(h) == Classification::Static) <==> !(seq_contains(h, "fetch("@)
            || seq_contains(h, "XMLHttpRequest"@) || seq_contains(h, "window.__INITIAL_STATE__"@)),
{
}

} // verus!
