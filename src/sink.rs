use vstd::prelude::*;
use crate::text::{char_vec, replace_all, replace_chars, string_of_chars};

verus! {

/// The per-page file name: the URL without its `https://` scheme, each `/`
/// turned into `_`, and the `.md` extension.
pub open spec fn file_name_of(url: Seq<char>) -> Seq<char> {
    replace_all(replace_all(url, "https://"@, ""@), "/"@, "_"@) + ".md"@
}

/// The section that a page adds to the aggregate file: a blank line, a
/// `## <url>` title, a blank line, the Markdown, and a line end.
pub open spec fn section_of(url: Seq<char>, markdown: Seq<char>) -> Seq<char> {
    "\n## "@ + url + "\n\n"@ + markdown + "\n"@
}

pub open spec fn digit_of(d: nat) -> char {
    if d == 0 { '0' } else if d == 1 { '1' } else if d == 2 { '2' } else if d == 3 { '3' }
    else if d == 4 { '4' } else if d == 5 { '5' } else if d == 6 { '6' } else if d == 7 { '7' }
    else if d == 8 { '8' } else { '9' }
}

/// The decimal digits of `n`, most significant first, without leading zeros.
pub open spec fn decimal_of(n: nat) -> Seq<char>
    decreases n,
{
    if n < 10 {
        seq![digit_of(n)]
    } else {
        decimal_of(n / 10) + seq![digit_of(n % 10)]
    }
}

/// The file name of the page with a given sequence number.
pub open spec fn sequence_file_name_of(n: nat) -> Seq<char> {
    "page_"@ + decimal_of(n) + ".md"@
}

/// The per-page file name for a URL.
pub fn file_name_for_url(url: &str) -> (r: String)
    ensures
        r@ == file_name_of(url@),
{
    let u = char_vec(url);
    let scheme = char_vec("https://");
    let nothing = char_vec("");
    let slash = char_vec("/");
    let underscore = char_vec("_");
    let stripped = replace_chars(&u, &scheme, &nothing);
    let flat = replace_chars(&stripped, &slash, &underscore);
    string_of_chars(&flat).concat(".md")
}

/// The aggregate-file section for a page.
pub fn aggregate_section(url: &str, markdown_content: &str) -> (r: String)
    ensures
        r@ == section_of(url@, markdown_content@),
{
    "\n## ".to_string().concat(url).concat("\n\n").concat(markdown_content).concat("\n")
}

fn digit_char(d: u64) -> (r: char)
    requires
        d < 10,
    ensures
        r == digit_of(d as nat),
{
    if d == 0 { '0' } else if d == 1 { '1' } else if d == 2 { '2' } else if d == 3 { '3' }
    else if d == 4 { '4' } else if d == 5 { '5' } else if d == 6 { '6' } else if d == 7 { '7' }
    else if d == 8 { '8' } else { '9' }
}

fn decimal_digits(n: u64) -> (r: Vec<char>)
    ensures
        r@ == decimal_of(n as nat),
    decreases n,
{
    if n < 10 {
        let mut v: Vec<char> = Vec::new();
        v.push(digit_char(n));
        assert(v@ =~= seq![digit_of(n as nat)]);
        v
    } else {
        let mut v = decimal_digits(n / 10);
        v.push(digit_char(n % 10));
        v
    }
}

/// The file name of the page with a given sequence number: `page_<n>.md`.
pub fn file_name_for_sequence(n: u64) -> (r: String)
    ensures
        r@ == sequence_file_name_of(n as nat),
{
    let digits = decimal_digits(n);
    "page_".to_string().concat(string_of_chars(&digits).as_str()).concat(".md")
}

} // verus!
