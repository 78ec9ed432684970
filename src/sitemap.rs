use vstd::prelude::*;
use crate::text::{char_vec, contains_chars, seq_contains};

verus! {

/// One node of a parsed XML document: its local tag name (empty for a node
/// that is not an element) and its text, if it has any.
pub struct XmlNode {
    pub name: String,
    pub text: Option<String>,
}

pub open spec fn node_model(n: XmlNode) -> (Seq<char>, Option<Seq<char>>) {
    (
        n.name@,
        match n.text {
            Some(t) => Some(t@),
            None => None,
        },
    )
}

/// The nodes of an XML document in document order, or `None` when roxmltree
/// refuses the text under its default options: text that is not well-formed
/// XML, and also a well-formed document that carries a document type
/// declaration.
pub uninterp spec fn xml_nodes_of(doc: Seq<char>) -> Option<Seq<(Seq<char>, Option<Seq<char>>)>>;

/// Relies on `roxmltree::Document::parse`, which fails on text that is not
/// well-formed XML and, under its default options, on any document with a
/// document type declaration; and on `Document::descendants`, which walks every node
/// in document order; each node is read with `Node::tag_name` (empty for a
/// node that is not an element) and `Node::text`.
#[verifier::external_body]
fn parse_xml_nodes(doc: &str) -> (r: Option<Vec<XmlNode>>)
    ensures
        match r {
            None => xml_nodes_of(doc@) is None,
            Some(v) => xml_nodes_of(doc@) == Some(v@.map_values(|n: XmlNode| node_model(n))),
        },
{
    let parsed = roxmltree::Document::parse(doc).ok()?;
    Some(
        parsed.descendants().map(
            |n| XmlNode { name: n.tag_name().name().to_string(), text: n.text().map(|t| t.to_string()) },
        ).collect(),
    )
}

/// The texts of the `loc` elements among the nodes, in order.
pub open spec fn loc_texts(nodes: Seq<(Seq<char>, Option<Seq<char>>)>) -> Seq<Seq<char>>
    decreases nodes.len(),
{
    if nodes.len() == 0 {
        Seq::empty()
    } else {
        let rest = loc_texts(nodes.drop_last());
        let last = nodes.last();
        if last.0 == "loc"@ && last.1 is Some {
            rest.push(last.1->0)
        } else {
            rest
        }
    }
}

/// The page URLs that a sitemap lists: nothing unless the text holds a
/// `<url>` entry and roxmltree accepts it (well-formed, with no document type
/// declaration), else the text of each `loc` element.
pub open spec fn sitemap_urls_of(body: Seq<char>) -> Seq<Seq<char>> {
    if !seq_contains(body, "<url>"@) {
        Seq::empty()
    } else {
        match xml_nodes_of(body) {
            None => Seq::empty(),
            Some(nodes) => loc_texts(nodes),
        }
    }
}

/// Where a site keeps its sitemap.
pub fn sitemap_location(base_url: &str) -> (r: String)
    ensures
        r@ == base_url@ + "/sitemap.xml"@,
{
    base_url.to_string().concat("/sitemap.xml")
}

/// The page URLs that a sitemap document lists, in document order.
pub fn sitemap_urls(body: &str) -> (r: Vec<String>)
    ensures
        r@.map_values(|s: String| s@) == sitemap_urls_of(body@),
{
    let mut urls: Vec<String> = Vec::new();
    let h = char_vec(body);
    let marker = char_vec("<url>");
    if !contains_chars(&h, &marker) {
        assert(urls@.map_values(|s: String| s@) =~= Seq::<Seq<char>>::empty());
        return urls;
    }
    match parse_xml_nodes(body) {
        None => {
            assert(urls@.map_values(|s: String| s@) =~= Seq::<Seq<char>>::empty());
            urls
        },
        Some(nodes) => {
            let ghost model = nodes@.map_values(|n: XmlNode| node_model(n));
            let loc = "loc".to_string();
            let mut i: usize = 0;
            assert(model.subrange(0, 0) =~= Seq::<(Seq<char>, Option<Seq<char>>)>::empty());
            assert(urls@.map_values(|s: String| s@) =~= Seq::<Seq<char>>::empty());
            while i < nodes.len()
                invariant
                    i <= nodes@.len(),
                    model == nodes@.map_values(|n: XmlNode| node_model(n)),
                    loc@ == "loc"@,
                    urls@.map_values(|s: String| s@) == loc_texts(model.subrange(0, i as int)),
                decreases nodes@.len() - i,
            {
                let ghost before = urls@;
                assert(model.subrange(0, i + 1).drop_last() =~= model.subrange(0, i as int));
                assert(model.subrange(0, i + 1).last() == node_model(nodes@[i as int]));
                let node = &nodes[i];
                if node.name == loc {
                    match &node.text {
                        Some(t) => {
                            urls.push(t.clone());
                            assert(urls@.map_values(|s: String| s@) =~= before.map_values(
                                |s: String| s@,
                            ).push(t@));
                        },
                        None => {},
                    }
                }
                i += 1;
            }
            assert(model.subrange(0, nodes@.len() as int) =~= model);
            urls
        },
    }
}

} // verus!
