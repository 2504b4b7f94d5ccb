use vstd::prelude::*;

verus! {

/// The markup fragment that the markdown renderer produces for a source
/// text: a pure function of the text alone.
pub uninterp spec fn html_of_markdown(md: Seq<char>) -> Seq<char>;

/// Relies on pulldown_cmark's Parser::new_ext (with every extension
/// enabled) and html::push_html: rendering is a pure function of the source
/// text, and an empty source yields no events, hence an empty fragment.
#[verifier::external_body]
pub fn markdown_to_html(md: &str) -> (r: String)
    ensures
        r@ == html_of_markdown(md@),
        md@.len() == 0 ==> r@.len() == 0,
{
    let options = pulldown_cmark::Options::all();
    let parser = pulldown_cmark::Parser::new_ext(md, options);
    let mut out = String::new();
    pulldown_cmark::html::push_html(&mut out, parser);
    out
}

} // verus!
