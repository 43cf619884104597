//! Narrowing a fetched document to the elements that a target's selectors
//! pick out.
use vstd::prelude::*;
use crate::error::MonitorError;

verus! {

/// The serialized first element of the HTML document `doc` that the CSS
/// selector `selector` matches; `None` when the selector does not parse or
/// matches nothing.
pub uninterp spec fn selected_html(doc: Seq<char>, selector: Seq<char>) -> Option<Seq<char>>;

/// Relies on `scraper::Selector::parse`, `scraper::Html::parse_document`,
/// `scraper::Html::select` and `scraper::ElementRef::html`: the first element
/// in document order that the selector matches, serialized with its tag.
#[verifier::external_body]
fn select_first(doc: &str, selector: &str) -> (r: Option<String>)
    ensures
        r is Some <==> selected_html(doc@, selector@) is Some,
        r is Some ==> r->Some_0@ == selected_html(doc@, selector@)->Some_0,
{
    let sel = match scraper::Selector::parse(selector) {
        Ok(s) => s,
        Err(_) => return None,
    };
    let html = scraper::Html::parse_document(doc);
    let found = html.select(&sel).next();
    match found {
        Some(e) => Some(e.html()),
        None => None,
    }
}

/// The parts joined with a newline between each two.
pub open spec fn join_lines(parts: Seq<Seq<char>>) -> Seq<char>
    decreases parts.len(),
{
    if parts.len() == 0 {
        Seq::empty()
    } else if parts.len() == 1 {
        parts[0]
    } else {
        join_lines(parts.drop_last()) + seq!['\n'] + parts.last()
    }
}

/// Every selector matches an element of `doc`.
pub open spec fn all_found(doc: Seq<char>, selectors: Seq<Seq<char>>) -> bool {
    forall|i: int| 0 <= i < selectors.len() ==> (#[trigger] selected_html(doc, selectors[i])) is Some
}

/// The serialized elements that `selectors` pick out, in selector order.
pub open spec fn found_parts(doc: Seq<char>, selectors: Seq<Seq<char>>) -> Seq<Seq<char>> {
    selectors.map_values(|s: Seq<char>| selected_html(doc, s)->Some_0)
}

/// The text a target looks at: the document itself when there are no
/// selectors, the found elements joined by newlines when every selector
/// matches, and `None` when some selector matches nothing.
pub open spec fn extraction(doc: Seq<char>, selectors: Seq<Seq<char>>) -> Option<Seq<char>> {
    if selectors.len() == 0 {
        Some(doc)
    } else if all_found(doc, selectors) {
        Some(join_lines(found_parts(doc, selectors)))
    } else {
        None
    }
}

/// The views of a list of strings.
pub open spec fn views(v: Seq<String>) -> Seq<Seq<char>> {
    v.map_values(|s: String| s@)
}

/// Extracts the text that `selectors` pick out of `body`; fails with
/// `SelectorNotFound`, and no partial text, when one of them matches nothing.
pub fn extract(body: &String, selectors: &Vec<String>) -> (r: Result<String, MonitorError>)
    ensures
        match extraction(body@, views(selectors@)) {
            Some(t) => r is Ok && r->Ok_0@ == t,
            None => r == Err::<String, MonitorError>(MonitorError::SelectorNotFound),
        },
{
    let ghost sels = views(selectors@);
    if selectors.len() == 0 {
        return Ok(body.clone());
    }
    let mut out = String::new();
    let mut i: usize = 0;
    while i < selectors.len()
        invariant
            sels == views(selectors@),
            0 < selectors.len(),
            i <= selectors.len(),
            all_found(body@, sels.subrange(0, i as int)),
            i > 0 ==> out@ == join_lines(found_parts(body@, sels.subrange(0, i as int))),
            i == 0 ==> out@.len() == 0,
        decreases selectors.len() - i,
    {
        let part = select_first(body.as_str(), selectors[i].as_str());
        assert(sels[i as int] == selectors@[i as int]@);
        match part {
            None => {
                assert(!all_found(body@, sels));
                return Err(MonitorError::SelectorNotFound);
            },
            Some(p) => {
                let ghost prev = found_parts(body@, sels.subrange(0, i as int));
                let ghost next = found_parts(body@, sels.subrange(0, i + 1));
                assert(next.drop_last() =~= prev);
                assert(next.len() == i + 1);
                assert(next.last() == p@);
                if i > 0 {
                    proof {
                        reveal_strlit("\n");
                    }
                    out.append("\n");
                }
                out.append(p.as_str());
                i = i + 1;
                assert(all_found(body@, sels.subrange(0, i as int))) by {
                    assert forall|k: int| 0 <= k < i implies (#[trigger] selected_html(body@, sels.subrange(0, i as int)[k])) is Some by {
                        if k < i - 1 {
                            assert(sels.subrange(0, i as int)[k] == sels.subrange(0, i - 1)[k]);
                        }
                    }
                }
                assert(out@ =~= join_lines(next));
            },
        }
    }
    assert(sels.subrange(0, selectors.len() as int) =~= sels);
    Ok(out)
}

/// Two selectors that both match give the first element, a newline, then
/// the second; a selector that matches nothing makes the whole extraction
/// fail, with no partial text.
pub proof fn lemma_extract_two(doc: Seq<char>, a: Seq<char>, b: Seq<char>)
    ensures
        selected_html(doc, a) is Some && selected_html(doc, b) is Some ==> extraction(doc, seq![a, b])
            == Some(selected_html(doc, a)->Some_0 + seq!['\n'] + selected_html(doc, b)->Some_0),
        selected_html(doc, a) is None || selected_html(doc, b) is None ==> extraction(doc, seq![a, b])
            is None,
{
    let sels = seq![a, b];
    let parts = found_parts(doc, sels);
    assert(parts.drop_last() =~= seq![parts[0]]);
    assert(join_lines(seq![parts[0]]) == parts[0]);
    if selected_html(doc, a) is None {
        assert(sels[0] == a);
    }
    if selected_html(doc, b) is None {
        assert(sels[1] == b);
    }
}

/// A selector that matches nothing anywhere in the list makes the
/// extraction fail.
pub proof fn lemma_missing_selector_fails(doc: Seq<char>, selectors: Seq<Seq<char>>, i: int)
    requires
        0 <= i < selectors.len(),
        selected_html(doc, selectors[i]) is None,
    ensures
        extraction(doc, selectors) is None,
{
}

} // verus!
