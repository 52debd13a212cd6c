//! Rendering a run's outcome into the lines the program prints.

use vstd::prelude::*;
use crate::error::ScrapError;
use crate::listing::{format_line, line_of, zip_listings, Listing};
use crate::dom::{selected_texts, selector_ok};
use crate::scrape::{price_pattern, scrap_document, title_pattern};

verus! {

/// The banner printed before the listing lines of a successful run.
pub open spec fn success_banner() -> Seq<char> {
    "Success 🙌. Data has been scraped!"@
}

/// What a run prints: `out` goes to standard output line by line, `err`
/// to the error stream.
pub struct Report {
    pub out: Vec<String>,
    pub err: Vec<String>,
}

/// Renders the outcome of a run.  On success: the banner, then one line
/// per listing in pairing order, and nothing on the error stream.  On
/// failure: nothing for standard output and exactly one labeled
/// diagnostic, carrying the originating message unchanged.
pub fn render_report(outcome: &Result<Vec<Listing>, ScrapError>) -> (r: Report)
    ensures
        outcome is Ok ==> r.err@.len() == 0 && r.out@.len() == 1 + outcome->Ok_0@.len()
            && r.out@[0]@ == success_banner() && (forall|i: int|
            0 <= i < outcome->Ok_0@.len() ==> r.out@[i + 1]@ == line_of(outcome->Ok_0@[i]@)),
        outcome is Err ==> r.out@.len() == 0 && r.err@.len() == 1,
        (*outcome) matches Err(ScrapError::RequestError(m)) ==> r.err@[0]@ == "Network error: "@
            + m@,
        (*outcome) matches Err(ScrapError::ParseError(m)) ==> r.err@[0]@ == "Parse error: "@ + m@,
{
    match outcome {
        Ok(listings) => {
            let mut out: Vec<String> = Vec::new();
            out.push("Success 🙌. Data has been scraped!".to_owned());
            let mut i: usize = 0;
            while i < listings.len()
                invariant
                    0 <= i <= listings@.len(),
                    out@.len() == 1 + i,
                    out@[0]@ == success_banner(),
                    forall|k: int| 0 <= k < i ==> out@[k + 1]@ == line_of(listings@[k]@),
                decreases listings@.len() - i,
            {
                out.push(format_line(&listings[i]));
                i = i + 1;
            }
            Report { out, err: Vec::new() }
        },
        Err(ScrapError::RequestError(m)) => {
            let mut line: String = "Network error: ".to_owned();
            line.append(m.as_str());
            let mut err: Vec<String> = Vec::new();
            err.push(line);
            Report { out: Vec::new(), err }
        },
        Err(ScrapError::ParseError(m)) => {
            let mut line: String = "Parse error: ".to_owned();
            line.append(m.as_str());
            let mut err: Vec<String> = Vec::new();
            err.push(line);
            Report { out: Vec::new(), err }
        },
    }
}

/// Everything the program does after the fetch, as one step: a transport
/// failure becomes the single `Network error` diagnostic; a fetched body
/// is scraped and rendered as the banner and its listing lines.
pub fn report_lines(fetched: Result<String, String>) -> (r: Report)
    ensures
        fetched is Err ==> r.out@.len() == 0 && r.err@.len() == 1 && r.err@[0]@
            == "Network error: "@ + fetched->Err_0@,
        fetched is Ok && selector_ok(title_pattern()) && selector_ok(price_pattern()) ==> ({
            let ls = zip_listings(
                selected_texts(fetched->Ok_0@, title_pattern()),
                selected_texts(fetched->Ok_0@, price_pattern()),
            );
            r.err@.len() == 0 && r.out@.len() == 1 + ls.len() && r.out@[0]@ == success_banner()
                && (forall|i: int| 0 <= i < ls.len() ==> r.out@[i + 1]@ == line_of(ls[i]))
        }),
        fetched is Ok && !(selector_ok(title_pattern()) && selector_ok(price_pattern()))
            ==> r.out@.len() == 0 && r.err@.len() == 1 && (exists|m: Seq<char>|
        r.err@[0]@ == "Parse error: "@ + m),
{
    match fetched {
        Err(m) => {
            let outcome: Result<Vec<Listing>, ScrapError> = Err(ScrapError::RequestError(m));
            render_report(&outcome)
        },
        Ok(html) => {
            let outcome = scrap_document(html.as_str());
            let r = render_report(&outcome);
            proof {
                if outcome is Ok {
                    let ls = zip_listings(
                        selected_texts(html@, title_pattern()),
                        selected_texts(html@, price_pattern()),
                    );
                    assert(outcome->Ok_0.deep_view() == ls);
                    assert forall|i: int| 0 <= i < ls.len() implies r.out@[i + 1]@ == line_of(
                        ls[i],
                    ) by {
                        assert(outcome->Ok_0@[i]@ == outcome->Ok_0.deep_view()[i]);
                    }
                } else {
                    assert(r.err@[0]@ == "Parse error: "@ + outcome->Err_0->ParseError_0@);
                }
            }
            r
        },
    }
}

} // verus!
