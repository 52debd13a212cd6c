use olx_scrape::error::ScrapError;
use olx_scrape::listing::{format_line, pair_listings, Listing};
use olx_scrape::report::{render_report, report_lines};
use olx_scrape::scrape::{extract_texts, scrap_document};
use olx_scrape::text::trim;
use olx_scrape::url::build_url;

#[test]
fn url_is_base_plus_trimmed_query() {
    assert_eq!(build_url("  sofa \n"), "https://www.olx.ua/uk/list/q-sofa");
    assert_eq!(build_url("sofa"), "https://www.olx.ua/uk/list/q-sofa");
    assert_eq!(build_url(""), "https://www.olx.ua/uk/list/q-");
    assert_eq!(build_url(" \t "), "https://www.olx.ua/uk/list/q-");
}

#[test]
fn trimming_is_idempotent_on_a_sample() {
    let once = trim("  red sofa\u{00A0} ");
    assert_eq!(once, "red sofa");
    assert_eq!(trim(once), once);
}

#[test]
fn transport_error_prints_one_diagnostic_and_no_listings() {
    let r = report_lines(Err("connection refused".to_string()));
    assert_eq!(r.out.len(), 0);
    assert_eq!(r.err, vec!["Network error: connection refused".to_string()]);
}

#[test]
fn fixed_patterns_compile() {
    let r = scrap_document("");
    assert!(r.is_ok());
}

#[test]
fn invalid_pattern_is_a_parse_error() {
    let r = extract_texts("<html></html>", "p[");
    match r {
        Err(ScrapError::ParseError(_)) => {}
        _ => panic!("expected a parse error"),
    }
}

#[test]
fn extraction_works_on_a_valid_pattern() {
    let texts = extract_texts("<html><body><h6>one</h6><h6>two</h6></body></html>", "h6").unwrap();
    assert_eq!(texts, vec!["one".to_string(), "two".to_string()]);
}

#[test]
fn unequal_matches_truncate_to_the_shorter_side() {
    let html = "<html><body>\
        <h6>A</h6><h6>B</h6><h6>C</h6>\
        <p>not a price</p>\
        <p data-testid='ad-price'>1</p><p data-testid='ad-price'>2</p>\
        </body></html>";
    let listings = scrap_document(html).unwrap();
    assert_eq!(listings.len(), 2);
    assert_eq!(listings[0].title, "A");
    assert_eq!(listings[0].price, "1");
    assert_eq!(listings[1].title, "B");
    assert_eq!(listings[1].price, "2");
}

#[test]
fn zero_matches_is_success_with_banner_only() {
    let outcome = scrap_document("<html><body><div>nothing here</div></body></html>");
    let listings = outcome.unwrap();
    assert_eq!(listings.len(), 0);
    let r = render_report(&Ok(listings));
    assert_eq!(r.out, vec!["Success 🙌. Data has been scraped!".to_string()]);
    assert_eq!(r.err.len(), 0);
}

#[test]
fn end_to_end_two_listings() {
    let html = "<html><body>\
        <h6>Sofa</h6><p data-testid='ad-price'>1000 UAH</p>\
        <h6>Lamp</h6><p data-testid='ad-price'>200 UAH</p>\
        </body></html>";
    let r = report_lines(Ok(html.to_string()));
    assert_eq!(r.err.len(), 0);
    assert_eq!(
        r.out,
        vec![
            "Success 🙌. Data has been scraped!".to_string(),
            "Sofa: 1000 UAH".to_string(),
            "Lamp: 200 UAH".to_string(),
        ]
    );
}

#[test]
fn nested_markup_text_concatenates_without_separators() {
    let html = "<html><body><h6>Red <b>Sofa</b></h6><p data-testid='ad-price'>1</p></body></html>";
    let listings = scrap_document(html).unwrap();
    assert_eq!(listings.len(), 1);
    assert_eq!(listings[0].title, "Red Sofa");
}

#[test]
fn pairing_is_positional() {
    let titles = vec!["a".to_string(), "b".to_string()];
    let prices = vec!["1".to_string()];
    let r = pair_listings(&titles, &prices);
    assert_eq!(r.len(), 1);
    assert_eq!(r[0].title, "a");
    assert_eq!(r[0].price, "1");
}

#[test]
fn line_is_title_colon_space_price() {
    let l = Listing { title: "Sofa".to_string(), price: "1000 UAH".to_string() };
    assert_eq!(format_line(&l), "Sofa: 1000 UAH");
}

#[test]
fn parse_error_prints_one_diagnostic() {
    let r = render_report(&Err(ScrapError::ParseError("bad selector".to_string())));
    assert_eq!(r.out.len(), 0);
    assert_eq!(r.err, vec!["Parse error: bad selector".to_string()]);
}
