//! Listings and the positional pairing of title and price texts.

use vstd::prelude::*;

verus! {

/// One extracted classified ad: a title text and a price text, kept
/// verbatim as the concatenated text content of the matched nodes.
pub struct Listing {
    pub title: String,
    pub price: String,
}

/// The mathematical value of a `Listing`: its two texts as character
/// sequences.
#[verifier::ext_equal]
pub struct ListingView {
    pub title: Seq<char>,
    pub price: Seq<char>,
}

impl View for Listing {
    type V = ListingView;

    open spec fn view(&self) -> ListingView {
        ListingView { title: self.title@, price: self.price@ }
    }
}

impl DeepView for Listing {
    type V = ListingView;

    open spec fn deep_view(&self) -> ListingView {
        self@
    }
}

/// Titles and prices paired positionally: the i-th title with the i-th
/// price, truncated to the shorter of the two sequences.
pub open spec fn zip_listings(titles: Seq<Seq<char>>, prices: Seq<Seq<char>>) -> Seq<ListingView> {
    Seq::new(
        if titles.len() <= prices.len() {
            titles.len()
        } else {
            prices.len()
        },
        |i: int| ListingView { title: titles[i], price: prices[i] },
    )
}

/// Pairs the two text sequences in lockstep, stopping as soon as either
/// is exhausted.  No guarantee beyond strict positional correspondence:
/// whether the i-th title and the i-th price belong to the same ad
/// depends entirely on the fetched markup.
pub fn pair_listings(titles: &Vec<String>, prices: &Vec<String>) -> (r: Vec<Listing>)
    ensures
        r.deep_view() == zip_listings(titles.deep_view(), prices.deep_view()),
{
    let n: usize = if titles.len() <= prices.len() {
        titles.len()
    } else {
        prices.len()
    };
    let mut r: Vec<Listing> = Vec::new();
    let mut i: usize = 0;
    while i < n
        invariant
            0 <= i <= n,
            n == if titles@.len() <= prices@.len() {
                titles@.len()
            } else {
                prices@.len()
            },
            r.deep_view() == zip_listings(titles.deep_view(), prices.deep_view()).take(i as int),
        decreases n - i,
    {
        let ghost prev = r.deep_view();
        let t: String = titles[i].clone();
        let p: String = prices[i].clone();
        r.push(Listing { title: t, price: p });
        proof {
            let zs = zip_listings(titles.deep_view(), prices.deep_view());
            assert(prev.len() == i);
            assert(r.deep_view().len() == i + 1);
            assert forall|k: int| 0 <= k < i + 1 implies r.deep_view()[k] == zs.take(
                i as int + 1,
            )[k] by {
                if k < i {
                    assert(r.deep_view()[k] == prev[k]);
                    assert(prev[k] == zs.take(i as int)[k]);
                } else {
                    assert(r.deep_view()[k] =~~= zs[k]);
                }
            }
            assert(r.deep_view() =~= zs.take(i as int + 1));
        }
        i = i + 1;
    }
    proof {
        assert(zip_listings(titles.deep_view(), prices.deep_view()).take(n as int)
            =~= zip_listings(titles.deep_view(), prices.deep_view()));
    }
    r
}

/// The pairing law: with N titles and M prices there are exactly
/// min(N, M) listings, and the i-th listing pairs the i-th title text
/// with the i-th price text; in particular, a run with no matches on
/// either side yields no listings at all.
pub proof fn lemma_zip_listings_positional(titles: Seq<Seq<char>>, prices: Seq<Seq<char>>)
    ensures
        zip_listings(titles, prices).len() == if titles.len() <= prices.len() {
            titles.len()
        } else {
            prices.len()
        },
        forall|i: int|
            0 <= i < zip_listings(titles, prices).len() ==> zip_listings(titles, prices)[i] == (
            ListingView { title: titles[i], price: prices[i] }),
{
}

/// The report line for one listing: its title, a colon and a space, then
/// its price.
pub open spec fn line_of(l: ListingView) -> Seq<char> {
    l.title + ": "@ + l.price
}

/// Renders one listing as its report line.
pub fn format_line(l: &Listing) -> (r: String)
    ensures
        r@ == line_of(l@),
{
    let mut r: String = l.title.clone();
    r.append(": ");
    r.append(l.price.as_str());
    r
}

} // verus!
