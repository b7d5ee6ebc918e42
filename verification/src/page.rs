//! Pagination: the options of a paginated request, and one page of results.
use vstd::prelude::*;

use crate::error::ClientError;
use crate::text::{decimal, u64_to_decimal};
use crate::urls::{
    all_unreserved, form_urlencode, form_urlencoded, joined_pairs, lemma_form_urlencoded_unreserved, pairs_view,
    opt_view, parse_url, url_parsed,
};

verus! {

/// The page size that a request asks for unless told otherwise.
pub const DEFAULT_PAGE_SIZE: u32 = 15;

/// Options of a paginated request.
#[derive(Debug)]
pub struct PageOptions {
    page_size: u32,
}

/// Builds `PageOptions`; a size that is not set is `DEFAULT_PAGE_SIZE`.
#[derive(Debug, Clone)]
pub struct PageOptionsBuilder {
    page_size: Option<u32>,
}

/// The error of `PageOptionsBuilder::build`, which with a default for every
/// field never comes.
#[derive(Debug)]
pub enum PageOptionsBuilderError {
    UninitializedField(&'static str),
    ValidationError(String),
}

impl PageOptions {
    /// The page size that these options ask for.
    pub closed spec fn size(&self) -> u32 {
        self.page_size
    }

    /// A builder with no field set.
    pub fn builder() -> (b: PageOptionsBuilder)
        ensures
            b.page_size_set() is None,
    {
        PageOptionsBuilder { page_size: None }
    }

    /// The query pairs that ask for linked partitioning with this page size.
    pub open spec fn query_pairs(&self) -> Seq<(Seq<char>, Seq<char>)> {
        seq![
            ("linked_partitioning"@, "true"@),
            ("page_size"@, decimal(self.size() as nat)),
        ]
    }

    /// The options form-encoded for a query string:
    /// `linked_partitioning=true&page_size=<size>`.
    pub fn serialize(&self) -> (r: Option<String>)
        ensures
            r is Some,
            r.unwrap()@ == form_urlencoded(self.query_pairs()),
            r.unwrap()@ == "linked_partitioning=true&page_size="@ + decimal(self.size() as nat),
    {
        let page_size = u64_to_decimal(self.page_size as u64);
        let mut params: Vec<(String, String)> = Vec::new();
        params.push((String::from_str("linked_partitioning"), String::from_str("true")));
        params.push((String::from_str("page_size"), page_size));
        proof {
            reveal_strlit("linked_partitioning");
            reveal_strlit("true");
            reveal_strlit("page_size");
            reveal_strlit("linked_partitioning=true&page_size=");
            assert(pairs_view(params@) =~= self.query_pairs());
            lemma_decimal_unreserved(self.size() as nat);
            assert(all_unreserved(self.query_pairs()));
            lemma_form_urlencoded_unreserved(self.query_pairs());
            reveal_with_fuel(joined_pairs, 3);
            assert(joined_pairs(self.query_pairs()) =~= "linked_partitioning=true&page_size="@ + decimal(
                self.size() as nat,
            ));
        }
        let encoded = form_urlencode(&params);
        Some(encoded)
    }
}

impl Default for PageOptions {
    /// Options with the default page size.
    fn default() -> (o: Self)
        ensures
            o.size() == DEFAULT_PAGE_SIZE,
    {
        PageOptions { page_size: DEFAULT_PAGE_SIZE }
    }
}

impl PageOptionsBuilder {
    /// The page size set so far, if any.
    pub closed spec fn page_size_set(&self) -> Option<u32> {
        self.page_size
    }

    /// Sets the page size.
    pub fn page_size(&mut self, value: u32) -> (b: &mut Self)
        ensures
            b.page_size_set() == Some(value),
            *final(self) == *final(b),
    {
        self.page_size = Some(value);
        self
    }

    /// The options, with `DEFAULT_PAGE_SIZE` for a size that was not set.
    pub fn build(&self) -> (r: Result<PageOptions, PageOptionsBuilderError>)
        ensures
            r is Ok,
            r.unwrap().size() == match self.page_size_set() {
                Some(s) => s,
                None => DEFAULT_PAGE_SIZE,
            },
    {
        match self.page_size {
            Some(s) => Ok(PageOptions { page_size: s }),
            None => Ok(PageOptions { page_size: DEFAULT_PAGE_SIZE }),
        }
    }
}

impl Default for PageOptionsBuilder {
    /// A builder with no field set.
    fn default() -> (b: Self)
        ensures
            b.page_size_set() is None,
    {
        PageOptionsBuilder { page_size: None }
    }
}

/// Every char of a decimal numeral is a digit.
pub proof fn lemma_decimal_unreserved(n: nat)
    ensures
        forall|j: int| 0 <= j < decimal(n).len() ==> '0' <= #[trigger] decimal(n)[j] && decimal(n)[j] <= '9',
        decimal(n).len() >= 1,
    decreases n,
{
    if n >= 10 {
        lemma_decimal_unreserved(n / 10);
    }
}

/// One page of a paginated listing.
#[derive(Debug)]
pub struct Page<T> {
    pub collection: Vec<T>,
    pub next_href: Option<String>,
}

/// The map that collecting name/value pairs into a map builds: a later
/// value of a name replaces an earlier one.
pub open spec fn query_map(pairs: Seq<(Seq<char>, Seq<char>)>) -> Map<Seq<char>, Seq<char>>
    decreases pairs.len(),
{
    if pairs.len() == 0 {
        Map::empty()
    } else {
        query_map(pairs.drop_last()).insert(pairs.last().0, pairs.last().1)
    }
}

/// No name occurs twice.
pub open spec fn distinct_names(pairs: Seq<(Seq<char>, Seq<char>)>) -> bool {
    forall|i: int, j: int| 0 <= i < j < pairs.len() ==> #[trigger] pairs[i].0 != #[trigger] pairs[j].0
}

/// What `Page::next_query` returns for a page whose link is `href`.
pub open spec fn next_query_of(href: Option<Seq<char>>) -> Option<Option<Map<Seq<char>, Seq<char>>>> {
    match href {
        None => Some(None),
        Some(h) => match url_parsed(h) {
            None => None,
            Some(u) => if u.2.len() == 0 { Some(None) } else { Some(Some(query_map(u.2))) },
        },
    }
}

impl<T> Page<T> {
    /// Whether the page holds no item.
    pub fn is_empty(&self) -> (r: bool)
        ensures
            r == (self.collection@.len() == 0),
    {
        self.collection.is_empty()
    }

    /// The query of the link to the next page, as a map from name to value
    /// (one entry per name, the last value winning), or `None` when there is
    /// no link or its query is empty. A link that does not parse is an error.
    pub fn next_query(&self) -> (r: Result<Option<Vec<(String, String)>>, ClientError>)
        ensures
            r is Err <==> next_query_of(opt_view(self.next_href)) is None,
            r is Err ==> r matches Err(ClientError::UrlParseError(_)),
            r matches Ok(None) ==> next_query_of(opt_view(self.next_href)) == Some(
                None::<Map<Seq<char>, Seq<char>>>,
            ),
            r matches Ok(Some(v)) ==> {
                &&& distinct_names(pairs_view(v@))
                &&& next_query_of(opt_view(self.next_href)) == Some(Some(query_map(pairs_view(v@))))
            },
    {
        match &self.next_href {
            None => Ok(None),
            Some(href) => match parse_url(href.as_str()) {
                Err(e) => Err(ClientError::UrlParseError(e)),
                Ok(url) => {
                    let map = collect_query(&url.query);
                    if map.len() == 0 {
                        Ok(None)
                    } else {
                        Ok(Some(map))
                    }
                },
            },
        }
    }
}

/// Updating the entry of a name that occurs once is inserting it in the map.
proof fn lemma_query_map_update(s: Seq<(Seq<char>, Seq<char>)>, j: int, v: Seq<char>)
    requires
        distinct_names(s),
        0 <= j < s.len(),
    ensures
        query_map(s.update(j, (s[j].0, v))) == query_map(s).insert(s[j].0, v),
    decreases s.len(),
{
    let t = s.update(j, (s[j].0, v));
    if j == s.len() - 1 {
        assert(t.drop_last() =~= s.drop_last());
        assert(query_map(t) =~= query_map(s).insert(s[j].0, v));
    } else {
        assert(t.drop_last() =~= s.drop_last().update(j, (s[j].0, v)));
        lemma_query_map_update(s.drop_last(), j, v);
        assert(s.last().0 != s[j].0);
        assert(query_map(t) =~= query_map(s).insert(s[j].0, v));
    }
}

/// Collects pairs into a list with one entry per name, each with the last
/// value given for it, as collecting them into a map does.
pub fn collect_query(pairs: &Vec<(String, String)>) -> (r: Vec<(String, String)>)
    ensures
        distinct_names(pairs_view(r@)),
        query_map(pairs_view(r@)) == query_map(pairs_view(pairs@)),
        r@.len() == 0 <==> pairs@.len() == 0,
{
    let mut out: Vec<(String, String)> = Vec::new();
    let mut i: usize = 0;
    while i < pairs.len()
        invariant
            i <= pairs@.len(),
            distinct_names(pairs_view(out@)),
            query_map(pairs_view(out@)) == query_map(pairs_view(pairs@).take(i as int)),
            out@.len() == 0 <==> i == 0,
        decreases pairs@.len() - i,
    {
        let name = pairs[i].0.clone();
        let value = pairs[i].1.clone();
        let ghost before = pairs_view(out@);
        let mut j: usize = 0;
        let mut found = false;
        while !found && j < out.len()
            invariant
                j <= out@.len(),
                pairs_view(out@) == before,
                found ==> j < out@.len() && before[j as int].0 == name@,
                forall|m: int| 0 <= m < j ==> before[m].0 != name@,
            decreases out@.len() - j, if found { 0int } else { 1int },
        {
            if out[j].0 == name {
                found = true;
            } else {
                j = j + 1;
            }
        }
        proof {
            assert(pairs_view(pairs@).take(i + 1).drop_last() =~= pairs_view(pairs@).take(i as int));
        }
        if found {
            proof {
                lemma_query_map_update(before, j as int, value@);
            }
            out.set(j, (name, value));
            proof {
                assert(pairs_view(out@) =~= before.update(j as int, (before[j as int].0, value@)));
                assert forall|a: int, b: int| 0 <= a < b < pairs_view(out@).len() implies
                    #[trigger] pairs_view(out@)[a].0 != #[trigger] pairs_view(out@)[b].0 by {
                    assert(pairs_view(out@)[a].0 == before[a].0);
                    assert(pairs_view(out@)[b].0 == before[b].0);
                }
            }
        } else {
            out.push((name, value));
            proof {
                assert(pairs_view(out@).drop_last() =~= before);
                assert forall|a: int, b: int| 0 <= a < b < pairs_view(out@).len() implies
                    #[trigger] pairs_view(out@)[a].0 != #[trigger] pairs_view(out@)[b].0 by {
                    assert(pairs_view(out@)[a].0 == before[a].0);
                    if b == before.len() {
                        assert(pairs_view(out@)[b].0 == name@);
                    } else {
                        assert(pairs_view(out@)[b].0 == before[b].0);
                    }
                }
            }
        }
        i = i + 1;
    }
    proof {
        assert(pairs_view(pairs@).take(i as int) =~= pairs_view(pairs@));
    }
    out
}

} // verus!
