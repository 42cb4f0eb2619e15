//! Building the GET requests of the client.
//!
//! Requests are plain data: a fully-qualified endpoint address and a list
//! of query parameters, built from an explicit set of optional filters.
//! No network activity happens here, and no filter value is validated or
//! clamped — the upstream API is the authority on ranges, and a page far
//! beyond the last real page is a well-formed request that the server
//! answers with a valid, possibly empty page.
//!
//! Two upstream conventions are deliberate and observable:
//!
//! - an absent string filter is sent as an *empty-string* parameter, not
//!   omitted (the search endpoint treats the two alike, and sending the
//!   empty string is the upstream convention);
//! - an absent page is page zero, and an absent page size is 50 for
//!   episode listing and 20 for the latest-episodes listing. The
//!   `since_id` filter alone is omitted entirely when absent.

use vstd::prelude::*;

verus! {

/// The decimal digit character for `d`.
pub open spec fn spec_digit(d: nat) -> char {
    ((48 + d) as u8) as char
}

/// The decimal rendering of `n`, most significant digit first, no sign
/// and no leading zero (zero itself renders as one digit).
pub open spec fn spec_dec(n: nat) -> Seq<char>
    decreases n,
{
    if n < 10 {
        seq![spec_digit(n)]
    } else {
        spec_dec(n / 10).push(spec_digit(n % 10))
    }
}

/// Appends the digit character for `d`.
fn push_digit(s: &mut String, d: u64)
    requires
        d < 10,
    ensures
        final(s)@ == old(s)@.push(spec_digit(d as nat)),
{
    match d {
        0 => {
            proof {
                reveal_strlit("0");
            }
            s.append("0");
        },
        1 => {
            proof {
                reveal_strlit("1");
            }
            s.append("1");
        },
        2 => {
            proof {
                reveal_strlit("2");
            }
            s.append("2");
        },
        3 => {
            proof {
                reveal_strlit("3");
            }
            s.append("3");
        },
        4 => {
            proof {
                reveal_strlit("4");
            }
            s.append("4");
        },
        5 => {
            proof {
                reveal_strlit("5");
            }
            s.append("5");
        },
        6 => {
            proof {
                reveal_strlit("6");
            }
            s.append("6");
        },
        7 => {
            proof {
                reveal_strlit("7");
            }
            s.append("7");
        },
        8 => {
            proof {
                reveal_strlit("8");
            }
            s.append("8");
        },
        _ => {
            proof {
                reveal_strlit("9");
            }
            s.append("9");
        },
    }
}

/// Renders `n` in decimal, exactly as `spec_dec` spells it.
pub fn u64_dec(n: u64) -> (r: String)
    ensures
        r@ == spec_dec(n as nat),
    decreases n,
{
    if n < 10 {
        let mut s = String::new();
        push_digit(&mut s, n);
        s
    } else {
        let mut s = u64_dec(n / 10);
        push_digit(&mut s, n % 10);
        s
    }
}

/// The text an optional string filter is sent as: the filter itself, or
/// the empty string when it is absent.
pub open spec fn spec_opt_text(o: Option<String>) -> Seq<char> {
    match o {
        Some(s) => s@,
        None => Seq::empty(),
    }
}

/// The page a request asks for: the given one, or page zero.
pub open spec fn spec_page(o: Option<u16>) -> nat {
    match o {
        Some(p) => p as nat,
        None => 0,
    }
}

/// The page size a request asks for: the given one, or the endpoint's
/// default.
pub open spec fn spec_count(o: Option<u16>, default_count: u16) -> nat {
    match o {
        Some(c) => c as nat,
        None => default_count as nat,
    }
}

fn opt_text(o: &Option<String>) -> (r: String)
    ensures
        r@ == spec_opt_text(*o),
{
    match o {
        Some(s) => s.clone(),
        None => String::new(),
    }
}

/// A request ready to be dispatched: the endpoint address and the query
/// parameters, in order.
pub struct FyydRequest {
    pub path: String,
    pub params: Vec<(String, String)>,
}

/// The mathematical image of a `FyydRequest`.
#[verifier::ext_equal]
pub struct FyydRequestV {
    pub path: Seq<char>,
    pub params: Seq<(Seq<char>, Seq<char>)>,
}

impl DeepView for FyydRequest {
    type V = FyydRequestV;

    open spec fn deep_view(&self) -> FyydRequestV {
        FyydRequestV { path: self.path@, params: self.params.deep_view() }
    }
}

/// The filters of a podcast search, every one optional. Build the set
/// with the chaining setters, then turn it into a request with `build`.
pub struct FyydPodcastSearch {
    pub term: Option<String>,
    pub title: Option<String>,
    pub language: Option<String>,
    pub url: Option<String>,
    pub page: Option<u16>,
}

impl Default for FyydPodcastSearch {
    /// A search with every filter absent.
    fn default() -> (r: FyydPodcastSearch)
        ensures
            r == (FyydPodcastSearch {
                term: None,
                title: None,
                language: None,
                url: None,
                page: None,
            }),
    {
        FyydPodcastSearch { term: None, title: None, language: None, url: None, page: None }
    }
}

impl FyydPodcastSearch {
    /// A free-text term to search for inside a podcast.
    pub fn term(self, term: String) -> (r: FyydPodcastSearch)
        ensures
            r == (FyydPodcastSearch { term: Some(term), ..self }),
    {
        FyydPodcastSearch { term: Some(term), ..self }
    }

    /// The podcast's title.
    pub fn title(self, title: String) -> (r: FyydPodcastSearch)
        ensures
            r == (FyydPodcastSearch { title: Some(title), ..self }),
    {
        FyydPodcastSearch { title: Some(title), ..self }
    }

    /// The podcast's language.
    pub fn language(self, language: String) -> (r: FyydPodcastSearch)
        ensures
            r == (FyydPodcastSearch { language: Some(language), ..self }),
    {
        FyydPodcastSearch { language: Some(language), ..self }
    }

    /// The podcast's feed address.
    pub fn url(self, url: String) -> (r: FyydPodcastSearch)
        ensures
            r == (FyydPodcastSearch { url: Some(url), ..self }),
    {
        FyydPodcastSearch { url: Some(url), ..self }
    }

    /// The page of the search. Overshooting the last page is fine: the
    /// server still answers with a valid page.
    pub fn page(self, page: u16) -> (r: FyydPodcastSearch)
        ensures
            r == (FyydPodcastSearch { page: Some(page), ..self }),
    {
        FyydPodcastSearch { page: Some(page), ..self }
    }

    /// Builds the search request: five parameters in the order title,
    /// url, language, term, page. Absent string filters become
    /// empty-string parameters; an absent page becomes page zero.
    pub fn build(&self) -> (r: FyydRequest)
        ensures
            r.path@ == "https://api.fyyd.de/0.2/search/podcast"@,
            r.deep_view().params.len() == 5,
            r.deep_view().params[0] == ("title"@, spec_opt_text(self.title)),
            r.deep_view().params[1] == ("url"@, spec_opt_text(self.url)),
            r.deep_view().params[2] == ("language"@, spec_opt_text(self.language)),
            r.deep_view().params[3] == ("term"@, spec_opt_text(self.term)),
            r.deep_view().params[4] == ("page"@, spec_dec(spec_page(self.page))),
    {
        let mut params: Vec<(String, String)> = Vec::new();
        params.push((String::from_str("title"), opt_text(&self.title)));
        params.push((String::from_str("url"), opt_text(&self.url)));
        params.push((String::from_str("language"), opt_text(&self.language)));
        params.push((String::from_str("term"), opt_text(&self.term)));
        let pg: u64 = match self.page {
            Some(p) => p as u64,
            None => 0,
        };
        params.push((String::from_str("page"), u64_dec(pg)));
        FyydRequest { path: String::from_str("https://api.fyyd.de/0.2/search/podcast"), params }
    }
}

/// Builds the episode-listing request for the podcast with feed id `id`:
/// four parameters in the order podcast_id, podcast_slug, page, count.
/// An absent slug becomes an empty-string parameter, an absent page
/// becomes page zero, and an absent page size becomes 50. No value is
/// validated here — an overshot page is passed through as given.
pub fn build_episodes_request(
    id: u64,
    slug: Option<String>,
    count: Option<u16>,
    page: Option<u16>,
) -> (r: FyydRequest)
    ensures
        r.path@ == "https://api.fyyd.de/0.2/podcast/episodes"@,
        r.deep_view().params.len() == 4,
        r.deep_view().params[0] == ("podcast_id"@, spec_dec(id as nat)),
        r.deep_view().params[1] == ("podcast_slug"@, spec_opt_text(slug)),
        r.deep_view().params[2] == ("page"@, spec_dec(spec_page(page))),
        r.deep_view().params[3] == ("count"@, spec_dec(spec_count(count, 50))),
{
    let mut params: Vec<(String, String)> = Vec::new();
    params.push((String::from_str("podcast_id"), u64_dec(id)));
    params.push((String::from_str("podcast_slug"), opt_text(&slug)));
    let pg: u64 = match page {
        Some(p) => p as u64,
        None => 0,
    };
    params.push((String::from_str("page"), u64_dec(pg)));
    let ct: u64 = match count {
        Some(c) => c as u64,
        None => 50,
    };
    params.push((String::from_str("count"), u64_dec(ct)));
    FyydRequest { path: String::from_str("https://api.fyyd.de/0.2/podcast/episodes"), params }
}

/// Builds the latest-episodes request: a count parameter defaulting to
/// 20, preceded by a since_id parameter only when one is given — an
/// absent since_id is omitted, not defaulted. The upstream convention
/// caps since_id at 1000; as with pages, the cap is not enforced here.
pub fn build_latest_request(since_id: Option<u64>, count: Option<u16>) -> (r: FyydRequest)
    ensures
        r.path@ == "https://api.fyyd.de/0.2/podcast/latest"@,
        match since_id {
            Some(sid) => {
                &&& r.deep_view().params.len() == 2
                &&& r.deep_view().params[0] == ("since_id"@, spec_dec(sid as nat))
                &&& r.deep_view().params[1] == ("count"@, spec_dec(spec_count(count, 20)))
            },
            None => {
                &&& r.deep_view().params.len() == 1
                &&& r.deep_view().params[0] == ("count"@, spec_dec(spec_count(count, 20)))
            },
        },
{
    let mut params: Vec<(String, String)> = Vec::new();
    match since_id {
        Some(sid) => params.push((String::from_str("since_id"), u64_dec(sid))),
        None => (),
    }
    let ct: u64 = match count {
        Some(c) => c as u64,
        None => 20,
    };
    params.push((String::from_str("count"), u64_dec(ct)));
    FyydRequest { path: String::from_str("https://api.fyyd.de/0.2/podcast/latest"), params }
}

} // verus!
