use std::collections::HashMap;
use vstd::prelude::*;

use crate::text::{decimal, decimal_of, owned, texts, trim_of, trim_space};

verus! {

/// Search provider (google, bing, duckduckgo, brave, custom).
#[derive(Debug, Clone, Copy, PartialEq, Eq, Structural)]
pub enum SearchProvider {
    Google,
    Bing,
    DuckDuckGo,
    Brave,
    Custom,
}

/// Configuration of the web search plugin.
#[derive(Debug, Clone)]
pub struct WebSearchConfig {
    /// Search provider (google, bing, duckduckgo, brave, custom)
    pub provider: SearchProvider,
    /// API key (for providers that require it)
    pub api_key: Option<String>,
    /// Custom search endpoint
    pub custom_endpoint: Option<String>,
    /// Maximum results per query
    pub max_results: usize,
    /// Request timeout (seconds)
    pub timeout_secs: u64,
    /// User agent
    pub user_agent: String,
    /// Safe search
    pub safe_search: bool,
    /// Region/locale
    pub region: String,
    /// Rate limit (requests per minute)
    pub rate_limit_rpm: u32,
}

impl Default for WebSearchConfig {
    fn default() -> (r: Self)
        ensures
            r.provider == SearchProvider::DuckDuckGo,
            r.api_key is None,
            r.custom_endpoint is None,
            r.max_results == 10,
            r.timeout_secs == 30,
            r.user_agent@ == "MythosHarness/1.0"@,
            r.safe_search,
            r.region@ == "us-en"@,
            r.rate_limit_rpm == 60,
    {
        WebSearchConfig {
            provider: SearchProvider::DuckDuckGo,
            api_key: None,
            custom_endpoint: None,
            max_results: 10,
            timeout_secs: 30,
            user_agent: "MythosHarness/1.0".to_string(),
            safe_search: true,
            region: "us-en".to_string(),
            rate_limit_rpm: 60,
        }
    }
}

/// Search result.
#[derive(Debug, Clone)]
pub struct SearchResult {
    pub title: String,
    pub url: String,
    pub snippet: String,
    pub source: String,
    pub rank: usize,
    pub metadata: HashMap<String, serde_json::Value>,
}

/// Search response.
#[derive(Debug, Clone)]
pub struct SearchResponse {
    pub query: String,
    pub results: Vec<SearchResult>,
    pub total_results: Option<usize>,
    pub search_time_ms: u64,
    pub provider: String,
}

/// The most results a search returns: the requested number, or the
/// configured one, but never more than 50.
pub open spec fn result_limit(requested: Option<usize>, configured: usize) -> usize {
    let n = match requested {
        Some(n) => n,
        None => configured,
    };
    if n < 50 {
        n
    } else {
        50
    }
}

/// The most results a search returns.
pub fn effective_max_results(requested: Option<usize>, configured: usize) -> (r: usize)
    ensures
        r == result_limit(requested, configured),
        r <= 50,
{
    let n = match requested {
        Some(n) => n,
        None => configured,
    };
    if n < 50 {
        n
    } else {
        50
    }
}

/// The name a provider is reported under.
pub open spec fn provider_label(p: SearchProvider) -> Seq<char> {
    match p {
        SearchProvider::Google => "Google"@,
        SearchProvider::Bing => "Bing"@,
        SearchProvider::DuckDuckGo => "DuckDuckGo"@,
        SearchProvider::Brave => "Brave"@,
        SearchProvider::Custom => "Custom"@,
    }
}

/// The name a provider is reported under.
pub fn provider_name(p: SearchProvider) -> (r: String)
    ensures
        r@ == provider_label(p),
{
    match p {
        SearchProvider::Google => owned("Google"),
        SearchProvider::Bing => owned("Bing"),
        SearchProvider::DuckDuckGo => owned("DuckDuckGo"),
        SearchProvider::Brave => owned("Brave"),
        SearchProvider::Custom => owned("Custom"),
    }
}

/// Why a search could not be sent.
#[derive(Debug, Clone, Copy, PartialEq, Eq, Structural)]
pub enum SearchError {
    /// The provider needs an API key and none is configured
    ApiKeyRequired(SearchProvider),
    /// The custom provider needs an endpoint and none is configured
    EndpointRequired,
}

impl SearchError {
    /// The message of the error.
    pub fn message(&self) -> (r: String)
        ensures
            self matches SearchError::ApiKeyRequired(p) ==> r@ == provider_label(*p)
                + " API key required"@,
            self is EndpointRequired ==> r@ == "Custom search endpoint required"@,
    {
        match self {
            SearchError::ApiKeyRequired(p) => {
                let mut r = provider_name(*p);
                r.append(" API key required");
                r
            },
            SearchError::EndpointRequired => owned("Custom search endpoint required"),
        }
    }
}

/// The provider is queried with an API key.
pub open spec fn needs_api_key(p: SearchProvider) -> bool {
    p == SearchProvider::Google || p == SearchProvider::Bing || p == SearchProvider::Brave
}

/// The credential a search with this configuration is sent with: the API
/// key for Google, Bing and Brave, the endpoint for a custom provider, and
/// none for DuckDuckGo. A missing key or endpoint is an error.
pub fn required_credential(config: &WebSearchConfig) -> (r: Result<Option<String>, SearchError>)
    ensures
        config.provider == SearchProvider::DuckDuckGo ==> r == Ok::<Option<String>, SearchError>(
            None,
        ),
        needs_api_key(config.provider) ==> match config.api_key {
            Some(k) => r matches Ok(Some(c)) && c@ == k@,
            None => r == Err::<Option<String>, SearchError>(
                SearchError::ApiKeyRequired(config.provider),
            ),
        },
        config.provider == SearchProvider::Custom ==> match config.custom_endpoint {
            Some(e) => r matches Ok(Some(c)) && c@ == e@,
            None => r == Err::<Option<String>, SearchError>(SearchError::EndpointRequired),
        },
{
    match config.provider {
        SearchProvider::DuckDuckGo => Ok(None),
        SearchProvider::Custom => match &config.custom_endpoint {
            Some(e) => Ok(Some(owned(e.as_str()))),
            None => Err(SearchError::EndpointRequired),
        },
        _ => match &config.api_key {
            Some(k) => Ok(Some(owned(k.as_str()))),
            None => Err(SearchError::ApiKeyRequired(config.provider)),
        },
    }
}

/// The response to a search: the query, its results, the time it took and
/// the provider's name; the total is unknown.
pub fn search_response(
    query: &str,
    results: Vec<SearchResult>,
    search_time_ms: u64,
    provider: SearchProvider,
) -> (r: SearchResponse)
    ensures
        r.query@ == query@,
        r.results == results,
        r.total_results is None,
        r.search_time_ms == search_time_ms,
        r.provider@ == provider_label(provider),
{
    SearchResponse {
        query: owned(query),
        results,
        total_results: None,
        search_time_ms,
        provider: provider_name(provider),
    }
}

/// The JSON fields a provider's API reports a result in: title, link and
/// snippet, and the source name the results are tagged with.
#[derive(Debug, Clone)]
pub struct ResultFields {
    pub title: String,
    pub url: String,
    pub snippet: String,
    pub source: String,
}

/// The result fields of a provider with a JSON API (none for DuckDuckGo,
/// whose results are read from its HTML page).
pub open spec fn provider_field_names(p: SearchProvider) -> Option<
    (Seq<char>, Seq<char>, Seq<char>, Seq<char>),
> {
    match p {
        SearchProvider::Google => Some(("title"@, "link"@, "snippet"@, "google"@)),
        SearchProvider::Bing => Some(("name"@, "url"@, "snippet"@, "bing"@)),
        SearchProvider::Brave => Some(("title"@, "url"@, "description"@, "brave"@)),
        SearchProvider::Custom => Some(("title"@, "url"@, "snippet"@, "custom"@)),
        SearchProvider::DuckDuckGo => None,
    }
}

/// Each provider's answer is read by the fields its API uses: Google items
/// carry `title`, `link` and `snippet`; Bing web pages carry `name`, `url`
/// and `snippet`; Brave web results carry `title`, `url` and `description`;
/// a custom endpoint answers with `title`, `url` and `snippet`. Results are
/// tagged with the provider's name in lower case. DuckDuckGo has no JSON
/// answer.
pub proof fn lemma_provider_answer_fields(p: SearchProvider)
    ensures
        p == SearchProvider::Google ==> provider_field_names(p) == Some(
            ("title"@, "link"@, "snippet"@, "google"@),
        ),
        p == SearchProvider::Bing ==> provider_field_names(p) == Some(
            ("name"@, "url"@, "snippet"@, "bing"@),
        ),
        p == SearchProvider::Brave ==> provider_field_names(p) == Some(
            ("title"@, "url"@, "description"@, "brave"@),
        ),
        p == SearchProvider::Custom ==> provider_field_names(p) == Some(
            ("title"@, "url"@, "snippet"@, "custom"@),
        ),
        p == SearchProvider::DuckDuckGo ==> provider_field_names(p) is None,
{
}

/// The result fields of a provider with a JSON API.
pub fn result_fields(p: SearchProvider) -> (r: Option<ResultFields>)
    ensures
        provider_field_names(p) matches Some(f) ==> (r matches Some(x) && x.title@ == f.0
            && x.url@ == f.1 && x.snippet@ == f.2 && x.source@ == f.3),
        provider_field_names(p) is None ==> r is None,
{
    match p {
        SearchProvider::Google => Some(
            ResultFields {
                title: owned("title"),
                url: owned("link"),
                snippet: owned("snippet"),
                source: owned("google"),
            },
        ),
        SearchProvider::Bing => Some(
            ResultFields {
                title: owned("name"),
                url: owned("url"),
                snippet: owned("snippet"),
                source: owned("bing"),
            },
        ),
        SearchProvider::Brave => Some(
            ResultFields {
                title: owned("title"),
                url: owned("url"),
                snippet: owned("description"),
                source: owned("brave"),
            },
        ),
        SearchProvider::Custom => Some(
            ResultFields {
                title: owned("title"),
                url: owned("url"),
                snippet: owned("snippet"),
                source: owned("custom"),
            },
        ),
        SearchProvider::DuckDuckGo => None,
    }
}

/// One item of a provider's JSON answer: its title, link and snippet where
/// the item holds them as strings.
#[derive(Debug, Clone)]
pub struct RawSearchItem {
    pub title: Option<String>,
    pub url: Option<String>,
    pub snippet: Option<String>,
}

/// The text of an optional field, empty when the field is missing.
pub open spec fn text_or_empty(s: Option<String>) -> Seq<char> {
    match s {
        Some(t) => t@,
        None => Seq::empty(),
    }
}

/// `n` is the smaller of `a` and `b`.
pub open spec fn min_nat(a: nat, b: nat) -> nat {
    if a < b {
        a
    } else {
        b
    }
}

fn text_or_empty_exec(s: &Option<String>) -> (r: String)
    ensures
        r@ == text_or_empty(*s),
{
    match s {
        Some(t) => owned(t.as_str()),
        None => String::new(),
    }
}

/// Turn the items of a provider's answer into results: at most
/// `max_results` of them, in order, ranked from zero, with missing fields
/// empty and tagged with the provider's source name.
pub fn collect_results(items: &Vec<RawSearchItem>, source: &str, max_results: usize) -> (r: Vec<
    SearchResult,
>)
    ensures
        r@.len() == min_nat(items@.len(), max_results as nat),
        forall|i: int|
            0 <= i < r@.len() ==> {
                &&& (#[trigger] r@[i]).title@ == text_or_empty(items@[i].title)
                &&& r@[i].url@ == text_or_empty(items@[i].url)
                &&& r@[i].snippet@ == text_or_empty(items@[i].snippet)
                &&& r@[i].source@ == source@
                &&& r@[i].rank == i
                &&& r@[i].metadata@ == Map::<String, serde_json::Value>::empty()
            },
{
    let mut out: Vec<SearchResult> = Vec::new();
    let mut i: usize = 0;
    while i < items.len() && i < max_results
        invariant
            i <= items@.len(),
            i <= max_results,
            out@.len() == i,
            forall|k: int|
                0 <= k < i ==> {
                    &&& (#[trigger] out@[k]).title@ == text_or_empty(items@[k].title)
                    &&& out@[k].url@ == text_or_empty(items@[k].url)
                    &&& out@[k].snippet@ == text_or_empty(items@[k].snippet)
                    &&& out@[k].source@ == source@
                    &&& out@[k].rank == k
                    &&& out@[k].metadata@ == Map::<String, serde_json::Value>::empty()
                },
        decreases items@.len() - i,
    {
        let item = &items[i];
        out.push(
            SearchResult {
                title: text_or_empty_exec(&item.title),
                url: text_or_empty_exec(&item.url),
                snippet: text_or_empty_exec(&item.snippet),
                source: owned(source),
                rank: i,
                metadata: HashMap::new(),
            },
        );
        i = i + 1;
    }
    out
}

/// A search result block of a DuckDuckGo HTML page: the text of the snippet
/// element, and the texts of the title and of the link elements inside it,
/// in document order.
#[derive(Debug, Clone)]
pub struct DdgFragment {
    pub text: String,
    pub titles: Vec<String>,
    pub urls: Vec<String>,
}

/// The plain values of a fragment: its text, its title texts and its link
/// texts.
pub type FragmentView = (Seq<char>, Seq<Seq<char>>, Seq<Seq<char>>);

/// The plain values of a fragment.
pub open spec fn fragment_view(f: DdgFragment) -> FragmentView {
    (f.text@, texts(f.titles@), texts(f.urls@))
}

/// A parsed CSS selector (the `scraper` crate's `Selector`).
#[verifier::external_type_specification]
#[verifier::external_body]
pub struct ExCssSelector(scraper::Selector);

/// A CSS selector together with the text it was parsed from.
pub struct CssSelector {
    source: String,
    selector: scraper::Selector,
}

impl CssSelector {
    /// The text the selector was parsed from.
    pub closed spec fn source(&self) -> Seq<char> {
        self.source@
    }
}

/// Whether `scraper::Selector::parse` accepts the selector text.
pub uninterp spec fn css_accepts(s: Seq<char>) -> bool;

/// A CSS identifier character of the plain kind: an ASCII letter, digit,
/// `_` or `-`.
pub open spec fn is_plain_ident_char(c: char) -> bool {
    ('a' <= c <= 'z') || ('A' <= c <= 'Z') || ('0' <= c <= '9') || c == '_' || c == '-'
}

/// A class selector of the plain kind: `.` and an identifier that starts
/// with an ASCII letter or `_` and goes on with plain identifier characters.
pub open spec fn is_plain_class_selector(s: Seq<char>) -> bool {
    &&& s.len() >= 2
    &&& s[0] == '.'
    &&& (('a' <= s[1] <= 'z') || ('A' <= s[1] <= 'Z') || s[1] == '_')
    &&& forall|i: int| 1 <= i < s.len() ==> is_plain_ident_char(#[trigger] s[i])
}

/// `scraper::Selector::parse`: parse a CSS selector group. The outcome is
/// named by `css_accepts`, a parsed selector keeps the text it came from,
/// and a plain class selector (`.` and a CSS identifier) is valid CSS and is
/// accepted. What else the selector grammar accepts is not stated.
#[verifier::external_body]
fn parse_selector(s: &str) -> (r: Option<CssSelector>)
    ensures
        r is Some == css_accepts(s@),
        r matches Some(c) ==> c.source() == s@,
        is_plain_class_selector(s@) ==> r is Some,
{
    match scraper::Selector::parse(s) {
        Ok(selector) => Some(CssSelector { source: s.to_string(), selector }),
        Err(_) => None,
    }
}

/// The fragments of an HTML page as the `scraper` crate finds them: for
/// each element that the selector `snippet` matches, in document order, its
/// text, and the texts of its descendants that `title` matches and of those
/// that `url` matches, in document order.
pub uninterp spec fn ddg_fragments(
    html: Seq<char>,
    snippet: Seq<char>,
    title: Seq<char>,
    url: Seq<char>,
) -> Seq<FragmentView>;

/// Read the fragments of an HTML page with the `scraper` crate
/// (`Html::parse_document`, `Html::select`, `ElementRef::select` and
/// `ElementRef::text`). The contract names the fragments by `ddg_fragments`
/// over the page and the texts of the three selectors; how HTML is parsed
/// and matched is not stated.
#[verifier::external_body]
fn scrape_fragments(html: &str, snippet: &CssSelector, title: &CssSelector, url: &CssSelector) -> (r:
    Vec<DdgFragment>)
    ensures
        r@.map_values(|f: DdgFragment| fragment_view(f)) == ddg_fragments(
            html@,
            snippet.source(),
            title.source(),
            url.source(),
        ),
{
    let doc = scraper::Html::parse_document(html);
    doc.select(&snippet.selector).map(|e| DdgFragment {
        text: e.text().collect(),
        titles: e.select(&title.selector).map(|t| t.text().collect()).collect(),
        urls: e.select(&url.selector).map(|u| u.text().collect()).collect(),
    }).collect()
}

/// The title of a kept fragment: the trimmed text of its first title
/// element, or `Result <rank + 1>` when it has none.
pub open spec fn fragment_title(f: FragmentView, rank: nat) -> Seq<char> {
    if f.1.len() > 0 {
        trim_space(f.1[0])
    } else {
        "Result "@ + decimal(rank + 1)
    }
}

/// The link of a kept fragment: the trimmed text of its first link element,
/// or nothing when it has none.
pub open spec fn fragment_link(f: FragmentView) -> Seq<char> {
    if f.2.len() > 0 {
        trim_space(f.2[0])
    } else {
        Seq::empty()
    }
}

/// The results kept from a list of fragments, starting at rank `rank`:
/// fragments whose trimmed snippet is empty are skipped, and no more are
/// kept once the rank reaches `max`. Each is (title, link, snippet).
pub open spec fn kept_results(
    frags: Seq<FragmentView>,
    max: nat,
    rank: nat,
) -> Seq<(Seq<char>, Seq<char>, Seq<char>)>
    decreases frags.len(),
{
    if frags.len() == 0 || rank >= max {
        Seq::empty()
    } else {
        let f = frags[0];
        let snippet = trim_space(f.0);
        if snippet.len() == 0 {
            kept_results(frags.drop_first(), max, rank)
        } else {
            seq![
                (
                    fragment_title(f, rank),
                    fragment_link(f),
                    snippet,
                ),
            ] + kept_results(frags.drop_first(), max, rank + 1)
        }
    }
}

proof fn lemma_kept_results_len(
    frags: Seq<FragmentView>,
    max: nat,
    rank: nat,
)
    ensures
        rank <= max ==> rank + kept_results(frags, max, rank).len() <= max,
        rank > max ==> kept_results(frags, max, rank).len() == 0,
        kept_results(frags, max, rank).len() <= frags.len(),
    decreases frags.len(),
{
    if frags.len() > 0 && rank < max {
        lemma_kept_results_len(frags.drop_first(), max, rank);
        lemma_kept_results_len(frags.drop_first(), max, rank + 1);
    }
}

/// A DuckDuckGo page gives no more results than the maximum asked for, and
/// no more than it has result blocks.
pub proof fn lemma_duckduckgo_result_bounds(html: Seq<char>, max_results: nat)
    ensures
        kept_results(duckduckgo_fragments(html), max_results, 0).len() <= max_results,
        kept_results(duckduckgo_fragments(html), max_results, 0).len()
            <= duckduckgo_fragments(html).len(),
{
    lemma_kept_results_len(duckduckgo_fragments(html), max_results, 0);
}

/// The result blocks of a DuckDuckGo HTML page: the elements of class
/// `result__snippet`, each with the texts of its elements of class
/// `result__title` and `result__url`.
pub open spec fn duckduckgo_fragments(html: Seq<char>) -> Seq<FragmentView> {
    ddg_fragments(html, ".result__snippet"@, ".result__title"@, ".result__url"@)
}

/// The plain values of a list of fragments.
pub open spec fn fragment_views(frags: Seq<DdgFragment>) -> Seq<
    FragmentView,
> {
    frags.map_values(|f: DdgFragment| fragment_view(f))
}

/// Parse the results of a DuckDuckGo HTML page: the snippet blocks in
/// document order, skipping those whose trimmed text is empty, at most
/// `max_results`, ranked from zero and tagged `duckduckgo`.
pub fn parse_duckduckgo_html(html: &str, max_results: usize) -> (r: Vec<SearchResult>)
    ensures
        r@.len() == kept_results(
            ddg_fragments(html@, ".result__snippet"@, ".result__title"@, ".result__url"@),
            max_results as nat,
            0,
        ).len(),
        forall|i: int|
            0 <= i < r@.len() ==> {
                let k = kept_results(
                    ddg_fragments(html@, ".result__snippet"@, ".result__title"@, ".result__url"@),
                    max_results as nat,
                    0,
                )[i];
                &&& (#[trigger] r@[i]).title@ == k.0
                &&& r@[i].url@ == k.1
                &&& r@[i].snippet@ == k.2
                &&& r@[i].source@ == "duckduckgo"@
                &&& r@[i].rank == i
                &&& r@[i].metadata@ == Map::<String, serde_json::Value>::empty()
            },
{
    proof {
        reveal_strlit(".result__snippet");
        reveal_strlit(".result__title");
        reveal_strlit(".result__url");
    }
    assert(is_plain_class_selector(".result__snippet"@));
    assert(is_plain_class_selector(".result__title"@));
    assert(is_plain_class_selector(".result__url"@));
    let snippet = parse_selector(".result__snippet");
    let title = parse_selector(".result__title");
    let url = parse_selector(".result__url");
    match (snippet, title, url) {
        (Some(snippet), Some(title), Some(url)) => {
            let frags = scrape_fragments(html, &snippet, &title, &url);
            results_from_fragments(&frags, max_results)
        },
        _ => Vec::new(),
    }
}

/// The search results of the result blocks of a DuckDuckGo page: blocks
/// whose trimmed text is empty are skipped, at most `max_results` are kept,
/// each titled by its trimmed title (or `Result <rank + 1>`), linked by its
/// trimmed link (or nothing), ranked from zero and tagged `duckduckgo`.
pub fn results_from_fragments(frags: &Vec<DdgFragment>, max_results: usize) -> (r: Vec<SearchResult>)
    ensures
        r@.len() == kept_results(fragment_views(frags@), max_results as nat, 0).len(),
        forall|i: int|
            0 <= i < r@.len() ==> {
                let k = kept_results(fragment_views(frags@), max_results as nat, 0)[i];
                &&& (#[trigger] r@[i]).title@ == k.0
                &&& r@[i].url@ == k.1
                &&& r@[i].snippet@ == k.2
                &&& r@[i].source@ == "duckduckgo"@
                &&& r@[i].rank == i
                &&& r@[i].metadata@ == Map::<String, serde_json::Value>::empty()
            },
{
    let ghost fv = frags@.map_values(|f: DdgFragment| fragment_view(f));
    let ghost all = kept_results(fv, max_results as nat, 0);
    let mut out: Vec<SearchResult> = Vec::new();
    let mut i: usize = 0;
    assert(fv.skip(0) =~= fv);
    assert(all =~= Seq::<(Seq<char>, Seq<char>, Seq<char>)>::empty() + all);
    proof {
        lemma_kept_results_len(fv, max_results as nat, 0);
    }
    while i < frags.len() && out.len() < max_results
        invariant
            fv == frags@.map_values(|f: DdgFragment| fragment_view(f)),
            fv == fragment_views(frags@),
            all == kept_results(fv, max_results as nat, 0),
            i <= frags@.len(),
            out@.len() <= max_results,
            all.len() <= max_results,
            out@.len() <= all.len(),
            all.subrange(0, out@.len() as int) + kept_results(
                fv.skip(i as int),
                max_results as nat,
                out@.len() as nat,
            ) == all,
            forall|k: int|
                0 <= k < out@.len() ==> {
                    &&& (#[trigger] out@[k]).title@ == all[k].0
                    &&& out@[k].url@ == all[k].1
                    &&& out@[k].snippet@ == all[k].2
                    &&& out@[k].source@ == "duckduckgo"@
                    &&& out@[k].rank == k
                    &&& out@[k].metadata@ == Map::<String, serde_json::Value>::empty()
                },
        decreases frags@.len() - i,
    {
        let rank = out.len();
        let ghost rest = fv.skip(i as int);
        proof {
            assert(rest[0] == fragment_view(frags@[i as int]));
            assert(rest.drop_first() =~= fv.skip(i + 1));
        }
        let f = &frags[i];
        let snippet = trim_of(f.text.as_str());
        if snippet.unicode_len() > 0 {
            let title = if f.titles.len() > 0 {
                trim_of(f.titles[0].as_str())
            } else {
                let mut s = owned("Result ");
                let d = decimal_of(rank as u64 + 1);
                s.append(d.as_str());
                s
            };
            let url = if f.urls.len() > 0 {
                trim_of(f.urls[0].as_str())
            } else {
                String::new()
            };
            let ghost entry = (title@, url@, snippet@);
            proof {
                let tail = kept_results(fv.skip(i + 1), max_results as nat, (rank + 1) as nat);
                assert(kept_results(rest, max_results as nat, rank as nat) == seq![entry] + tail);
                lemma_kept_results_len(fv.skip(i + 1), max_results as nat, (rank + 1) as nat);
                assert(all[rank as int] == entry) by {
                    assert((all.subrange(0, rank as int) + (seq![entry] + tail))[rank as int]
                        == entry);
                }
                assert(all.subrange(0, rank + 1) =~= all.subrange(0, rank as int).push(entry));
                assert(all.subrange(0, rank + 1) + tail =~= all.subrange(0, rank as int) + (
                seq![entry] + tail));
            }
            out.push(
                SearchResult {
                    title,
                    url,
                    snippet,
                    source: owned("duckduckgo"),
                    rank,
                    metadata: HashMap::new(),
                },
            );
        }
        i = i + 1;
    }
    proof {
        if out@.len() < max_results {
            assert(fv.skip(i as int) =~= Seq::<
                FragmentView,
            >::empty());
        }
        assert(all.subrange(0, out@.len() as int) =~= all);
    }
    out
}

} // verus!
