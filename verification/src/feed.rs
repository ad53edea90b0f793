use vstd::prelude::*;

use crate::article::{article_of, Article, ArticleV};
use crate::item::{strings_view, ItemV, RawItem};
use crate::source::Source;

verus! {

/// Why the surrounding I/O could not deliver one source's body: the GET
/// request failed (or the server did), or the concurrent fetch task itself
/// could not be run to completion.
#[derive(Clone, Copy, Debug, PartialEq, Eq, Structural)]
pub enum FetchFailure {
    Network,
    Task,
}

/// The single error a failed aggregation surfaces, naming the source on
/// which it arose.
#[derive(Clone, Copy, Debug, PartialEq, Eq, Structural)]
pub enum FeedError {
    NetworkError(Source),
    ParseError(Source),
    TaskFailure(Source),
}

/// What `rss::Channel::read_from` parses out of a byte buffer: `None` when
/// the bytes are not a well-formed feed document, otherwise the document's
/// items in document order. The outcome is a function of the bytes alone.
pub uninterp spec fn parsed_channel(bytes: Seq<u8>) -> Option<Seq<ItemV>>;

/// The views of a list of raw items.
pub open spec fn items_view(items: Seq<RawItem>) -> Seq<ItemV> {
    items.map_values(|i: RawItem| i@)
}

/// The views of a list of articles.
pub open spec fn articles_view(articles: Seq<Article>) -> Seq<ArticleV> {
    articles.map_values(|a: Article| a@)
}

/// Relies on `rss::Channel::read_from`: it parses a byte buffer as a feed
/// document, returning `Ok` exactly on well-formed documents, and its outcome
/// depends on the bytes alone. The wrapper keeps, for every item in document
/// order, the four textual fields and the Dublin Core creator names.
#[verifier::external_body]
fn parse_channel(bytes: &Vec<u8>) -> (r: Result<Vec<RawItem>, ()>)
    ensures
        r is Ok <==> parsed_channel(bytes@) is Some,
        r matches Ok(items) ==> items_view(items@) == parsed_channel(bytes@)->Some_0,
{
    match rss::Channel::read_from(&bytes[..]) {
        Ok(c) => Ok(c.items.into_iter().map(|i| RawItem {
            title: i.title,
            description: i.description,
            link: i.link,
            pub_date: i.pub_date,
            creators: match i.dublin_core_ext {
                Some(d) => d.creators,
                None => Vec::new(),
            },
        }).collect()),
        Err(_) => Err(()),
    }
}

/// The view of one fetched body.
pub open spec fn fetch_view(r: Result<Vec<u8>, FetchFailure>) -> Result<Seq<u8>, FetchFailure> {
    match r {
        Ok(b) => Ok(b@),
        Err(e) => Err(e),
    }
}

/// Resolving one source: its parsed items in document order, or the error
/// that the failed fetch or the malformed body gives rise to.
pub open spec fn source_outcome(body: Result<Seq<u8>, FetchFailure>, s: Source) -> Result<
    Seq<ItemV>,
    FeedError,
> {
    match body {
        Err(FetchFailure::Task) => Err(FeedError::TaskFailure(s)),
        Err(FetchFailure::Network) => Err(FeedError::NetworkError(s)),
        Ok(bytes) => match parsed_channel(bytes) {
            Some(items) => Ok(items),
            None => Err(FeedError::ParseError(s)),
        },
    }
}

/// Resolve one source's fetched body: parse it into raw items, or surface
/// the fetch or parse failure as this source's error.
pub fn get_channel(body: Result<Vec<u8>, FetchFailure>, source: Source) -> (r: Result<
    Vec<RawItem>,
    FeedError,
>)
    ensures
        r matches Ok(items) ==> source_outcome(fetch_view(body), source) == Ok::<_, FeedError>(
            items_view(items@),
        ),
        r matches Err(e) ==> source_outcome(fetch_view(body), source) == Err::<Seq<ItemV>, _>(e),
{
    match body {
        Err(FetchFailure::Task) => Err(FeedError::TaskFailure(source)),
        Err(FetchFailure::Network) => Err(FeedError::NetworkError(source)),
        Ok(bytes) => match parse_channel(&bytes) {
            Ok(items) => Ok(items),
            Err(_) => Err(FeedError::ParseError(source)),
        },
    }
}

/// All items converted, in order.
pub open spec fn converted(items: Seq<ItemV>) -> Seq<ArticleV> {
    items.map_values(|i: ItemV| article_of(i))
}

/// Whether an item's attribution list names `name`.
pub open spec fn has_creator(i: ItemV, name: Seq<char>) -> bool {
    i.creators.contains(name)
}

/// The spec-level attribution test, as `filtered` applies it.
pub open spec fn keep_if_attributed(name: Seq<char>) -> spec_fn(ItemV) -> Option<ArticleV> {
    |i: ItemV|
        if has_creator(i, name) {
            Some(article_of(i))
        } else {
            None::<ArticleV>
        }
}

/// Exactly the items attributed to `name`, converted, in document order.
pub open spec fn filtered(items: Seq<ItemV>, name: Seq<char>) -> Seq<ArticleV> {
    items.filter_map(keep_if_attributed(name))
}

/// Convert every raw item to an Article, keeping order.
pub fn convert_items(items: &Vec<RawItem>) -> (r: Vec<Article>)
    ensures
        articles_view(r@) == converted(items_view(items@)),
{
    let mut out: Vec<Article> = Vec::new();
    let mut i: usize = 0;
    while i < items.len()
        invariant
            i <= items.len(),
            out@.len() == i,
            forall|j: int| 0 <= j < i ==> out@[j]@ == article_of(items@[j]@),
        decreases items.len() - i,
    {
        out.push(Article::from(&items[i]));
        i += 1;
    }
    proof {
        assert(articles_view(out@) =~= converted(items_view(items@)));
    }
    out
}

/// Whether the list of creator names contains `name`.
fn contains_name(creators: &Vec<String>, name: &String) -> (r: bool)
    ensures
        r == strings_view(creators@).contains(name@),
{
    let mut j: usize = 0;
    while j < creators.len()
        invariant
            j <= creators.len(),
            forall|k: int| 0 <= k < j ==> creators@[k]@ != name@,
        decreases creators.len() - j,
    {
        if creators[j] == *name {
            proof {
                assert(strings_view(creators@)[j as int] == name@);
            }
            return true;
        }
        j += 1;
    }
    proof {
        assert forall|k: int| 0 <= k < strings_view(creators@).len() implies strings_view(
            creators@,
        )[k] != name@ by {
            assert(strings_view(creators@)[k] == creators@[k]@);
        }
    }
    false
}

/// Keep exactly the items attributed to `name`, converted, in order. An item
/// without that attribution is dropped silently.
pub fn filter_items(items: &Vec<RawItem>, name: &String) -> (r: Vec<Article>)
    ensures
        articles_view(r@) == filtered(items_view(items@), name@),
{
    let ghost v = items_view(items@);
    let ghost f = keep_if_attributed(name@);
    let mut out: Vec<Article> = Vec::new();
    let mut i: usize = 0;
    while i < items.len()
        invariant
            i <= items.len(),
            v == items_view(items@),
            f == keep_if_attributed(name@),
            articles_view(out@) == v.take(i as int).filter_map(f),
        decreases items.len() - i,
    {
        let ghost prev = out@;
        let item = &items[i];
        proof {
            v.lemma_filter_map_take_succ(f, i as int);
            assert(v[i as int] == items@[i as int]@);
        }
        if contains_name(&item.creators, name) {
            out.push(Article::from(item));
            proof {
                assert(articles_view(out@) =~= articles_view(prev) + seq![
                    article_of(items@[i as int]@),
                ]);
            }
        } else {
            proof {
                assert(articles_view(out@) =~= v.take(i + 1).filter_map(f));
            }
        }
        i += 1;
    }
    proof {
        assert(v.take(items@.len() as int) =~= v);
    }
    out
}

proof fn lemma_filtered_contains_attributed(items: Seq<ItemV>, name: Seq<char>, j: int)
    requires
        0 <= j < items.len(),
        has_creator(items[j], name),
    ensures
        filtered(items, name).contains(article_of(items[j])),
    decreases items.len(),
{
    let f = keep_if_attributed(name);
    let rest = items.drop_last();
    let rest_fm = rest.filter_map(f);
    if j == items.len() - 1 {
        assert(items.filter_map(f) == rest_fm + seq![article_of(items[j])]);
        assert(items.filter_map(f)[rest_fm.len() as int] == article_of(items[j]));
    } else {
        assert(rest[j] == items[j]);
        lemma_filtered_contains_attributed(rest, name, j);
        let k = choose|k: int| 0 <= k < rest_fm.len() && rest_fm[k] == article_of(items[j]);
        match f(items.last()) {
            Some(a) => {
                assert(items.filter_map(f) == rest_fm + seq![a]);
                assert(items.filter_map(f)[k] == article_of(items[j]));
            },
            None => {
                assert(items.filter_map(f) == rest_fm);
            },
        }
    }
}

/// Whether `a` is the converted article of some item of `items` that is
/// attributed to `name`.
pub open spec fn comes_from_attributed(items: Seq<ItemV>, name: Seq<char>, a: ArticleV) -> bool {
    exists|j: int|
        0 <= j < items.len() && has_creator(#[trigger] items[j], name) && a == article_of(items[j])
}

/// Soundness and completeness of the attribution filter: every article of
/// the filtered list converts an item that is attributed to `name`, and the
/// converted article of every item attributed to `name` is in the list.
pub proof fn lemma_filter_sound_complete(items: Seq<ItemV>, name: Seq<char>)
    ensures
        forall|k: int|
            0 <= k < filtered(items, name).len() ==> comes_from_attributed(
                items,
                name,
                #[trigger] filtered(items, name)[k],
            ),
        forall|j: int|
            0 <= j < items.len() && has_creator(#[trigger] items[j], name) ==> filtered(
                items,
                name,
            ).contains(article_of(items[j])),
{
    let f = keep_if_attributed(name);
    assert forall|k: int| 0 <= k < filtered(items, name).len() implies comes_from_attributed(
        items,
        name,
        #[trigger] filtered(items, name)[k],
    ) by {
        let a = filtered(items, name)[k];
        assert(filtered(items, name).contains(a));
        items.lemma_filter_map_contains(f, a);
        let t = choose|t: ItemV| #[trigger] items.contains(t) && f(t) == Some(a);
        let j = choose|j: int| 0 <= j < items.len() && items[j] == t;
        assert(has_creator(items[j], name) && a == article_of(items[j]));
    }
    assert forall|j: int| 0 <= j < items.len() && has_creator(#[trigger] items[j], name) implies
    filtered(items, name).contains(article_of(items[j])) by {
        lemma_filtered_contains_attributed(items, name, j);
    }
}

/// Order and length of the unfiltered conversion: the converted list has one
/// article per raw item, position for position.
pub proof fn lemma_convert_order(items: Seq<ItemV>)
    ensures
        converted(items).len() == items.len(),
        forall|j: int| 0 <= j < items.len() ==> converted(items)[j] == article_of(
            #[trigger] items[j],
        ),
{
}

/// The author whose items the attribution-filtered source keeps.
pub open spec fn designated_creator() -> Seq<char> {
    "Mustafif Khan"@
}

/// The designated author's name, as the attribution filter compares it.
pub fn designated_creator_name() -> (r: String)
    ensures
        r@ == designated_creator(),
{
    String::from_str("Mustafif Khan")
}

/// The aggregation result: exactly one article list per configured source.
#[derive(Debug)]
pub struct RssMap {
    devto: Vec<Article>,
    moka: Vec<Article>,
    mufiz: Vec<Article>,
}

impl View for RssMap {
    type V = Map<Source, Seq<ArticleV>>;

    closed spec fn view(&self) -> Map<Source, Seq<ArticleV>> {
        map![
            Source::DevTo => articles_view(self.devto@),
            Source::MoKa => articles_view(self.moka@),
            Source::Mufiz => articles_view(self.mufiz@),
        ]
    }
}

impl RssMap {
    /// Every configured source is a key of the mapping, and nothing else is.
    pub proof fn lemma_keys_complete(&self)
        ensures
            self@.dom() =~= set![Source::DevTo, Source::MoKa, Source::Mufiz],
    {
    }

    /// The article list of one source.
    pub fn get(&self, source: Source) -> (r: &Vec<Article>)
        ensures
            articles_view(r@) == self@[source],
    {
        match source {
            Source::DevTo => &self.devto,
            Source::MoKa => &self.moka,
            Source::Mufiz => &self.mufiz,
        }
    }
}

/// The full aggregation, over the views of the three fetched bodies: the
/// error of the first failed source (resolved in the order Mufiz, MoKa,
/// DevTo), or the mapping that binds every source to its converted — and,
/// for MoKa, attribution-filtered — article list.
pub open spec fn feed_spec(
    devto: Result<Seq<u8>, FetchFailure>,
    moka: Result<Seq<u8>, FetchFailure>,
    mufiz: Result<Seq<u8>, FetchFailure>,
) -> Result<Map<Source, Seq<ArticleV>>, FeedError> {
    match (
        source_outcome(mufiz, Source::Mufiz),
        source_outcome(moka, Source::MoKa),
        source_outcome(devto, Source::DevTo),
    ) {
        (Err(e), _, _) => Err(e),
        (Ok(_), Err(e), _) => Err(e),
        (Ok(_), Ok(_), Err(e)) => Err(e),
        (Ok(mu), Ok(mo), Ok(de)) => Ok(
            map![
                Source::DevTo => converted(de),
                Source::MoKa => filtered(mo, designated_creator()),
                Source::Mufiz => converted(mu),
            ],
        ),
    }
}

/// Idempotence of aggregation: any two results that `feed`'s contract admits
/// for identical fetched bodies have identical content. Two invocations
/// against an unchanged remote feed therefore agree on every article.
pub proof fn lemma_feed_deterministic(
    m1: RssMap,
    m2: RssMap,
    devto: Result<Seq<u8>, FetchFailure>,
    moka: Result<Seq<u8>, FetchFailure>,
    mufiz: Result<Seq<u8>, FetchFailure>,
)
    requires
        feed_spec(devto, moka, mufiz) == Ok::<Map<Source, Seq<ArticleV>>, FeedError>(m1@),
        feed_spec(devto, moka, mufiz) == Ok::<Map<Source, Seq<ArticleV>>, FeedError>(m2@),
    ensures
        m1@ == m2@,
{
}

/// Aggregate the three sources' fetched bodies into the source-to-articles
/// mapping. Any failed source fails the whole aggregation with that source's
/// error; on success every source is present, bound to its converted and —
/// for the attribution-filtered source — filtered article list.
pub fn feed(
    devto: Result<Vec<u8>, FetchFailure>,
    moka: Result<Vec<u8>, FetchFailure>,
    mufiz: Result<Vec<u8>, FetchFailure>,
) -> (r: Result<RssMap, FeedError>)
    ensures
        r matches Ok(m) ==> feed_spec(fetch_view(devto), fetch_view(moka), fetch_view(mufiz))
            == Ok::<_, FeedError>(m@),
        r matches Err(e) ==> feed_spec(fetch_view(devto), fetch_view(moka), fetch_view(mufiz))
            == Err::<Map<Source, Seq<ArticleV>>, _>(e),
{
    let ghost goal = feed_spec(fetch_view(devto), fetch_view(moka), fetch_view(mufiz));
    let mufiz_items = match get_channel(mufiz, Source::Mufiz) {
        Ok(items) => items,
        Err(e) => return Err(e),
    };
    let moka_items = match get_channel(moka, Source::MoKa) {
        Ok(items) => items,
        Err(e) => return Err(e),
    };
    let devto_items = match get_channel(devto, Source::DevTo) {
        Ok(items) => items,
        Err(e) => return Err(e),
    };
    let name = designated_creator_name();
    let map = RssMap {
        devto: convert_items(&devto_items),
        moka: filter_items(&moka_items, &name),
        mufiz: convert_items(&mufiz_items),
    };
    proof {
        assert(map@ =~= goal->Ok_0);
    }
    Ok(map)
}

} // verus!
