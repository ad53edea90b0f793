use vstd::prelude::*;

use crate::item::{opt_view, ItemV, RawItem};

verus! {

/// Spec-level image of an `Article`: the four fields as character sequences.
pub ghost struct ArticleV {
    pub title: Seq<char>,
    pub description: Seq<char>,
    pub link: Seq<char>,
    pub pub_date: Seq<char>,
}

/// Normalized representation of one feed item. Every field is always
/// populated; a field the feed did not provide holds the empty string.
#[derive(Clone, Debug)]
pub struct Article {
    title: String,
    description: String,
    link: String,
    pub_date: String,
}

impl View for Article {
    type V = ArticleV;

    closed spec fn view(&self) -> ArticleV {
        ArticleV {
            title: self.title@,
            description: self.description@,
            link: self.link@,
            pub_date: self.pub_date@,
        }
    }
}

/// A field's view with a missing field read as the empty string.
pub open spec fn or_empty(o: Option<Seq<char>>) -> Seq<char> {
    match o {
        Some(s) => s,
        None => Seq::<char>::empty(),
    }
}

/// The one Article an item converts to: each present field is kept as it is,
/// each missing field becomes the empty string.
pub open spec fn article_of(i: ItemV) -> ArticleV {
    ArticleV {
        title: or_empty(i.title),
        description: or_empty(i.description),
        link: or_empty(i.link),
        pub_date: or_empty(i.pub_date),
    }
}

/// Conversion is total and exact: a converted item carries the empty string
/// in exactly the positions whose field was missing, and the original value
/// in every other position.
pub proof fn lemma_conversion_total(i: ItemV)
    ensures
        i.title is Some ==> article_of(i).title == i.title->Some_0,
        i.title is None ==> article_of(i).title == Seq::<char>::empty(),
        i.description is Some ==> article_of(i).description == i.description->Some_0,
        i.description is None ==> article_of(i).description == Seq::<char>::empty(),
        i.link is Some ==> article_of(i).link == i.link->Some_0,
        i.link is None ==> article_of(i).link == Seq::<char>::empty(),
        i.pub_date is Some ==> article_of(i).pub_date == i.pub_date->Some_0,
        i.pub_date is None ==> article_of(i).pub_date == Seq::<char>::empty(),
{
}

/// Clone a present field, or substitute the empty string.
fn clone_or_empty(o: &Option<String>) -> (r: String)
    ensures
        r@ == or_empty(opt_view(*o)),
{
    match o {
        Some(s) => s.clone(),
        None => String::new(),
    }
}

impl Article {
    /// Convert one raw feed item. Total: a missing field is substituted with
    /// the empty string, never an error.
    pub fn from(item: &RawItem) -> (r: Article)
        ensures
            r@ == article_of(item@),
    {
        Article {
            title: clone_or_empty(&item.title),
            description: clone_or_empty(&item.description),
            link: clone_or_empty(&item.link),
            pub_date: clone_or_empty(&item.pub_date),
        }
    }

    pub fn title(&self) -> (r: String)
        ensures
            r@ == self@.title,
    {
        self.title.clone()
    }

    pub fn description(&self) -> (r: String)
        ensures
            r@ == self@.description,
    {
        self.description.clone()
    }

    pub fn link(&self) -> (r: String)
        ensures
            r@ == self@.link,
    {
        self.link.clone()
    }

    pub fn pub_date(&self) -> (r: String)
        ensures
            r@ == self@.pub_date,
    {
        self.pub_date.clone()
    }
}

} // verus!
