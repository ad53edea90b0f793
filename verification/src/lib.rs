mod article;
mod feed;
mod item;
mod source;

pub use article::article_of;
pub use article::lemma_conversion_total;
pub use article::or_empty;
pub use article::Article;
pub use article::ArticleV;

pub use item::opt_view;
pub use item::strings_view;
pub use item::ItemV;
pub use item::RawItem;

pub use source::source_url;
pub use source::Source;

pub use feed::articles_view;
pub use feed::comes_from_attributed;
pub use feed::convert_items;
pub use feed::converted;
pub use feed::designated_creator;
pub use feed::designated_creator_name;
pub use feed::feed;
pub use feed::feed_spec;
pub use feed::fetch_view;
pub use feed::filter_items;
pub use feed::filtered;
pub use feed::get_channel;
pub use feed::has_creator;
pub use feed::items_view;
pub use feed::keep_if_attributed;
pub use feed::lemma_convert_order;
pub use feed::lemma_feed_deterministic;
pub use feed::lemma_filter_sound_complete;
pub use feed::parsed_channel;
pub use feed::source_outcome;
pub use feed::FeedError;
pub use feed::FetchFailure;
pub use feed::RssMap;
