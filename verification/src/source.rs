use vstd::prelude::*;

verus! {

/// Closed set of logical feed identifiers. Each source is bound to one fixed
/// fetch URL; no source is constructed at runtime.
#[derive(Clone, Copy, Debug, PartialEq, Eq, Hash, Structural)]
pub enum Source {
    DevTo,
    MoKa,
    Mufiz,
}

/// The fixed fetch URL of each source.
pub open spec fn source_url(s: Source) -> Seq<char> {
    match s {
        Source::DevTo => "https://dev.to/feed/mustafif"@,
        Source::MoKa => "https://moka-reads.github.io/rss.xml"@,
        Source::Mufiz => "https://blog-mufiz.github.io/rss.xml"@,
    }
}

impl Source {
    /// The URL this source is fetched from.
    pub fn url(self) -> (r: &'static str)
        ensures
            r@ == source_url(self),
    {
        match self {
            Source::DevTo => "https://dev.to/feed/mustafif",
            Source::MoKa => "https://moka-reads.github.io/rss.xml",
            Source::Mufiz => "https://blog-mufiz.github.io/rss.xml",
        }
    }
}

} // verus!
