use vstd::prelude::*;

verus! {

/// Spec-level image of a `RawItem`: each optional field as an optional
/// character sequence, and the attribution list as a sequence of names.
pub ghost struct ItemV {
    pub title: Option<Seq<char>>,
    pub description: Option<Seq<char>>,
    pub link: Option<Seq<char>>,
    pub pub_date: Option<Seq<char>>,
    pub creators: Seq<Seq<char>>,
}

/// One raw entry of a parsed feed document. Every textual field is optional,
/// exactly as a feed document may omit it; `creators` holds the names from
/// the item's author/creator metadata block (empty when the item has none).
pub struct RawItem {
    pub title: Option<String>,
    pub description: Option<String>,
    pub link: Option<String>,
    pub pub_date: Option<String>,
    pub creators: Vec<String>,
}

/// The view of one optional string field.
pub open spec fn opt_view(o: Option<String>) -> Option<Seq<char>> {
    match o {
        Some(s) => Some(s@),
        None => None::<Seq<char>>,
    }
}

/// The views of a list of strings.
pub open spec fn strings_view(v: Seq<String>) -> Seq<Seq<char>> {
    v.map_values(|s: String| s@)
}

impl View for RawItem {
    type V = ItemV;

    open spec fn view(&self) -> ItemV {
        ItemV {
            title: opt_view(self.title),
            description: opt_view(self.description),
            link: opt_view(self.link),
            pub_date: opt_view(self.pub_date),
            creators: strings_view(self.creators@),
        }
    }
}

} // verus!
