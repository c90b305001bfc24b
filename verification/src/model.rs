//! Records that replies of several kinds share.

use crate::decode::Decode;
use crate::json::{text_member, text_of, JsonView};
use vstd::prelude::*;

verus! {

/// What the service says of a page of results: whose they are, and where the page stands
/// among all of them. The service writes every one of these as a string.
#[derive(Debug, Clone, PartialEq, Eq)]
pub struct Attributes {
    /// The user whose results these are.
    pub user: String,
    /// The number of this page, counted from 1.
    pub page: String,
    /// The number of results on a page.
    pub per_page: String,
    /// The number of pages.
    pub total_pages: String,
    /// The number of results on all pages.
    pub total: String,
}

/// What an [`Attributes`] holds.
pub struct AttributesView {
    pub user: Seq<char>,
    pub page: Seq<char>,
    pub per_page: Seq<char>,
    pub total_pages: Seq<char>,
    pub total: Seq<char>,
}

impl View for Attributes {
    type V = AttributesView;

    open spec fn view(&self) -> AttributesView {
        AttributesView {
            user: self.user@,
            page: self.page@,
            per_page: self.per_page@,
            total_pages: self.total_pages@,
            total: self.total@,
        }
    }
}

impl Decode for Attributes {
    /// An object with the strings `user`, `page`, `perPage`, `totalPages` and `total`.
    open spec fn shape(json: JsonView) -> Option<AttributesView> {
        match (
            text_member(json, "user"@),
            text_member(json, "page"@),
            text_member(json, "perPage"@),
            text_member(json, "totalPages"@),
            text_member(json, "total"@),
        ) {
            (Some(user), Some(page), Some(per_page), Some(total_pages), Some(total)) => Some(
                AttributesView { user, page, per_page, total_pages, total },
            ),
            _ => None,
        }
    }

    fn decode(value: &serde_json::Value) -> (r: Option<Attributes>) {
        let user = text_of(value, "user")?;
        let page = text_of(value, "page")?;
        let per_page = text_of(value, "perPage")?;
        let total_pages = text_of(value, "totalPages")?;
        let total = text_of(value, "total")?;
        Some(Attributes { user, page, per_page, total_pages, total })
    }
}

} // verus!
