//! The detail fetcher: from a fetched title page to the metadata of the
//! title.

use crate::document::{or_empty, text_or_empty, DetailDocument, DetailDocumentModel};
use crate::model::{TitleDetail, TitleDetailModel};
use crate::site::{manga_details_url, title_address};
use vstd::prelude::*;

verus! {

/// The metadata of the title `manga_id` as `document` gives it. Identifier and
/// address are those of the request, not read from the page; a field that the
/// page lacks is empty.
pub open spec fn title_detail(manga_id: Seq<char>, document: DetailDocumentModel)
    -> TitleDetailModel {
    TitleDetailModel {
        id: manga_id,
        page_url: title_address(manga_id),
        title: or_empty(document.title),
        author: or_empty(document.author),
        artist: or_empty(document.artist),
        description: or_empty(document.description),
    }
}

/// Builds the metadata of the title `manga_id` from its fetched page. A page
/// without any of the four fields yields a record whose texts are all empty.
pub fn get_manga_details(manga_id: &str, document: &DetailDocument) -> (detail: TitleDetail)
    ensures
        detail@ == title_detail(manga_id@, document@),
{
    TitleDetail {
        id: manga_id.to_owned(),
        page_url: manga_details_url(manga_id),
        title: text_or_empty(&document.title),
        author: text_or_empty(&document.author),
        artist: text_or_empty(&document.artist),
        description: text_or_empty(&document.description),
    }
}

/// Fetching the details of one title twice from an unchanged page gives the
/// same record, character for character: the record depends on nothing but
/// the identifier and the page.
pub proof fn details_are_repeatable(
    manga_id: Seq<char>,
    document: DetailDocumentModel,
    first: TitleDetail,
    second: TitleDetail,
)
    requires
        first@ == title_detail(manga_id, document),
        second@ == title_detail(manga_id, document),
    ensures
        first@ == second@,
        first.id@ == second.id@,
        first.page_url@ == second.page_url@,
        first.title@ == second.title@,
        first.author@ == second.author@,
        first.artist@ == second.artist@,
        first.description@ == second.description@,
{
}

} // verus!
