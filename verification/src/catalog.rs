//! The catalog lister: from the items of a catalog page to catalog entries,
//! in document order, and whether the catalog goes on.

use crate::document::{
    or_empty, text_or_empty, CatalogDocument, CatalogDocumentModel, CatalogItem, CatalogItemModel,
};
use crate::model::{CatalogEntry, CatalogEntryModel, CatalogPage, CatalogPageModel};
use crate::site::{absolute, make_absolute, title_address, ORIGIN, TITLE_MARKER};
use crate::text::{
    occurs_in, strip_prefix, stripped, stripped_drops_the_prefix,
    stripped_is_empty_of_bare_marker,
};
use vstd::prelude::*;

verus! {

/// The entry of one catalog item. Identifier and address come from the same
/// anchor target: the identifier is the target with the title marker stripped
/// from its front, the address is the origin followed by the target as it
/// is. A target that does not begin with the title marker is its own
/// identifier. A field that the item lacks is empty.
pub open spec fn catalog_entry(item: CatalogItemModel) -> CatalogEntryModel {
    CatalogEntryModel {
        id: stripped(or_empty(item.href), TITLE_MARKER@),
        title: or_empty(item.title),
        cover_url: or_empty(item.cover_src),
        page_url: absolute(or_empty(item.href)),
    }
}

/// The catalog page of a document: one entry for each item, in the same
/// order; the catalog goes on where the document holds a next-page control.
pub open spec fn catalog_page(document: CatalogDocumentModel) -> CatalogPageModel {
    CatalogPageModel {
        entries: document.items.map_values(|item: CatalogItemModel| catalog_entry(item)),
        has_more: document.next_page_controls > 0,
    }
}

/// Builds the entry of one catalog item.
pub fn parse_manga(item: &CatalogItem) -> (entry: CatalogEntry)
    ensures
        entry@ == catalog_entry(item@),
{
    let href = text_or_empty(&item.href);
    CatalogEntry {
        id: strip_prefix(href.as_str(), TITLE_MARKER),
        title: text_or_empty(&item.title),
        cover_url: text_or_empty(&item.cover_src),
        page_url: make_absolute(href.as_str()),
    }
}

/// Builds one page of the catalog from a fetched catalog document. A document
/// without items and without a next-page control yields the empty last page.
pub fn get_manga_list(document: &CatalogDocument) -> (page: CatalogPage)
    ensures
        page@ == catalog_page(document@),
        page.entries.len() == document.items.len(),
        page.has_more == (document.next_page_controls > 0),
        forall|at: int|
            0 <= at < page.entries.len() ==> (#[trigger] page.entries@[at]).page_url@ == ORIGIN@
                + or_empty(document.items@[at].href.deep_view()),
        forall|at: int|
            0 <= at < page.entries.len() ==> (#[trigger] page.entries@[at]).id@ == stripped(
                or_empty(document.items@[at].href.deep_view()),
                TITLE_MARKER@,
            ),
{
    let mut entries: Vec<CatalogEntry> = Vec::new();
    let mut at: usize = 0;
    while at < document.items.len()
        invariant
            at <= document.items.len(),
            entries.len() == at,
            forall|k: int|
                0 <= k < at ==> (#[trigger] entries@[k]).deep_view() == catalog_entry(
                    document.items@[k].deep_view(),
                ),
        decreases document.items.len() - at,
    {
        entries.push(parse_manga(&document.items[at]));
        at += 1;
    }
    assert(entries.deep_view() =~= catalog_page(document@).entries) by {
        assert forall|k: int| 0 <= k < entries.len() implies entries.deep_view()[k]
            == catalog_page(document@).entries[k] by {
            assert(entries.deep_view()[k] == entries@[k].deep_view());
            assert(document.items.deep_view()[k] == document.items@[k].deep_view());
        }
    }
    CatalogPage { entries, has_more: document.next_page_controls > 0 }
}

/// Every entry of a catalog page comes from the anchor target of the item
/// at its place: its address is the origin followed by the target, its
/// identifier is the target with the title marker stripped from its front.
/// Neither is empty where the target is neither empty nor the bare title
/// marker.
pub proof fn catalog_entries_follow_anchor(document: CatalogDocumentModel, at: int)
    requires
        0 <= at < document.items.len(),
        or_empty(document.items[at].href).len() > 0,
        or_empty(document.items[at].href) != TITLE_MARKER@,
    ensures
        catalog_page(document).entries.len() == document.items.len(),
        catalog_page(document).entries[at].page_url == ORIGIN@ + or_empty(
            document.items[at].href,
        ),
        catalog_page(document).entries[at].id == stripped(
            or_empty(document.items[at].href),
            TITLE_MARKER@,
        ),
        catalog_page(document).entries[at].page_url.len() > 0,
        catalog_page(document).entries[at].id.len() > 0,
{
    reveal_strlit("https://mangafire.to");
    stripped_is_empty_of_bare_marker(or_empty(document.items[at].href), TITLE_MARKER@);
}

/// The identifier of an entry leads back to the entry's own address: where
/// the anchor target is the title marker followed by a name, the identifier
/// is that name, and the title page asked for under it is the page that the
/// entry points to. The identifier holds the marker only where the name does.
pub proof fn catalog_identifier_round_trips(item: CatalogItemModel, name: Seq<char>)
    requires
        item.href == Some(TITLE_MARKER@ + name),
    ensures
        catalog_entry(item).id == name,
        title_address(catalog_entry(item).id) == catalog_entry(item).page_url,
        occurs_in(catalog_entry(item).id, TITLE_MARKER@) == occurs_in(name, TITLE_MARKER@),
{
    stripped_drops_the_prefix(TITLE_MARKER@, name);
}

} // verus!
