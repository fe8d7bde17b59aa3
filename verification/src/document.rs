//! What the selectors yield on a fetched page, as plain values: the input of
//! every extraction rule. A field is `None` where its selector matched no node
//! or the node lacks the attribute.

use vstd::prelude::*;

verus! {

/// Selects every item of a catalog page.
pub const CATALOG_ITEM: &'static str = "div.manga-item";

/// Selects the title anchor inside a catalog item.
pub const TITLE_ANCHOR: &'static str = "a.manga-title";

/// Selects the cover image inside a catalog item.
pub const COVER_IMAGE: &'static str = "img.manga-cover";

/// Selects the controls of a catalog page that lead to the next page.
pub const NEXT_PAGE: &'static str = "a.next-page";

/// Selects the title on a title page.
pub const DETAIL_TITLE: &'static str = "h1.title";

/// Selects the author on a title page.
pub const DETAIL_AUTHOR: &'static str = "div.author";

/// Selects the artist on a title page.
pub const DETAIL_ARTIST: &'static str = "div.artist";

/// Selects the description on a title page.
pub const DETAIL_DESCRIPTION: &'static str = "div.description";

/// Selects every item of a chapter list.
pub const CHAPTER_ITEM: &'static str = "div.chapter-item";

/// Selects the anchor inside a chapter item.
pub const CHAPTER_ANCHOR: &'static str = "a";

/// Selects the chapter-number label inside a chapter item.
pub const CHAPTER_NUMBER: &'static str = "span.chapter-num";

/// Selects every page image of a reader page.
pub const PAGE_IMAGE: &'static str = "img.page-img";

/// The attribute of an anchor that holds its target.
pub const HREF: &'static str = "href";

/// The attribute of an image that holds its source.
pub const SRC: &'static str = "src";

/// One item node of a catalog page.
#[derive(Debug, Clone, PartialEq, Eq)]
pub struct CatalogItem {
    /// The `href` of the title anchor.
    pub href: Option<String>,
    /// The text of the title anchor.
    pub title: Option<String>,
    /// The `src` of the cover image.
    pub cover_src: Option<String>,
}

/// The mathematical content of a `CatalogItem`.
pub struct CatalogItemModel {
    pub href: Option<Seq<char>>,
    pub title: Option<Seq<char>>,
    pub cover_src: Option<Seq<char>>,
}

impl DeepView for CatalogItem {
    type V = CatalogItemModel;

    open spec fn deep_view(&self) -> CatalogItemModel {
        CatalogItemModel {
            href: self.href.deep_view(),
            title: self.title.deep_view(),
            cover_src: self.cover_src.deep_view(),
        }
    }
}

impl View for CatalogItem {
    type V = CatalogItemModel;

    open spec fn view(&self) -> CatalogItemModel {
        self.deep_view()
    }
}

/// A fetched catalog page.
#[derive(Debug, Clone, PartialEq, Eq)]
pub struct CatalogDocument {
    /// The item nodes, in document order.
    pub items: Vec<CatalogItem>,
    /// How many next-page controls the page holds.
    pub next_page_controls: usize,
}

/// The mathematical content of a `CatalogDocument`.
pub struct CatalogDocumentModel {
    pub items: Seq<CatalogItemModel>,
    pub next_page_controls: nat,
}

impl DeepView for CatalogDocument {
    type V = CatalogDocumentModel;

    open spec fn deep_view(&self) -> CatalogDocumentModel {
        CatalogDocumentModel {
            items: self.items.deep_view(),
            next_page_controls: self.next_page_controls as nat,
        }
    }
}

impl View for CatalogDocument {
    type V = CatalogDocumentModel;

    open spec fn view(&self) -> CatalogDocumentModel {
        self.deep_view()
    }
}

/// A fetched title page: the text under each of its four selectors.
#[derive(Debug, Clone, PartialEq, Eq)]
pub struct DetailDocument {
    pub title: Option<String>,
    pub author: Option<String>,
    pub artist: Option<String>,
    pub description: Option<String>,
}

/// The mathematical content of a `DetailDocument`.
pub struct DetailDocumentModel {
    pub title: Option<Seq<char>>,
    pub author: Option<Seq<char>>,
    pub artist: Option<Seq<char>>,
    pub description: Option<Seq<char>>,
}

impl DeepView for DetailDocument {
    type V = DetailDocumentModel;

    open spec fn deep_view(&self) -> DetailDocumentModel {
        DetailDocumentModel {
            title: self.title.deep_view(),
            author: self.author.deep_view(),
            artist: self.artist.deep_view(),
            description: self.description.deep_view(),
        }
    }
}

impl View for DetailDocument {
    type V = DetailDocumentModel;

    open spec fn view(&self) -> DetailDocumentModel {
        self.deep_view()
    }
}

/// One item node of a chapter list.
#[derive(Debug, Clone, PartialEq, Eq)]
pub struct ChapterItem {
    /// The `href` of the anchor.
    pub href: Option<String>,
    /// The text of the anchor.
    pub title: Option<String>,
    /// The chapter-number label read as a single-precision number, as its
    /// IEEE 754 bit pattern; `None` where the label is no number.
    pub number_bits: Option<u32>,
}

/// The mathematical content of a `ChapterItem`.
pub struct ChapterItemModel {
    pub href: Option<Seq<char>>,
    pub title: Option<Seq<char>>,
    pub number_bits: Option<u32>,
}

impl DeepView for ChapterItem {
    type V = ChapterItemModel;

    open spec fn deep_view(&self) -> ChapterItemModel {
        ChapterItemModel {
            href: self.href.deep_view(),
            title: self.title.deep_view(),
            number_bits: self.number_bits,
        }
    }
}

impl View for ChapterItem {
    type V = ChapterItemModel;

    open spec fn view(&self) -> ChapterItemModel {
        self.deep_view()
    }
}

/// The text of a field, empty where the page has none.
pub open spec fn or_empty(field: Option<Seq<char>>) -> Seq<char> {
    match field {
        Some(text) => text,
        None => Seq::empty(),
    }
}

/// The text of a field, empty where the page has none.
pub fn text_or_empty(field: &Option<String>) -> (text: String)
    ensures
        text@ == or_empty(field.deep_view()),
{
    match field {
        Some(text) => text.clone(),
        None => String::new(),
    }
}

} // verus!
