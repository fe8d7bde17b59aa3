//! The records handed to the host. Each is built whole within one request and
//! has a mathematical content, its view, in which texts are sequences of
//! characters.

use vstd::prelude::*;

verus! {

/// One title as a catalog page lists it.
#[derive(Debug, Clone, PartialEq, Eq)]
pub struct CatalogEntry {
    pub id: String,
    pub title: String,
    pub cover_url: String,
    pub page_url: String,
}

/// The mathematical content of a `CatalogEntry`.
pub struct CatalogEntryModel {
    pub id: Seq<char>,
    pub title: Seq<char>,
    pub cover_url: Seq<char>,
    pub page_url: Seq<char>,
}

impl DeepView for CatalogEntry {
    type V = CatalogEntryModel;

    open spec fn deep_view(&self) -> CatalogEntryModel {
        CatalogEntryModel {
            id: self.id@,
            title: self.title@,
            cover_url: self.cover_url@,
            page_url: self.page_url@,
        }
    }
}

impl View for CatalogEntry {
    type V = CatalogEntryModel;

    open spec fn view(&self) -> CatalogEntryModel {
        self.deep_view()
    }
}

/// One page of the catalog.
#[derive(Debug, Clone, PartialEq, Eq)]
pub struct CatalogPage {
    /// The titles, in document order.
    pub entries: Vec<CatalogEntry>,
    /// Whether the catalog goes on behind this page.
    pub has_more: bool,
}

/// The mathematical content of a `CatalogPage`.
pub struct CatalogPageModel {
    pub entries: Seq<CatalogEntryModel>,
    pub has_more: bool,
}

impl DeepView for CatalogPage {
    type V = CatalogPageModel;

    open spec fn deep_view(&self) -> CatalogPageModel {
        CatalogPageModel { entries: self.entries.deep_view(), has_more: self.has_more }
    }
}

impl View for CatalogPage {
    type V = CatalogPageModel;

    open spec fn view(&self) -> CatalogPageModel {
        self.deep_view()
    }
}

/// The metadata of one title.
#[derive(Debug, Clone, PartialEq, Eq)]
pub struct TitleDetail {
    pub id: String,
    pub page_url: String,
    pub title: String,
    pub author: String,
    pub artist: String,
    pub description: String,
}

/// The mathematical content of a `TitleDetail`.
pub struct TitleDetailModel {
    pub id: Seq<char>,
    pub page_url: Seq<char>,
    pub title: Seq<char>,
    pub author: Seq<char>,
    pub artist: Seq<char>,
    pub description: Seq<char>,
}

impl DeepView for TitleDetail {
    type V = TitleDetailModel;

    open spec fn deep_view(&self) -> TitleDetailModel {
        TitleDetailModel {
            id: self.id@,
            page_url: self.page_url@,
            title: self.title@,
            author: self.author@,
            artist: self.artist@,
            description: self.description@,
        }
    }
}

impl View for TitleDetail {
    type V = TitleDetailModel;

    open spec fn view(&self) -> TitleDetailModel {
        self.deep_view()
    }
}

/// One chapter of a title.
#[derive(Debug, Clone, PartialEq, Eq)]
pub struct ChapterRecord {
    pub id: String,
    pub title: String,
    /// The chapter number, a single-precision number held as its IEEE 754 bit
    /// pattern; 0, the pattern of 0.0, where the page gave no number.
    pub number_bits: u32,
    pub page_url: String,
}

/// The mathematical content of a `ChapterRecord`.
pub struct ChapterRecordModel {
    pub id: Seq<char>,
    pub title: Seq<char>,
    pub number_bits: u32,
    pub page_url: Seq<char>,
}

impl DeepView for ChapterRecord {
    type V = ChapterRecordModel;

    open spec fn deep_view(&self) -> ChapterRecordModel {
        ChapterRecordModel {
            id: self.id@,
            title: self.title@,
            number_bits: self.number_bits,
            page_url: self.page_url@,
        }
    }
}

impl View for ChapterRecord {
    type V = ChapterRecordModel;

    open spec fn view(&self) -> ChapterRecordModel {
        self.deep_view()
    }
}

/// One page image of a chapter.
#[derive(Debug, Clone, PartialEq, Eq)]
pub struct PageRecord {
    /// The position of the image on the reader page, from 0.
    pub index: usize,
    pub image_url: String,
}

/// The mathematical content of a `PageRecord`.
pub struct PageRecordModel {
    pub index: nat,
    pub image_url: Seq<char>,
}

impl DeepView for PageRecord {
    type V = PageRecordModel;

    open spec fn deep_view(&self) -> PageRecordModel {
        PageRecordModel { index: self.index as nat, image_url: self.image_url@ }
    }
}

impl View for PageRecord {
    type V = PageRecordModel;

    open spec fn view(&self) -> PageRecordModel {
        self.deep_view()
    }
}

/// What an outside address resolves to: a title, a chapter, or nothing.
#[derive(Debug, Clone, PartialEq, Eq)]
pub enum DeepLinkResult {
    Title(TitleDetail),
    Chapter(ChapterRecord),
    Empty,
}

/// The mathematical content of a `DeepLinkResult`.
pub enum DeepLinkModel {
    Title(TitleDetailModel),
    Chapter(ChapterRecordModel),
    Empty,
}

impl DeepView for DeepLinkResult {
    type V = DeepLinkModel;

    open spec fn deep_view(&self) -> DeepLinkModel {
        match self {
            DeepLinkResult::Title(detail) => DeepLinkModel::Title(detail.deep_view()),
            DeepLinkResult::Chapter(chapter) => DeepLinkModel::Chapter(chapter.deep_view()),
            DeepLinkResult::Empty => DeepLinkModel::Empty,
        }
    }
}

impl View for DeepLinkResult {
    type V = DeepLinkModel;

    open spec fn view(&self) -> DeepLinkModel {
        self.deep_view()
    }
}

/// Why an address that names a chapter resolves to none.
#[derive(Debug, Clone, Copy, PartialEq, Eq)]
pub enum ResolveError {
    /// The chapter list that the address leads to is empty.
    EmptyResolution,
}

} // verus!
