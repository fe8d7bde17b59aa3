//! The deep-link resolver: which page an outside address leads to, and the
//! record that the fetched page resolves it to.
//!
//! Resolution takes two steps around one fetch. `handle_url` classifies the
//! address and names the page to fetch; the caller fetches it and hands its
//! content to `title_link` or `chapter_link`, which delegate to the detail
//! fetcher and the chapter lister. `deep_link` states the whole.

use crate::chapters::{chapter_list, get_chapter_list};
use crate::detail::{get_manga_details, title_detail};
use crate::document::{ChapterItem, ChapterItemModel, DetailDocument, DetailDocumentModel};
use crate::model::{DeepLinkModel, DeepLinkResult, ResolveError};
use crate::site::{
    chapter_list_url, chapters_address, manga_details_url, title_address, CHAPTER_MARKER,
    TITLE_MARKER,
};
use crate::text::{contains, final_segment, last_segment, occurs_in};
use vstd::prelude::*;

verus! {

/// What the resolver does next for an address.
#[derive(Debug, Clone, PartialEq, Eq)]
pub enum LinkStep {
    /// Fetch `url`, the page of the title `manga_id`, and resolve it with
    /// `title_link`.
    FetchTitle { manga_id: String, url: String },
    /// Fetch `url`, the chapter list of `manga_id`, and resolve it with
    /// `chapter_link`.
    FetchChapters { manga_id: String, url: String },
    /// Nothing to fetch: this is the result.
    Done(DeepLinkResult),
}

/// The mathematical content of a `LinkStep`.
pub enum LinkStepModel {
    FetchTitle { manga_id: Seq<char>, url: Seq<char> },
    FetchChapters { manga_id: Seq<char>, url: Seq<char> },
    Done(DeepLinkModel),
}

impl DeepView for LinkStep {
    type V = LinkStepModel;

    open spec fn deep_view(&self) -> LinkStepModel {
        match self {
            LinkStep::FetchTitle { manga_id, url } => LinkStepModel::FetchTitle {
                manga_id: manga_id@,
                url: url@,
            },
            LinkStep::FetchChapters { manga_id, url } => LinkStepModel::FetchChapters {
                manga_id: manga_id@,
                url: url@,
            },
            LinkStep::Done(result) => LinkStepModel::Done(result.deep_view()),
        }
    }
}

impl View for LinkStep {
    type V = LinkStepModel;

    open spec fn view(&self) -> LinkStepModel {
        self.deep_view()
    }
}

/// The step for `url`. The title marker is tested first: an address that
/// holds it leads to the page of the title named by its last segment. Else an
/// address that holds the chapter marker leads to the chapter list of what
/// its last segment names. Any other address resolves to nothing at once.
pub open spec fn link_step(url: Seq<char>) -> LinkStepModel {
    if occurs_in(url, TITLE_MARKER@) {
        LinkStepModel::FetchTitle {
            manga_id: last_segment(url),
            url: title_address(last_segment(url)),
        }
    } else if occurs_in(url, CHAPTER_MARKER@) {
        LinkStepModel::FetchChapters {
            manga_id: last_segment(url),
            url: chapters_address(last_segment(url)),
        }
    } else {
        LinkStepModel::Done(DeepLinkModel::Empty)
    }
}

/// What a fetched chapter list resolves to: its first chapter, and the error
/// `EmptyResolution` where it has none.
pub open spec fn first_chapter(items: Seq<ChapterItemModel>) -> Result<
    DeepLinkModel,
    ResolveError,
> {
    if items.len() > 0 {
        Ok(DeepLinkModel::Chapter(chapter_list(items)[0]))
    } else {
        Err(ResolveError::EmptyResolution)
    }
}

/// What `url` resolves to where the site serves `title_page` as the page of
/// the title and `chapter_page` as the chapter list that `url` leads to.
pub open spec fn deep_link(
    url: Seq<char>,
    title_page: DetailDocumentModel,
    chapter_page: Seq<ChapterItemModel>,
) -> Result<DeepLinkModel, ResolveError> {
    match link_step(url) {
        LinkStepModel::FetchTitle { manga_id, .. } => Ok(
            DeepLinkModel::Title(title_detail(manga_id, title_page)),
        ),
        LinkStepModel::FetchChapters { .. } => first_chapter(chapter_page),
        LinkStepModel::Done(result) => Ok(result),
    }
}

/// The content of an outcome of `chapter_link`.
pub open spec fn outcome_model(outcome: Result<DeepLinkResult, ResolveError>) -> Result<
    DeepLinkModel,
    ResolveError,
> {
    match outcome {
        Ok(link) => Ok(link.deep_view()),
        Err(error) => Err(error),
    }
}

/// Classifies `url` and names the page to fetch for it, if any.
pub fn handle_url(url: &str) -> (step: LinkStep)
    ensures
        step@ == link_step(url@),
{
    if contains(url, TITLE_MARKER) {
        let manga_id = final_segment(url);
        let url = manga_details_url(manga_id.as_str());
        LinkStep::FetchTitle { manga_id, url }
    } else if contains(url, CHAPTER_MARKER) {
        let manga_id = final_segment(url);
        let url = chapter_list_url(manga_id.as_str());
        LinkStep::FetchChapters { manga_id, url }
    } else {
        LinkStep::Done(DeepLinkResult::Empty)
    }
}

/// Resolves a title address from the fetched page of the title `manga_id`.
pub fn title_link(manga_id: &str, document: &DetailDocument) -> (link: DeepLinkResult)
    ensures
        link@ == DeepLinkModel::Title(title_detail(manga_id@, document@)),
{
    DeepLinkResult::Title(get_manga_details(manga_id, document))
}

/// Resolves a chapter address from the items of the fetched chapter list: to
/// the first chapter of the list, and to the error `EmptyResolution` where the
/// list is empty.
pub fn chapter_link(items: &Vec<ChapterItem>) -> (link: Result<DeepLinkResult, ResolveError>)
    ensures
        outcome_model(link) == first_chapter(items.deep_view()),
{
    let mut chapters = get_chapter_list(items);
    assert(chapters.deep_view().len() == chapters.len());
    assert(chapter_list(items.deep_view()).len() == items.deep_view().len());
    if chapters.len() == 0 {
        Err(ResolveError::EmptyResolution)
    } else {
        assert(chapters.deep_view()[0] == chapters@[0].deep_view());
        let first = chapters.swap_remove(0);
        Ok(DeepLinkResult::Chapter(first))
    }
}

/// An address resolves by its markers, the title marker first: with the title
/// marker to a title and nothing else, whatever else it holds; without it but
/// with the chapter marker to the first chapter of the list, or to the error
/// where the list is empty; with neither marker to the empty result.
pub proof fn deep_link_follows_markers(
    url: Seq<char>,
    title_page: DetailDocumentModel,
    chapter_page: Seq<ChapterItemModel>,
)
    ensures
        occurs_in(url, TITLE_MARKER@) ==> deep_link(url, title_page, chapter_page) == Ok::<
            DeepLinkModel,
            ResolveError,
        >(DeepLinkModel::Title(title_detail(last_segment(url), title_page))),
        !occurs_in(url, TITLE_MARKER@) && occurs_in(url, CHAPTER_MARKER@) && chapter_page.len() > 0
            ==> deep_link(url, title_page, chapter_page) == Ok::<DeepLinkModel, ResolveError>(
            DeepLinkModel::Chapter(chapter_list(chapter_page)[0]),
        ),
        !occurs_in(url, TITLE_MARKER@) && occurs_in(url, CHAPTER_MARKER@) && chapter_page.len()
            == 0 ==> deep_link(url, title_page, chapter_page) == Err::<DeepLinkModel, ResolveError>(
            ResolveError::EmptyResolution,
        ),
        !occurs_in(url, TITLE_MARKER@) && !occurs_in(url, CHAPTER_MARKER@) ==> deep_link(
            url,
            title_page,
            chapter_page,
        ) == Ok::<DeepLinkModel, ResolveError>(DeepLinkModel::Empty),
{
}

} // verus!
