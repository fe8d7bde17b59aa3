use mangafire::deeplink::{chapter_link, handle_url, title_link, LinkStep};
use mangafire::document::{ChapterItem, DetailDocument};
use mangafire::model::{DeepLinkResult, ResolveError};

fn title_page() -> DetailDocument {
    DetailDocument {
        title: Some("One Piece".to_string()),
        author: Some("Oda".to_string()),
        artist: None,
        description: None,
    }
}

fn chapter_item(href: &str, title: &str) -> ChapterItem {
    ChapterItem { href: Some(href.to_string()), title: Some(title.to_string()), number_bits: None }
}

fn resolve(
    url: &str,
    title_page: &DetailDocument,
    chapter_page: &Vec<ChapterItem>,
) -> Result<DeepLinkResult, ResolveError> {
    match handle_url(url) {
        LinkStep::FetchTitle { manga_id, url } => {
            assert_eq!(url, format!("https://mangafire.to/manga/{}", manga_id));
            Ok(title_link(&manga_id, title_page))
        }
        LinkStep::FetchChapters { manga_id, url } => {
            assert_eq!(url, format!("https://mangafire.to/manga/{}/chapters", manga_id));
            chapter_link(chapter_page)
        }
        LinkStep::Done(result) => Ok(result),
    }
}

#[test]
fn title_address_asks_for_the_title_page() {
    assert_eq!(
        handle_url("https://mangafire.to/manga/one-piece"),
        LinkStep::FetchTitle {
            manga_id: "one-piece".to_string(),
            url: "https://mangafire.to/manga/one-piece".to_string(),
        }
    );
}

#[test]
fn chapter_address_asks_for_the_chapter_list() {
    assert_eq!(
        handle_url("https://site/chapter/one-piece-ch-5"),
        LinkStep::FetchChapters {
            manga_id: "one-piece-ch-5".to_string(),
            url: "https://mangafire.to/manga/one-piece-ch-5/chapters".to_string(),
        }
    );
}

#[test]
fn other_address_is_done_with_nothing() {
    assert_eq!(handle_url("https://site/about"), LinkStep::Done(DeepLinkResult::Empty));
    assert_eq!(handle_url(""), LinkStep::Done(DeepLinkResult::Empty));
    assert_eq!(handle_url("https://site/manga"), LinkStep::Done(DeepLinkResult::Empty));
}

#[test]
fn title_marker_is_tested_before_the_chapter_marker() {
    assert_eq!(
        handle_url("https://site/chapter/5/manga/x"),
        LinkStep::FetchTitle {
            manga_id: "x".to_string(),
            url: "https://mangafire.to/manga/x".to_string(),
        }
    );
    assert_eq!(
        handle_url("https://site/manga/x/chapter/5"),
        LinkStep::FetchTitle {
            manga_id: "5".to_string(),
            url: "https://mangafire.to/manga/5".to_string(),
        }
    );
}

#[test]
fn identifier_is_the_last_segment_even_if_empty() {
    assert_eq!(
        handle_url("https://site/manga/one-piece/"),
        LinkStep::FetchTitle {
            manga_id: String::new(),
            url: "https://mangafire.to/manga/".to_string(),
        }
    );
}

#[test]
fn title_link_sets_only_the_title() {
    let link = resolve("https://site/manga/one-piece", &title_page(), &Vec::new()).unwrap();
    match link {
        DeepLinkResult::Title(detail) => {
            assert_eq!(detail.id, "one-piece");
            assert_eq!(detail.page_url, "https://mangafire.to/manga/one-piece");
            assert_eq!(detail.title, "One Piece");
            assert_eq!(detail.author, "Oda");
            assert_eq!(detail.artist, "");
        }
        other => panic!("not a title: {:?}", other),
    }
}

#[test]
fn chapter_link_sets_only_the_first_chapter() {
    let chapters = vec![
        chapter_item("/chapter/one-piece-ch-7", "Seven"),
        chapter_item("/chapter/one-piece-ch-6", "Six"),
    ];
    let link = resolve("https://site/chapter/one-piece-ch-6", &title_page(), &chapters).unwrap();
    match link {
        DeepLinkResult::Chapter(chapter) => {
            assert_eq!(chapter.id, "one-piece-ch-7");
            assert_eq!(chapter.title, "Seven");
        }
        other => panic!("not a chapter: {:?}", other),
    }
}

#[test]
fn chapter_address_with_one_chapter_resolves_to_it() {
    let chapters = vec![ChapterItem {
        href: Some("/chapter/one-piece-ch-5".to_string()),
        title: Some("Chapter 5".to_string()),
        number_bits: Some(5.0f32.to_bits()),
    }];
    let link = resolve("https://site/chapter/one-piece-ch-5", &title_page(), &chapters);
    match link {
        Ok(DeepLinkResult::Chapter(chapter)) => {
            assert_eq!(chapter.id, "one-piece-ch-5");
            assert_eq!(chapter.page_url, "https://mangafire.to/chapter/one-piece-ch-5");
            assert_eq!(f32::from_bits(chapter.number_bits), 5.0);
        }
        other => panic!("not a chapter: {:?}", other),
    }
}

#[test]
fn chapter_address_with_an_empty_list_is_an_error() {
    let link = resolve("https://site/chapter/one-piece-ch-5", &title_page(), &Vec::new());
    assert_eq!(link, Err(ResolveError::EmptyResolution));
    assert_eq!(chapter_link(&Vec::new()), Err(ResolveError::EmptyResolution));
}

#[test]
fn other_address_sets_neither() {
    let chapters = vec![chapter_item("/chapter/a", "A")];
    assert_eq!(resolve("https://site/about", &title_page(), &chapters), Ok(DeepLinkResult::Empty));
    assert_eq!(resolve("mangafire", &title_page(), &chapters), Ok(DeepLinkResult::Empty));
}

#[test]
fn title_link_delegates_to_the_detail_fetcher() {
    let page = title_page();
    assert_eq!(
        title_link("naruto", &page),
        DeepLinkResult::Title(mangafire::detail::get_manga_details("naruto", &page))
    );
}

#[test]
fn chapter_link_delegates_to_the_chapter_lister() {
    let items = vec![chapter_item("/chapter/b", "B"), chapter_item("/chapter/a", "A")];
    let first = mangafire::chapters::get_chapter_list(&items).remove(0);
    assert_eq!(chapter_link(&items), Ok(DeepLinkResult::Chapter(first)));
}
