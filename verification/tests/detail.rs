use mangafire::detail::get_manga_details;
use mangafire::document::DetailDocument;
use mangafire::model::TitleDetail;

fn full_page() -> DetailDocument {
    DetailDocument {
        title: Some("One Piece".to_string()),
        author: Some("Oda Eiichiro".to_string()),
        artist: Some("Oda Eiichiro".to_string()),
        description: Some("Pirates.".to_string()),
    }
}

#[test]
fn details_take_each_field_from_the_page() {
    let detail = get_manga_details("one-piece", &full_page());
    assert_eq!(
        detail,
        TitleDetail {
            id: "one-piece".to_string(),
            page_url: "https://mangafire.to/manga/one-piece".to_string(),
            title: "One Piece".to_string(),
            author: "Oda Eiichiro".to_string(),
            artist: "Oda Eiichiro".to_string(),
            description: "Pirates.".to_string(),
        }
    );
}

#[test]
fn details_echo_identifier_and_address_of_the_request() {
    let detail = get_manga_details("some id/with?odd=chars", &full_page());
    assert_eq!(detail.id, "some id/with?odd=chars");
    assert_eq!(detail.page_url, "https://mangafire.to/manga/some id/with?odd=chars");
}

#[test]
fn details_of_a_page_without_metadata_are_empty() {
    let page = DetailDocument { title: None, author: None, artist: None, description: None };
    let detail = get_manga_details("naruto", &page);
    assert_eq!(
        detail,
        TitleDetail {
            id: "naruto".to_string(),
            page_url: "https://mangafire.to/manga/naruto".to_string(),
            title: String::new(),
            author: String::new(),
            artist: String::new(),
            description: String::new(),
        }
    );
}

#[test]
fn details_fill_each_field_on_its_own() {
    let page = DetailDocument {
        title: Some("Naruto".to_string()),
        author: None,
        artist: Some("Kishimoto".to_string()),
        description: None,
    };
    let detail = get_manga_details("naruto", &page);
    assert_eq!(detail.title, "Naruto");
    assert_eq!(detail.author, "");
    assert_eq!(detail.artist, "Kishimoto");
    assert_eq!(detail.description, "");
}

#[test]
fn details_are_the_same_on_every_call() {
    let page = full_page();
    let first = get_manga_details("one-piece", &page);
    let second = get_manga_details("one-piece", &page);
    let third = get_manga_details("one-piece", &page.clone());
    assert_eq!(first, second);
    assert_eq!(second, third);
    assert_eq!(first.description.as_bytes(), second.description.as_bytes());
    assert_eq!(page, full_page());
}
