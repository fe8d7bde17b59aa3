use mangafire::chapters::{get_chapter_list, number_or_zero, parse_chapter};
use mangafire::document::ChapterItem;
use mangafire::site::page_list_url;

fn number_of(label: &str) -> Option<u32> {
    label.parse::<f32>().ok().map(f32::to_bits)
}

fn item(href: &str, title: &str, label: &str) -> ChapterItem {
    ChapterItem {
        href: Some(href.to_string()),
        title: Some(title.to_string()),
        number_bits: number_of(label),
    }
}

#[test]
fn parse_chapter_derives_id_and_address_from_one_target() {
    let record = parse_chapter(&item("/chapter/one-piece-ch-5", "Chapter 5", "5"));
    assert_eq!(record.id, "one-piece-ch-5");
    assert_eq!(record.title, "Chapter 5");
    assert_eq!(f32::from_bits(record.number_bits), 5.0);
    assert_eq!(record.page_url, "https://mangafire.to/chapter/one-piece-ch-5");
}

#[test]
fn chapter_number_of_a_decimal_label() {
    let record = parse_chapter(&item("/chapter/x", "x", "12.5"));
    assert_eq!(f32::from_bits(record.number_bits), 12.5);
}

#[test]
fn chapter_number_of_a_word_is_zero() {
    let record = parse_chapter(&item("/chapter/x", "x", "Oneshot"));
    assert_eq!(record.number_bits, 0);
    assert_eq!(f32::from_bits(record.number_bits), 0.0);
}

#[test]
fn chapter_number_of_an_empty_label_is_zero() {
    let record = parse_chapter(&item("/chapter/x", "x", ""));
    assert_eq!(record.number_bits, 0);
    assert_eq!(f32::from_bits(record.number_bits), 0.0);
}

#[test]
fn chapter_number_is_kept_bit_for_bit() {
    for label in ["0", "-0", "1", "1e3", "0.1", "1047.75", "inf"] {
        let record = parse_chapter(&item("/chapter/x", "x", label));
        assert_eq!(record.number_bits, label.parse::<f32>().unwrap().to_bits(), "{label:?}");
    }
}

#[test]
fn parse_chapter_without_fields_gives_empty_texts_and_zero() {
    let record = parse_chapter(&ChapterItem { href: None, title: None, number_bits: None });
    assert_eq!(record.id, "");
    assert_eq!(record.title, "");
    assert_eq!(record.number_bits, 0);
    assert_eq!(record.page_url, "https://mangafire.to");
}

#[test]
fn chapter_list_keeps_document_order() {
    let items = vec![
        item("/chapter/op-3", "Three", "3"),
        item("/chapter/op-1", "One", "1"),
        item("/chapter/op-2.5", "Extra", "2.5"),
    ];
    let chapters = get_chapter_list(&items);
    assert_eq!(chapters.len(), 3);
    let ids: Vec<&str> = chapters.iter().map(|chapter| chapter.id.as_str()).collect();
    assert_eq!(ids, vec!["op-3", "op-1", "op-2.5"]);
    let numbers: Vec<f32> = chapters.iter().map(|chapter| f32::from_bits(chapter.number_bits)).collect();
    assert_eq!(numbers, vec![3.0, 1.0, 2.5]);
    assert_eq!(chapters[2].page_url, "https://mangafire.to/chapter/op-2.5");
    assert_eq!(chapters[1].title, "One");
}

#[test]
fn chapter_list_of_no_item_is_empty() {
    assert!(get_chapter_list(&Vec::new()).is_empty());
}

#[test]
fn chapter_list_holds_what_parse_chapter_gives() {
    let items = vec![item("/chapter/a", "A", "1"), item("/chapter/b", "B", "Oneshot")];
    let chapters = get_chapter_list(&items);
    assert_eq!(chapters.len(), items.len());
    for (chapter, item) in chapters.iter().zip(items.iter()) {
        assert_eq!(*chapter, parse_chapter(item));
    }
}

#[test]
fn chapter_identifier_leads_back_to_the_chapter_address() {
    for name in ["one-piece-ch-5", "x", "a.b", "manga/7", "a/chapter/b", "/chapter/", ""] {
        let record = parse_chapter(&item(&format!("/chapter/{}", name), "t", "1"));
        assert_eq!(record.id, name);
        assert_eq!(page_list_url(&record.id), record.page_url);
    }
}

#[test]
fn chapter_identifier_of_a_target_without_the_prefix_is_the_target() {
    let record = parse_chapter(&item("/read/op-5", "t", "1"));
    assert_eq!(record.id, "/read/op-5");
    assert_eq!(record.page_url, "https://mangafire.to/read/op-5");
    let record = parse_chapter(&item("x/chapter/y", "t", "1"));
    assert_eq!(record.id, "x/chapter/y");
}

#[test]
fn number_or_zero_keeps_a_number_and_fills_in_zero() {
    assert_eq!(number_or_zero(Some(12.5f32.to_bits())), 12.5f32.to_bits());
    assert_eq!(number_or_zero(Some(0)), 0);
    assert_eq!(number_or_zero(Some(u32::MAX)), u32::MAX);
    assert_eq!(number_or_zero(None), 0);
    assert_eq!(f32::from_bits(number_or_zero(None)), 0.0);
    assert_eq!(f32::from_bits(number_or_zero(number_of("12.5"))), 12.5);
    assert_eq!(f32::from_bits(number_or_zero(number_of("Oneshot"))), 0.0);
    assert_eq!(f32::from_bits(number_or_zero(number_of(""))), 0.0);
}
