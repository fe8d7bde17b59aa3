//! The chapter lister: from the items of a title's chapter list to chapter
//! records, in document order.

use crate::document::{or_empty, text_or_empty, ChapterItem, ChapterItemModel};
use crate::model::{ChapterRecord, ChapterRecordModel};
use crate::site::{absolute, make_absolute, reader_address, CHAPTER_MARKER};
use crate::text::{occurs_in, strip_prefix, stripped, stripped_drops_the_prefix};
use vstd::prelude::*;

verus! {

/// The number of a chapter: the one that the label gave, else 0, the bit
/// pattern of 0.0.
pub open spec fn bits_or_zero(number: Option<u32>) -> u32 {
    match number {
        Some(bits) => bits,
        None => 0,
    }
}

/// The record of one chapter item. The identifier is the anchor's target
/// with the chapter marker stripped from its front, the address is the origin
/// followed by the target as it is. A target that does not begin with the
/// chapter marker is its own identifier. A text that the item lacks is empty,
/// a number that it lacks is 0.0.
pub open spec fn chapter_record(item: ChapterItemModel) -> ChapterRecordModel {
    ChapterRecordModel {
        id: stripped(or_empty(item.href), CHAPTER_MARKER@),
        title: or_empty(item.title),
        number_bits: bits_or_zero(item.number_bits),
        page_url: absolute(or_empty(item.href)),
    }
}

/// The records of a chapter list: one for each item, in the same order.
pub open spec fn chapter_list(items: Seq<ChapterItemModel>) -> Seq<ChapterRecordModel> {
    items.map_values(|item: ChapterItemModel| chapter_record(item))
}

/// The number of a chapter: the one that the label gave, else 0, the bit
/// pattern of 0.0. A label that is no number is no failure.
pub fn number_or_zero(number: Option<u32>) -> (bits: u32)
    ensures
        bits == bits_or_zero(number),
{
    match number {
        Some(bits) => bits,
        None => 0,
    }
}

/// Builds the record of one chapter item.
pub fn parse_chapter(item: &ChapterItem) -> (record: ChapterRecord)
    ensures
        record@ == chapter_record(item@),
{
    let href = text_or_empty(&item.href);
    ChapterRecord {
        id: strip_prefix(href.as_str(), CHAPTER_MARKER),
        title: text_or_empty(&item.title),
        number_bits: number_or_zero(item.number_bits),
        page_url: make_absolute(href.as_str()),
    }
}

/// Builds the chapter records of a title from the items of its chapter list.
/// No item yields an empty list.
pub fn get_chapter_list(items: &Vec<ChapterItem>) -> (chapters: Vec<ChapterRecord>)
    ensures
        chapters.deep_view() == chapter_list(items.deep_view()),
        chapters.len() == items.len(),
        forall|at: int|
            0 <= at < chapters.len() ==> (#[trigger] chapters@[at])@ == chapter_record(
                items@[at]@,
            ),
{
    let mut chapters: Vec<ChapterRecord> = Vec::new();
    let mut at: usize = 0;
    while at < items.len()
        invariant
            at <= items.len(),
            chapters.len() == at,
            forall|k: int|
                0 <= k < at ==> (#[trigger] chapters@[k]).deep_view() == chapter_record(
                    items@[k].deep_view(),
                ),
        decreases items.len() - at,
    {
        chapters.push(parse_chapter(&items[at]));
        at += 1;
    }
    assert(chapters.deep_view() =~= chapter_list(items.deep_view())) by {
        assert forall|k: int| 0 <= k < chapters.len() implies chapters.deep_view()[k]
            == chapter_list(items.deep_view())[k] by {
            assert(chapters.deep_view()[k] == chapters@[k].deep_view());
            assert(items.deep_view()[k] == items@[k].deep_view());
        }
    }
    chapters
}

/// The identifier of a chapter leads back to the chapter's own address:
/// where the anchor target is the chapter marker followed by a name, the
/// identifier is that name, and the reader page asked for under it is the
/// page that the record points to. The identifier holds the marker only where
/// the name does.
pub proof fn chapter_identifier_round_trips(item: ChapterItemModel, name: Seq<char>)
    requires
        item.href == Some(CHAPTER_MARKER@ + name),
    ensures
        chapter_record(item).id == name,
        reader_address(chapter_record(item).id) == chapter_record(item).page_url,
        occurs_in(chapter_record(item).id, CHAPTER_MARKER@) == occurs_in(name, CHAPTER_MARKER@),
{
    stripped_drops_the_prefix(CHAPTER_MARKER@, name);
}

} // verus!
