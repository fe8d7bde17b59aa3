//! The page lister: from the image nodes of a reader page to page records,
//! numbered by position.

use crate::document::{or_empty, text_or_empty};
use crate::model::{PageRecord, PageRecordModel};
use vstd::prelude::*;

verus! {

/// The records of a reader page: one for each image node, numbered from 0 in
/// document order, each with the node's `src` as it is.
pub open spec fn page_list(images: Seq<Option<Seq<char>>>) -> Seq<PageRecordModel> {
    Seq::new(
        images.len(),
        |at: int| PageRecordModel { index: at as nat, image_url: or_empty(images[at]) },
    )
}

/// Builds the page records of a chapter from the `src` of each image node of
/// its reader page. No image yields an empty list.
pub fn get_page_list(images: &Vec<Option<String>>) -> (pages: Vec<PageRecord>)
    ensures
        pages.deep_view() == page_list(images.deep_view()),
        pages.len() == images.len(),
        forall|at: int| 0 <= at < pages.len() ==> (#[trigger] pages@[at]).index == at,
        forall|at: int|
            0 <= at < pages.len() ==> (#[trigger] pages@[at]).image_url@ == or_empty(
                images@[at].deep_view(),
            ),
{
    let mut pages: Vec<PageRecord> = Vec::new();
    let mut at: usize = 0;
    while at < images.len()
        invariant
            at <= images.len(),
            pages.len() == at,
            forall|k: int|
                0 <= k < at ==> (#[trigger] pages@[k]).deep_view() == (PageRecordModel {
                    index: k as nat,
                    image_url: or_empty(images@[k].deep_view()),
                }),
        decreases images.len() - at,
    {
        pages.push(PageRecord { index: at, image_url: text_or_empty(&images[at]) });
        at += 1;
    }
    assert(pages.deep_view() =~= page_list(images.deep_view())) by {
        assert forall|k: int| 0 <= k < pages.len() implies pages.deep_view()[k] == page_list(
            images.deep_view(),
        )[k] by {
            assert(pages.deep_view()[k] == pages@[k].deep_view());
            assert(images.deep_view()[k] == images@[k].deep_view());
        }
    }
    pages
}

} // verus!
