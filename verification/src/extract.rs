//! Reading playable items out of a search answer.
//!
//! Every step of the walk is an optional lookup: a member that is absent, or
//! of another shape than expected, yields nothing for that step and never an
//! error.

use vstd::prelude::*;
use vstd::string::*;
use crate::item::{item_views, opt_text, ItemView, Kind, SimpleItem};
use crate::json::{
    child, child_at, descend, descend_at, elements_in, elements_of, text_in, text_of, views_of,
    Json, JsonView,
};

verus! {

/// The playlist identifier below a navigation target.
pub open spec fn playlist_id_under(target: Option<JsonView>) -> Option<Seq<char>> {
    text_in(descend(descend(target, "watchPlaylistEndpoint"@), "playlistId"@))
}

/// The video identifier below a navigation target.
pub open spec fn video_id_under(target: Option<JsonView>) -> Option<Seq<char>> {
    text_in(descend(descend(target, "watchEndpoint"@), "videoId"@))
}

/// The navigation target of an entry's overlay play button.
pub open spec fn overlay_target(entry: JsonView) -> Option<JsonView> {
    descend(
        descend(
            descend(
                descend(entry.member("overlay"@), "musicItemThumbnailOverlayRenderer"@),
                "content"@,
            ),
            "musicPlayButtonRenderer"@,
        ),
        "playNavigationEndpoint"@,
    )
}

/// The entry's own navigation target.
pub open spec fn direct_target(entry: JsonView) -> Option<JsonView> {
    entry.member("navigationEndpoint"@)
}

/// The identifier an entry is played by, as (video, playlist, kind).
///
/// The overlay play button is asked first, for a playlist and then for a
/// video; after it the entry's own target, for a video and then for a
/// playlist.
pub open spec fn primary_id(entry: JsonView) -> (Option<Seq<char>>, Option<Seq<char>>, Kind) {
    let overlay = overlay_target(entry);
    let direct = direct_target(entry);
    if playlist_id_under(overlay) is Some {
        (None, playlist_id_under(overlay), Kind::Playlist)
    } else if video_id_under(overlay) is Some {
        (video_id_under(overlay), None, Kind::Song)
    } else if video_id_under(direct) is Some {
        (video_id_under(direct), None, Kind::Song)
    } else if playlist_id_under(direct) is Some {
        (None, playlist_id_under(direct), Kind::Playlist)
    } else {
        (None, None, Kind::Other)
    }
}

/// The text fragments of `runs`, one after the other with nothing between;
/// a run without a text adds nothing.
pub open spec fn run_texts(runs: Seq<JsonView>) -> Seq<char>
    decreases runs.len(),
{
    if runs.len() == 0 {
        Seq::empty()
    } else {
        let before = run_texts(runs.drop_last());
        match text_in(runs.last().member("text"@)) {
            Some(t) => before + t,
            None => before,
        }
    }
}

/// The joined text of a run list; empty where `runs` is no array.
pub open spec fn joined_runs(runs: JsonView) -> Seq<char> {
    run_texts(elements_in(Some(runs)))
}

/// The run list of an entry's first flex column.
pub open spec fn title_runs(entry: JsonView) -> Option<JsonView> {
    descend(
        descend(
            descend(
                descend_at(entry.member("flexColumns"@), 0),
                "musicResponsiveListItemFlexColumnRenderer"@,
            ),
            "text"@,
        ),
        "runs"@,
    )
}

/// The title of an entry: the joined text of its first flex column.
pub open spec fn title_of(entry: JsonView) -> Seq<char> {
    match title_runs(entry) {
        Some(runs) => joined_runs(runs),
        None => Seq::empty(),
    }
}

/// The item an entry stands for.
pub open spec fn item_of(entry: JsonView) -> ItemView {
    let id = primary_id(entry);
    ItemView { kind: id.2, title: title_of(entry), video_id: id.0, playlist_id: id.1 }
}

/// The items of a shelf's entries, in order; an entry that is no list item is
/// passed over.
pub open spec fn entry_items(entries: Seq<JsonView>) -> Seq<ItemView>
    decreases entries.len(),
{
    if entries.len() == 0 {
        Seq::empty()
    } else {
        let before = entry_items(entries.drop_last());
        match entries.last().member("musicResponsiveListItemRenderer"@) {
            Some(entry) => before.push(item_of(entry)),
            None => before,
        }
    }
}

/// The entries of one section, if it is a music shelf.
pub open spec fn shelf_entries(section: JsonView) -> Seq<JsonView> {
    elements_in(descend(section.member("musicShelfRenderer"@), "contents"@))
}

/// The items of the given sections, shelf after shelf.
pub open spec fn shelf_items(sections: Seq<JsonView>) -> Seq<ItemView>
    decreases sections.len(),
{
    if sections.len() == 0 {
        Seq::empty()
    } else {
        shelf_items(sections.drop_last()) + entry_items(shelf_entries(sections.last()))
    }
}

/// The sections of the first tab of a search answer.
pub open spec fn sections_of(root: JsonView) -> Seq<JsonView> {
    elements_in(
        descend(
            descend(
                descend(
                    descend(
                        descend_at(
                            descend(
                                descend(root.member("contents"@), "tabbedSearchResultsRenderer"@),
                                "tabs"@,
                            ),
                            0,
                        ),
                        "tabRenderer"@,
                    ),
                    "content"@,
                ),
                "sectionListRenderer"@,
            ),
            "contents"@,
        ),
    )
}

/// Everything a search answer lists, in the order of the answer.
pub open spec fn extracted(root: JsonView) -> Seq<ItemView> {
    shelf_items(sections_of(root))
}

/// An item is sound when its kind says which identifier it carries, it
/// carries one at most, and it can be played unless its kind is
/// [`Kind::Other`].
pub open spec fn sound(item: ItemView) -> bool {
    &&& item.classified()
    &&& item.playable() || item.kind == Kind::Other
}

/// Every entry stands for a sound item.
pub proof fn lemma_item_sound(entry: JsonView)
    ensures
        sound(item_of(entry)),
{
}

/// Every item of a shelf is sound.
pub proof fn lemma_entry_items_sound(entries: Seq<JsonView>)
    ensures
        forall|i: int|
            0 <= i < entry_items(entries).len() ==> sound(#[trigger] entry_items(entries)[i]),
    decreases entries.len(),
{
    if entries.len() > 0 {
        let before = entry_items(entries.drop_last());
        lemma_entry_items_sound(entries.drop_last());
        assert forall|i: int| 0 <= i < entry_items(entries).len() implies sound(
            #[trigger] entry_items(entries)[i],
        ) by {
            if i < before.len() {
                assert(entry_items(entries)[i] == before[i]);
            } else {
                lemma_item_sound(
                    entries.last().member("musicResponsiveListItemRenderer"@).unwrap(),
                );
            }
        }
    }
}

/// Every item of every shelf is sound.
pub proof fn lemma_shelf_items_sound(sections: Seq<JsonView>)
    ensures
        forall|i: int|
            0 <= i < shelf_items(sections).len() ==> sound(#[trigger] shelf_items(sections)[i]),
    decreases sections.len(),
{
    if sections.len() > 0 {
        let before = shelf_items(sections.drop_last());
        let added = entry_items(shelf_entries(sections.last()));
        lemma_shelf_items_sound(sections.drop_last());
        lemma_entry_items_sound(shelf_entries(sections.last()));
        assert forall|i: int| 0 <= i < shelf_items(sections).len() implies sound(
            #[trigger] shelf_items(sections)[i],
        ) by {
            if i < before.len() {
                assert(shelf_items(sections)[i] == before[i]);
            } else {
                assert(shelf_items(sections)[i] == added[i - before.len()]);
            }
        }
    }
}

/// Whatever the answer, every item read out of it is sound: it carries the
/// identifier its kind names and no other, and one without an identifier is
/// of kind [`Kind::Other`].
pub proof fn lemma_extracted_sound(root: JsonView)
    ensures
        forall|i: int| 0 <= i < extracted(root).len() ==> sound(#[trigger] extracted(root)[i]),
{
    lemma_shelf_items_sound(sections_of(root));
}

/// Reading the same answer twice yields the same items in the same order:
/// two answers of equal content have equal readings, and so have two readings
/// of one answer.
pub proof fn lemma_extraction_repeatable(
    first_answer: Json,
    second_answer: Json,
    first: Vec<SimpleItem>,
    second: Vec<SimpleItem>,
)
    requires
        first_answer@ == second_answer@,
        item_views(first@) == extracted(first_answer@),
        item_views(second@) == extracted(second_answer@),
    ensures
        item_views(first@) == item_views(second@),
        first@.len() == second@.len(),
        forall|i: int| 0 <= i < first@.len() ==> first@[i]@ == second@[i]@,
{
    assert(item_views(first@).len() == first@.len());
    assert(item_views(second@).len() == second@.len());
    assert forall|i: int| 0 <= i < first@.len() implies first@[i]@ == second@[i]@ by {
        assert(item_views(first@)[i] == item_views(second@)[i]);
    }
}

fn playlist_id_in<'a>(target: Option<&'a Json>) -> (r: Option<&'a str>)
    ensures
        match r {
            Some(s) => playlist_id_under(crate::json::opt_view(target)) == Some(s@),
            None => playlist_id_under(crate::json::opt_view(target)) is None,
        },
{
    text_of(child(child(target, "watchPlaylistEndpoint"), "playlistId"))
}

fn video_id_in<'a>(target: Option<&'a Json>) -> (r: Option<&'a str>)
    ensures
        match r {
            Some(s) => video_id_under(crate::json::opt_view(target)) == Some(s@),
            None => video_id_under(crate::json::opt_view(target)) is None,
        },
{
    text_of(child(child(target, "watchEndpoint"), "videoId"))
}

/// The identifier an entry is played by, with the kind it makes the entry.
pub fn primary_id_and_kind(m: &Json) -> (r: (Option<String>, Option<String>, Kind))
    ensures
        (opt_text(r.0), opt_text(r.1), r.2) == primary_id(m@),
{
    let overlay = child(
        child(
            child(child(m.get("overlay"), "musicItemThumbnailOverlayRenderer"), "content"),
            "musicPlayButtonRenderer",
        ),
        "playNavigationEndpoint",
    );
    if let Some(pid) = playlist_id_in(overlay) {
        return (None, Some(String::from_str(pid)), Kind::Playlist);
    }
    if let Some(vid) = video_id_in(overlay) {
        return (Some(String::from_str(vid)), None, Kind::Song);
    }
    let direct = m.get("navigationEndpoint");
    if let Some(vid) = video_id_in(direct) {
        return (Some(String::from_str(vid)), None, Kind::Song);
    }
    if let Some(pid) = playlist_id_in(direct) {
        return (None, Some(String::from_str(pid)), Kind::Playlist);
    }
    (None, None, Kind::Other)
}

/// The text fragments of a run list, joined with nothing between.
pub fn text_runs_join(runs: &Json) -> (r: String)
    ensures
        r@ == joined_runs(runs@),
{
    let mut joined = String::new();
    if let Some(items) = runs.as_array() {
        let ghost all = views_of(items@);
        let mut i: usize = 0;
        while i < items.len()
            invariant
                i <= items.len(),
                all == views_of(items@),
                joined@ == run_texts(all.take(i as int)),
            decreases items.len() - i,
        {
            assert(all.take(i + 1).drop_last() == all.take(i as int));
            if let Some(t) = text_of(items[i].get("text")) {
                joined.append(t);
            }
            i += 1;
        }
        assert(all.take(items.len() as int) == all);
    }
    joined
}

/// The item an entry stands for. Every entry yields one.
pub fn parse_music_item(m: &Json) -> (r: Option<SimpleItem>)
    ensures
        r is Some,
        r->0@ == item_of(m@),
{
    let runs = child(
        child(
            child(child_at(m.get("flexColumns"), 0), "musicResponsiveListItemFlexColumnRenderer"),
            "text",
        ),
        "runs",
    );
    let title = match runs {
        Some(list) => text_runs_join(list),
        None => String::new(),
    };
    let (video_id, playlist_id, kind) = primary_id_and_kind(m);
    Some(SimpleItem { kind, title, video_id, playlist_id })
}

/// Everything a search answer lists, in the order of the answer.
///
/// The result depends on the content of `root` alone, and a walk that finds
/// nothing yields the empty list.
pub fn parse_search_items(root: &Json) -> (items: Vec<SimpleItem>)
    ensures
        item_views(items@) == extracted(root@),
{
    let mut items: Vec<SimpleItem> = Vec::new();
    let found = elements_of(
        child(
            child(
                child(
                    child(
                        child_at(
                            child(child(root.get("contents"), "tabbedSearchResultsRenderer"), "tabs"),
                            0,
                        ),
                        "tabRenderer",
                    ),
                    "content",
                ),
                "sectionListRenderer",
            ),
            "contents",
        ),
    );
    if let Some(sections) = found {
        let ghost all = views_of(sections@);
        let mut s: usize = 0;
        while s < sections.len()
            invariant
                s <= sections.len(),
                all == views_of(sections@),
                item_views(items@) == shelf_items(all.take(s as int)),
            decreases sections.len() - s,
        {
            assert(all.take(s + 1).drop_last() == all.take(s as int));
            let ghost before = item_views(items@);
            let listed = elements_of(child(sections[s].get("musicShelfRenderer"), "contents"));
            if let Some(entries) = listed {
                let ghost shelf = views_of(entries@);
                let mut e: usize = 0;
                while e < entries.len()
                    invariant
                        e <= entries.len(),
                        shelf == views_of(entries@),
                        item_views(items@) == before + entry_items(shelf.take(e as int)),
                    decreases entries.len() - e,
                {
                    assert(shelf.take(e + 1).drop_last() == shelf.take(e as int));
                    if let Some(m) = entries[e].get("musicResponsiveListItemRenderer") {
                        if let Some(parsed) = parse_music_item(m) {
                            let ghost earlier = item_views(items@);
                            items.push(parsed);
                            assert(item_views(items@) == earlier.push(parsed@));
                        }
                    }
                    e += 1;
                }
                assert(shelf.take(entries.len() as int) == shelf);
            }
            s += 1;
        }
        assert(all.take(sections.len() as int) == all);
    }
    items
}

} // verus!
