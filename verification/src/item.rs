//! Playable search results and the address a player is given for each.

use vstd::prelude::*;
use vstd::string::*;
use crate::text::{replace_all, replaced};

verus! {

/// What a search result was recognised as, by the identifier found in it.
#[derive(Clone, Copy, Debug, PartialEq, Eq, Structural)]
pub enum Kind {
    Song,
    Playlist,
    Other,
}

/// One search result, normalised.
#[derive(Debug, PartialEq, Eq)]
pub struct SimpleItem {
    pub kind: Kind,
    pub title: String,
    pub video_id: Option<String>,
    pub playlist_id: Option<String>,
}

/// The mathematical content of a [`SimpleItem`].
pub struct ItemView {
    pub kind: Kind,
    pub title: Seq<char>,
    pub video_id: Option<Seq<char>>,
    pub playlist_id: Option<Seq<char>>,
}

/// The view of an optional string.
pub open spec fn opt_text(s: Option<String>) -> Option<Seq<char>> {
    match s {
        Some(t) => Some(t@),
        None => None,
    }
}

/// Address prefix of a single track on the standard web host.
pub open spec fn watch_prefix() -> Seq<char> {
    "https://www.youtube.com/watch?v="@
}

/// Address prefix of a playlist on the standard web host.
pub open spec fn playlist_prefix() -> Seq<char> {
    "https://www.youtube.com/playlist?list="@
}

/// `url` with the music host of a track or playlist address replaced by the
/// standard web host, wherever such an address stands in it.
pub open spec fn normalized(url: Seq<char>) -> Seq<char> {
    replaced(
        replaced(url, "https://music.youtube.com/watch?"@, "https://www.youtube.com/watch?"@),
        "https://music.youtube.com/playlist?"@,
        "https://www.youtube.com/playlist?"@,
    )
}

/// `url` as playback opens with it: on the standard web host.
pub fn normalize_host(url: &str) -> (r: String)
    ensures
        r@ == normalized(url@),
{
    let watch = replace_all(
        url,
        "https://music.youtube.com/watch?",
        "https://www.youtube.com/watch?",
    );
    replace_all(
        watch.as_str(),
        "https://music.youtube.com/playlist?",
        "https://www.youtube.com/playlist?",
    )
}

impl ItemView {
    /// An item can be played when it carries at least one identifier.
    pub open spec fn playable(self) -> bool {
        self.video_id is Some || self.playlist_id is Some
    }

    /// The kind says which identifier is present, and exactly one is, or none.
    pub open spec fn classified(self) -> bool {
        &&& self.kind == Kind::Song <==> self.video_id is Some
        &&& self.kind == Kind::Playlist <==> self.playlist_id is Some
        &&& !(self.video_id is Some && self.playlist_id is Some)
    }

    /// The address handed to the player: built from the video identifier when
    /// there is one, else from the playlist identifier, else absent.
    pub open spec fn playback_url(self) -> Option<Seq<char>> {
        match (self.video_id, self.playlist_id) {
            (Some(v), _) => Some(watch_prefix() + v),
            (None, Some(p)) => Some(playlist_prefix() + p),
            (None, None) => None,
        }
    }
}

/// Whether `text` begins with `head`.
pub open spec fn begins_with(text: Seq<char>, head: Seq<char>) -> bool {
    head.len() <= text.len() && text.subrange(0, head.len() as int) == head
}

/// Every address built for an item lies on the standard web host: it begins
/// with the track prefix where the item has a video identifier, else with
/// the playlist prefix, and the identifier follows unchanged.
pub proof fn lemma_url_on_web_host(item: ItemView)
    requires
        item.playable(),
    ensures
        item.playback_url() is Some,
        item.video_id is Some ==> begins_with(item.playback_url().unwrap(), watch_prefix())
            && item.playback_url().unwrap().skip(watch_prefix().len() as int)
            == item.video_id.unwrap(),
        item.video_id is None ==> begins_with(item.playback_url().unwrap(), playlist_prefix())
            && item.playback_url().unwrap().skip(playlist_prefix().len() as int)
            == item.playlist_id.unwrap(),
{
    let url = item.playback_url().unwrap();
    if item.video_id is Some {
        assert(url.subrange(0, watch_prefix().len() as int) == watch_prefix());
        assert(url.skip(watch_prefix().len() as int) == item.video_id.unwrap());
    } else {
        assert(url.subrange(0, playlist_prefix().len() as int) == playlist_prefix());
        assert(url.skip(playlist_prefix().len() as int) == item.playlist_id.unwrap());
    }
}

impl View for SimpleItem {
    type V = ItemView;

    open spec fn view(&self) -> ItemView {
        ItemView {
            kind: self.kind,
            title: self.title@,
            video_id: opt_text(self.video_id),
            playlist_id: opt_text(self.playlist_id),
        }
    }
}

/// The contents of a run of items, in order.
pub open spec fn item_views(items: Seq<SimpleItem>) -> Seq<ItemView> {
    Seq::new(items.len(), |i: int| items[i]@)
}

impl SimpleItem {
    /// The address handed to the player, if the item can be played.
    pub fn url(&self) -> (r: Option<String>)
        ensures
            opt_text(r) == self@.playback_url(),
    {
        if let Some(v) = &self.video_id {
            return Some(String::from_str("https://www.youtube.com/watch?v=").concat(v.as_str()));
        }
        if let Some(p) = &self.playlist_id {
            return Some(
                String::from_str("https://www.youtube.com/playlist?list=").concat(p.as_str()),
            );
        }
        None
    }

    /// Whether the item carries an identifier the player can resolve.
    pub fn is_playable(&self) -> (r: bool)
        ensures
            r == self@.playable(),
    {
        self.video_id.is_some() || self.playlist_id.is_some()
    }

    /// A copy with the same content.
    pub fn duplicate(&self) -> (r: SimpleItem)
        ensures
            r@ == self@,
    {
        SimpleItem {
            kind: self.kind,
            title: self.title.clone(),
            video_id: match &self.video_id {
                Some(v) => Some(v.clone()),
                None => None,
            },
            playlist_id: match &self.playlist_id {
                Some(p) => Some(p.clone()),
                None => None,
            },
        }
    }
}

} // verus!
