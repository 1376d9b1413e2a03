//! The navigable playlist and the position played in it.

use vstd::prelude::*;
use crate::extract::{extracted, lemma_extracted_sound, sound};
use crate::item::{item_views, ItemView, Kind, SimpleItem};
use crate::json::JsonView;

verus! {

/// The most items a playlist holds.
pub const MAX_ITEMS: usize = 20;

/// The test an item passes when it can be played.
pub open spec fn can_play() -> spec_fn(ItemView) -> bool {
    |it: ItemView| it.playable()
}

/// The playable ones among `found`, in order.
pub open spec fn playable_of(found: Seq<ItemView>) -> Seq<ItemView> {
    found.filter(can_play())
}

/// What of `found` can be navigated: its playable items, cut after the first
/// [`MAX_ITEMS`].
pub open spec fn navigable(found: Seq<ItemView>) -> Seq<ItemView> {
    let playable = playable_of(found);
    if playable.len() <= MAX_ITEMS {
        playable
    } else {
        playable.take(MAX_ITEMS as int)
    }
}

/// The navigable list is as long as there are playable items, up to
/// [`MAX_ITEMS`], and it is the front of the playable items.
pub proof fn lemma_navigable_len(found: Seq<ItemView>)
    ensures
        navigable(found).len() == if playable_of(found).len() <= MAX_ITEMS {
            playable_of(found).len()
        } else {
            MAX_ITEMS as nat
        },
        navigable(found) == playable_of(found).take(navigable(found).len() as int),
{
}

/// Only what can be played is navigable, each item as it was found.
pub proof fn lemma_navigable_playable(found: Seq<ItemView>)
    ensures
        forall|i: int|
            0 <= i < navigable(found).len() ==> (#[trigger] navigable(found)[i]).playable()
                && found.contains(navigable(found)[i]),
{
    let playable = playable_of(found);
    assert forall|i: int| 0 <= i < navigable(found).len() implies (#[trigger] navigable(
        found,
    )[i]).playable() && found.contains(navigable(found)[i]) by {
        assert(navigable(found)[i] == playable[i]);
        found.lemma_filter_pred(can_play(), i);
        assert(playable.contains(playable[i]));
        found.lemma_filter_contains_rev(can_play(), playable[i]);
    }
}

/// Of what is read out of an answer, an item without an identifier is of kind
/// [`Kind::Other`] and never becomes navigable: every navigable item carries
/// exactly the identifier that its kind names.
pub proof fn lemma_navigable_of_extracted(root: JsonView)
    ensures
        forall|i: int|
            0 <= i < navigable(extracted(root)).len() ==> {
                let item = #[trigger] navigable(extracted(root))[i];
                &&& item.playable()
                &&& item.kind != Kind::Other
                &&& sound(item)
            },
{
    let found = extracted(root);
    lemma_navigable_playable(found);
    lemma_extracted_sound(root);
    assert forall|i: int| 0 <= i < navigable(found).len() implies {
        let item = #[trigger] navigable(found)[i];
        &&& item.playable()
        &&& item.kind != Kind::Other
        &&& sound(item)
    } by {
        let item = navigable(found)[i];
        assert(found.contains(item));
        let at = choose|k: int| 0 <= k < found.len() && found[k] == item;
        assert(sound(found[at]));
    }
}

/// A step forward moves the position by exactly one except on the last item,
/// a step back by exactly one except on the first; there the cursor stays as
/// it is. Neither step leaves the list or changes it.
pub proof fn lemma_steps(cursor: CursorView)
    requires
        cursor.valid(),
    ensures
        cursor.advanced().valid(),
        cursor.retreated().valid(),
        cursor.advanced().items == cursor.items,
        cursor.retreated().items == cursor.items,
        cursor.index == cursor.items.len() - 1 ==> cursor.advanced() == cursor,
        cursor.index < cursor.items.len() - 1 ==> cursor.advanced().index == cursor.index + 1,
        cursor.index == 0 ==> cursor.retreated() == cursor,
        cursor.index > 0 ==> cursor.retreated().index == cursor.index - 1,
{
}

/// A playlist with the position of the item that plays.
pub struct PlaylistCursor {
    items: Vec<SimpleItem>,
    index: isize,
}

/// The mathematical content of a [`PlaylistCursor`].
pub struct CursorView {
    pub items: Seq<ItemView>,
    pub index: int,
}

impl CursorView {
    /// The position lies inside the list, the list is within its limit, and
    /// every item in it can be played.
    pub open spec fn valid(self) -> bool {
        &&& 0 <= self.index < self.items.len()
        &&& self.items.len() <= MAX_ITEMS
        &&& forall|i: int| 0 <= i < self.items.len() ==> (#[trigger] self.items[i]).playable()
    }

    /// The item at the position.
    pub open spec fn current(self) -> ItemView {
        self.items[self.index]
    }

    /// Whether an item follows the position.
    pub open spec fn has_next(self) -> bool {
        self.index + 1 < self.items.len()
    }

    /// Whether an item precedes the position.
    pub open spec fn has_prev(self) -> bool {
        self.index > 0
    }

    /// One step forward, staying on the last item.
    pub open spec fn advanced(self) -> CursorView {
        if self.has_next() {
            CursorView { items: self.items, index: self.index + 1 }
        } else {
            self
        }
    }

    /// One step back, staying on the first item.
    pub open spec fn retreated(self) -> CursorView {
        if self.has_prev() {
            CursorView { items: self.items, index: self.index - 1 }
        } else {
            self
        }
    }
}

impl View for PlaylistCursor {
    type V = CursorView;

    closed spec fn view(&self) -> CursorView {
        CursorView { items: item_views(self.items@), index: self.index as int }
    }
}

impl PlaylistCursor {
    /// Holds of every cursor there is.
    #[verifier::type_invariant]
    pub open spec fn well_formed(self) -> bool {
        self@.valid()
    }

    /// The playlist of what was found, positioned on its first item; `None`
    /// where nothing found can be played.
    pub fn build(found: &Vec<SimpleItem>) -> (r: Option<PlaylistCursor>)
        ensures
            match r {
                Some(cursor) => {
                    &&& cursor@.items == navigable(item_views(found@))
                    &&& cursor@.index == 0
                    &&& cursor@.valid()
                },
                None => playable_of(item_views(found@)).len() == 0,
            },
    {
        let ghost all = item_views(found@);
        let mut kept: Vec<SimpleItem> = Vec::new();
        let mut i: usize = 0;
        proof {
            reveal(Seq::filter);
            assert(all.take(0) == Seq::<ItemView>::empty());
        }
        while i < found.len()
            invariant
                i <= found.len(),
                all == item_views(found@),
                item_views(kept@) == navigable(all.take(i as int)),
                forall|k: int| 0 <= k < kept@.len() ==> (#[trigger] kept@[k])@.playable(),
            decreases found.len() - i,
        {
            proof {
                reveal(Seq::filter);
                assert(all.take(i + 1).drop_last() == all.take(i as int));
                assert(all.take(i + 1).last() == found@[i as int]@);
            }
            if kept.len() < MAX_ITEMS && found[i].is_playable() {
                let ghost before = item_views(kept@);
                kept.push(found[i].duplicate());
                assert(item_views(kept@) == before.push(found@[i as int]@));
            }
            i += 1;
        }
        assert(all.take(found.len() as int) == all);
        if kept.len() == 0 {
            None
        } else {
            assert forall|k: int| 0 <= k < item_views(kept@).len() implies (
            #[trigger] item_views(kept@)[k]).playable() by {
                assert(kept@[k]@.playable());
            }
            Some(PlaylistCursor { items: kept, index: 0 })
        }
    }

    /// How many items the playlist holds: at least one, at most [`MAX_ITEMS`].
    pub fn len(&self) -> (n: usize)
        ensures
            n == self@.items.len(),
            1 <= n <= MAX_ITEMS,
    {
        proof {
            use_type_invariant(self);
        }
        self.items.len()
    }

    /// The position of the item that plays, counted from zero.
    pub fn index(&self) -> (i: isize)
        ensures
            i == self@.index,
            0 <= i < self@.items.len(),
    {
        proof {
            use_type_invariant(self);
        }
        self.index
    }

    /// The item that plays. It can be played.
    pub fn current(&self) -> (it: &SimpleItem)
        ensures
            it@ == self@.current(),
            it@.playable(),
    {
        proof {
            use_type_invariant(self);
        }
        let it = &self.items[self.index as usize];
        assert(it@ == item_views(self.items@)[self.index as int]);
        it
    }

    /// The item at `position`, if the playlist is that long.
    pub fn get(&self, position: usize) -> (r: Option<&SimpleItem>)
        ensures
            match r {
                Some(it) => position < self@.items.len() && it@ == self@.items[position as int],
                None => position >= self@.items.len(),
            },
    {
        if position < self.items.len() {
            Some(&self.items[position])
        } else {
            None
        }
    }

    /// Steps to the next item and says so; on the last item nothing changes.
    pub fn next(&mut self) -> (moved: bool)
        ensures
            moved == old(self)@.has_next(),
            final(self)@ == old(self)@.advanced(),
            final(self)@.valid(),
    {
        proof {
            use_type_invariant(&*self);
        }
        if (self.index as usize) + 1 < self.items.len() {
            self.index += 1;
            true
        } else {
            false
        }
    }

    /// Steps to the previous item and says so; on the first item nothing
    /// changes.
    pub fn prev(&mut self) -> (moved: bool)
        ensures
            moved == old(self)@.has_prev(),
            final(self)@ == old(self)@.retreated(),
            final(self)@.valid(),
    {
        proof {
            use_type_invariant(&*self);
        }
        if self.index > 0 {
            self.index -= 1;
            true
        } else {
            false
        }
    }
}

} // verus!
