//! Enumerating what a collection holds for playback.
//!
//! A collection hands its items to a sink one by one, each with its position
//! in the collection's natural order. The enumeration is derived from the
//! collection as it is at the moment of the call and leaves it untouched, so
//! it can be started again at any time and gives the same items in the same
//! order.

use crate::data::{Album, AlbumLink, ArtistLink, Episode, Track};
use vstd::prelude::*;

verus! {

/// Something that can be played.
#[derive(Debug, PartialEq, Eq)]
pub enum Playable {
    Track(Track),
    Episode(Episode),
}

impl Clone for Playable {
    fn clone(&self) -> (copy: Self)
        ensures
            copy == *self,
    {
        match self {
            Playable::Track(track) => Playable::Track(track.clone()),
            Playable::Episode(episode) => Playable::Episode(episode.clone()),
        }
    }
}

/// The collection that a queued item was enumerated from.
#[derive(Debug, PartialEq, Eq)]
pub enum PlaybackOrigin {
    Library,
    Album(AlbumLink),
    Artist(ArtistLink),
}

impl Clone for PlaybackOrigin {
    fn clone(&self) -> (copy: Self)
        ensures
            copy == *self,
    {
        match self {
            PlaybackOrigin::Library => PlaybackOrigin::Library,
            PlaybackOrigin::Album(link) => PlaybackOrigin::Album(link.clone()),
            PlaybackOrigin::Artist(link) => PlaybackOrigin::Artist(link.clone()),
        }
    }
}

/// An entry of the playback queue: what to play, where it stood in the
/// enumeration that produced it, and which collection that was.
#[derive(Debug, PartialEq, Eq)]
pub struct PlayableItem {
    pub item: Playable,
    pub position: usize,
    pub origin: PlaybackOrigin,
}

/// The items `items` as an enumeration hands them out: each with its
/// zero-based position.
pub open spec fn enumerated(items: Seq<Playable>) -> Seq<(Playable, usize)> {
    Seq::new(items.len(), |i: int| (items[i], i as usize))
}

/// The queue entries that the enumeration of `items` out of `origin` gives.
pub open spec fn queued(items: Seq<Playable>, origin: PlaybackOrigin) -> Seq<PlayableItem> {
    Seq::new(items.len(), |i: int| PlayableItem { item: items[i], position: i as usize, origin })
}

/// What an enumeration hands its items to.
pub trait PlayableSink {
    /// Every (item, position) pair handed to the sink so far, oldest first.
    spec fn received(&self) -> Seq<(Playable, usize)>;

    /// Whether the sink can take `item` at `position`.
    spec fn accepts(&self, item: Playable, position: usize) -> bool;

    /// Hands one item to the sink. What the sink can take does not shrink.
    fn accept(&mut self, item: Playable, position: usize)
        requires
            old(self).accepts(item, position),
        ensures
            final(self).received() == old(self).received().push((item, position)),
            forall|next: Playable, at: usize|
                old(self).accepts(next, at) ==> final(self).accepts(next, at),
    ;
}

/// A sink that calls a function for every item and keeps a record of its
/// calls.
pub struct Callback<F> {
    function: F,
    calls: Ghost<Seq<(Playable, usize)>>,
}

impl<F: FnMut(Playable, usize)> Callback<F> {
    /// Whether what the function promises of a call with `item` and `position`
    /// holds. Of a function that promises nothing in particular this is known
    /// only once the function was called with them and has returned.
    pub closed spec fn handled(&self, item: Playable, position: usize) -> bool {
        call_ensures(self.function, (item, position), ())
    }

    /// The record holds only calls of which the function's promise holds.
    pub proof fn lemma_received_were_handled(&self, i: int)
        requires
            0 <= i < self.received().len(),
        ensures
            self.handled(self.received()[i].0, self.received()[i].1),
    {
        let made = |call: (Playable, usize)| call_ensures(self.function, call, ());
        self.calls@.lemma_filter_pred(made, i);
    }

    /// A sink that calls `function`, with no call made yet.
    pub fn new(function: F) -> (callback: Self)
        ensures
            callback.received() == Seq::<(Playable, usize)>::empty(),
            forall|item: Playable, position: usize|
                call_requires(function, (item, position)) ==> callback.accepts(item, position),
    {
        Callback { function, calls: Ghost(Seq::empty()) }
    }
}

impl<F: FnMut(Playable, usize)> PlayableSink for Callback<F> {
    /// The calls of the function so far, oldest first. A call that was noted
    /// counts only where the function's promise of it holds.
    closed spec fn received(&self) -> Seq<(Playable, usize)> {
        self.calls@.filter(|call: (Playable, usize)| call_ensures(self.function, call, ()))
    }

    closed spec fn accepts(&self, item: Playable, position: usize) -> bool {
        call_requires(self.function, (item, position))
    }

    /// Calls the function with `item` and `position`, and records the call.
    fn accept(&mut self, item: Playable, position: usize)
        ensures
            old(self).handled(item, position),
            final(self).handled(item, position),
    {
        (self.function)(item, position);
        proof {
            let made = |call: (Playable, usize)| call_ensures(self.function, call, ());
            assert(made((item, position)));
            Seq::filter_distributes_over_add(self.calls@, seq![(item, position)], made);
            reveal_with_fuel(Seq::filter, 2);
            assert(seq![(item, position)].filter(made) =~= seq![(item, position)]);
            assert(self.calls@ + seq![(item, position)] =~= self.calls@.push((item, position)));
            self.calls@ = self.calls@.push((item, position));
        }
    }
}

/// A sink that collects what an enumeration hands out, for the playback
/// queue.
#[derive(Debug)]
pub struct Queue {
    items: Vec<(Playable, usize)>,
}

impl Queue {
    /// A queue that has received nothing.
    pub fn new() -> (queue: Self)
        ensures
            queue.received() == Seq::<(Playable, usize)>::empty(),
    {
        Queue { items: Vec::new() }
    }

    /// The entries of the queue, oldest first: every item received, at the
    /// position it came with, tagged with `origin`.
    pub fn entries(&self, origin: &PlaybackOrigin) -> (entries: Vec<PlayableItem>)
        ensures
            entries.len() == self.received().len(),
            forall|i: int|
                0 <= i < entries.len() ==> #[trigger] entries[i] == (PlayableItem {
                    item: self.received()[i].0,
                    position: self.received()[i].1,
                    origin: *origin,
                }),
    {
        let mut entries: Vec<PlayableItem> = Vec::new();
        let mut i: usize = 0;
        while i < self.items.len()
            invariant
                i <= self.items.len(),
                entries.len() == i,
                forall|j: int|
                    0 <= j < i ==> #[trigger] entries[j] == (PlayableItem {
                        item: self.items[j].0,
                        position: self.items[j].1,
                        origin: *origin,
                    }),
            decreases self.items.len() - i,
        {
            entries.push(
                PlayableItem {
                    item: self.items[i].0.clone(),
                    position: self.items[i].1,
                    origin: origin.clone(),
                },
            );
            i += 1;
        }
        entries
    }
}

impl PlayableSink for Queue {
    closed spec fn received(&self) -> Seq<(Playable, usize)> {
        self.items@
    }

    open spec fn accepts(&self, item: Playable, position: usize) -> bool {
        true
    }

    fn accept(&mut self, item: Playable, position: usize) {
        self.items.push((item, position));
    }
}

/// A collection whose items can be played in order.
pub trait PlayableIter {
    /// The collection as a playback origin.
    spec fn spec_origin(&self) -> PlaybackOrigin;

    /// The items of the collection in its natural order.
    spec fn playables(&self) -> Seq<Playable>;

    /// The tag that says which collection an enumeration came from.
    fn origin(&self) -> (origin: PlaybackOrigin)
        ensures
            origin == self.spec_origin(),
    ;

    /// Hands every item of the collection to `sink`, once, in the natural
    /// order and with its zero-based position. The collection is not changed.
    fn for_each<S: PlayableSink>(&self, sink: &mut S)
        requires
            forall|i: int|
                0 <= i < self.playables().len() ==> old(sink).accepts(
                    #[trigger] self.playables()[i],
                    i as usize,
                ),
        ensures
            final(sink).received() == old(sink).received() + enumerated(self.playables()),
            forall|next: Playable, at: usize|
                old(sink).accepts(next, at) ==> final(sink).accepts(next, at),
    ;

    /// The number of items that an enumeration hands out.
    fn count(&self) -> (count: usize)
        ensures
            count == self.playables().len(),
    ;
}

impl PlayableIter for Album {
    open spec fn spec_origin(&self) -> PlaybackOrigin {
        PlaybackOrigin::Album(self.spec_link())
    }

    open spec fn playables(&self) -> Seq<Playable> {
        Seq::new(
            self.tracks@.len(),
            |i: int| Playable::Track(self.spec_tracks_with_context()[i]),
        )
    }

    fn origin(&self) -> (origin: PlaybackOrigin) {
        PlaybackOrigin::Album(self.link())
    }

    fn for_each<S: PlayableSink>(&self, sink: &mut S) {
        let tracks = self.tracks_with_context();
        let mut position: usize = 0;
        while position < tracks.len()
            invariant
                position <= tracks.len(),
                tracks@ == self.spec_tracks_with_context(),
                sink.received() == old(sink).received() + enumerated(self.playables()).take(
                    position as int,
                ),
                forall|i: int|
                    0 <= i < self.playables().len() ==> sink.accepts(
                        #[trigger] self.playables()[i],
                        i as usize,
                    ),
                forall|next: Playable, at: usize|
                    old(sink).accepts(next, at) ==> sink.accepts(next, at),
            decreases tracks.len() - position,
        {
            let item = Playable::Track(tracks[position].clone());
            assert(item == self.playables()[position as int]);
            sink.accept(item, position);
            assert(enumerated(self.playables()).take(position + 1) =~= enumerated(
                self.playables(),
            ).take(position as int).push((item, position)));
            position += 1;
        }
        assert(enumerated(self.playables()).take(position as int) =~= enumerated(
            self.playables(),
        ));
    }

    fn count(&self) -> (count: usize) {
        self.tracks.len()
    }
}

/// The playback queue that the items of `entity` make: each item at its
/// position, under the origin of `entity`.
pub fn queue_of<P: PlayableIter>(entity: &P) -> (entries: Vec<PlayableItem>)
    ensures
        entries@ == queued(entity.playables(), entity.spec_origin()),
{
    let origin = entity.origin();
    let mut queue = Queue::new();
    entity.for_each(&mut queue);
    let entries = queue.entries(&origin);
    assert(queue.received() =~= enumerated(entity.playables()));
    assert forall|i: int| 0 <= i < entries.len() implies entries[i] == queued(
        entity.playables(),
        entity.spec_origin(),
    )[i] by {
        assert(queue.received()[i] == (entity.playables()[i], i as usize));
    }
    assert(entries@ =~= queued(entity.playables(), entity.spec_origin()));
    entries
}

/// An enumeration makes as many calls as `count` says, and none for an empty
/// collection.
pub proof fn law_count_is_number_of_calls<P: PlayableIter>(
    entity: P,
    before: Seq<(Playable, usize)>,
    after: Seq<(Playable, usize)>,
)
    requires
        after == before + enumerated(entity.playables()),
    ensures
        after.len() - before.len() == entity.playables().len(),
        entity.playables().len() == 0 ==> after == before,
{
    if entity.playables().len() == 0 {
        assert(after =~= before);
    }
}

/// Two enumerations of an unchanged collection hand out the same items at the
/// same positions in the same order, whatever the sinks held before, and the
/// position of each item is its place in that order.
pub proof fn law_enumeration_restarts<P: PlayableIter>(
    entity: P,
    first_before: Seq<(Playable, usize)>,
    first_after: Seq<(Playable, usize)>,
    second_before: Seq<(Playable, usize)>,
    second_after: Seq<(Playable, usize)>,
)
    requires
        first_after == first_before + enumerated(entity.playables()),
        second_after == second_before + enumerated(entity.playables()),
    ensures
        first_after.skip(first_before.len() as int) == second_after.skip(
            second_before.len() as int,
        ),
        forall|i: int|
            0 <= i < entity.playables().len() ==> (#[trigger] first_after[first_before.len() + i])
                == (entity.playables()[i], i as usize),
{
    assert(first_after.skip(first_before.len() as int) =~= enumerated(entity.playables()));
    assert(second_after.skip(second_before.len() as int) =~= enumerated(entity.playables()));
}

} // verus!
