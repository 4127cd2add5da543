//! The store of the sample server that the generation starts from.

use std::collections::HashMap;
use vstd::prelude::*;
use vstd::std_specs::iter::IteratorSpec;

verus! {

broadcast use vstd::std_specs::hash::group_hash_axioms;

/// A song of the chart that the sample server keeps.
#[derive(Debug, Clone)]
pub struct Song {
    pub id: u64,
    pub title: String,
    pub artist: String,
    pub rank: u32,
}

/// A `Song` as plain values.
pub struct SongView {
    pub id: u64,
    pub title: Seq<char>,
    pub artist: Seq<char>,
    pub rank: u32,
}

impl View for Song {
    type V = SongView;

    open spec fn view(&self) -> SongView {
        SongView { id: self.id, title: self.title@, artist: self.artist@, rank: self.rank }
    }
}

/// The songs of the sample server, each under its id.
#[derive(Debug, Clone)]
pub struct Database {
    songs: HashMap<u64, Song>,
}

impl View for Database {
    type V = Map<u64, SongView>;

    closed spec fn view(&self) -> Map<u64, SongView> {
        self.songs@.map_values(|song: Song| song@)
    }
}

/// A store holds finitely many songs.
pub proof fn lemma_store_is_finite(db: Database)
    ensures
        db@.dom().finite(),
{
    assert(db@.dom() =~= db.songs@.dom());
}

impl Database {
    /// Whether every song is stored under its own id.
    pub open spec fn wf(&self) -> bool {
        forall|id: u64| #[trigger] self@.contains_key(id) ==> self@[id].id == id
    }

    /// A database without songs.
    pub fn new() -> (db: Self)
        ensures
            db@ == Map::<u64, SongView>::empty(),
            db@.dom().finite(),
            db.wf(),
    {
        let db = Self { songs: HashMap::new() };
        assert(db@ =~= Map::<u64, SongView>::empty());
        db
    }

    /// Stores `song` under `key`, in place of a song that was there. This is
    /// how a song comes back from the file, under the key it was filed
    /// under.
    pub fn insert_song_at(&mut self, key: u64, song: Song)
        ensures
            final(self)@ == old(self)@.insert(key, song@),
            final(self)@.dom().finite(),
            final(self)@.len() == old(self)@.len() + if old(self)@.contains_key(key) {
                0int
            } else {
                1int
            },
            old(self).wf() && key == song.id ==> final(self).wf(),
    {
        let ghost stored = song@;
        proof {
            lemma_store_is_finite(*self);
        }
        self.songs.insert(key, song);
        assert(self@ =~= old(self)@.insert(key, stored));
    }

    /// Stores `song` under its id, in place of a song that was there.
    pub fn insert_song(&mut self, song: Song)
        ensures
            final(self)@ == old(self)@.insert(song.id, song@),
            final(self)@.dom().finite(),
            final(self)@.len() == old(self)@.len() + if old(self)@.contains_key(song.id) {
                0int
            } else {
                1int
            },
            old(self).wf() ==> final(self).wf(),
    {
        self.insert_song_at(song.id, song);
    }

    /// The song with this id, if there is one.
    pub fn get_song(&self, id: &u64) -> (found: Option<&Song>)
        ensures
            match found {
                Some(song) => self@.contains_key(*id) && self@[*id] == song@,
                None => !self@.contains_key(*id),
            },
    {
        self.songs.get(id)
    }

    /// All the songs with the keys they stand under, each key once, in no
    /// order that could be relied on.
    pub fn get_all_entries(&self) -> (entries: Vec<(u64, &Song)>)
        ensures
            entries.len() == self@.len(),
            self@.dom().finite(),
            forall|i: int|
                0 <= i < entries.len() ==> self@.contains_key(#[trigger] entries[i].0)
                    && self@[entries[i].0] == entries[i].1@,
            forall|i: int, j: int|
                0 <= i < j < entries.len() ==> entries[i].0 != entries[j].0,
            forall|id: u64|
                self@.contains_key(id) ==> exists|i: int|
                    0 <= i < entries.len() && #[trigger] entries[i].0 == id,
    {
        let mut entries: Vec<(u64, &Song)> = Vec::new();
        let ghost stored = self.songs@;
        let iter = self.songs.iter();
        let ghost all = iter.remaining();
        for entry in it: iter
            invariant
                it.seq() == all,
                entries.len() == it.index(),
                forall|i: int|
                    0 <= i < entries.len() ==> entries[i].0 == *all[i].0 && *entries[i].1
                        == *all[i].1,
        {
            entries.push((*entry.0, entry.1));
        }
        proof {
            lemma_store_is_finite(*self);
            assert(self@.dom() =~= stored.dom());
            assert forall|i: int| 0 <= i < entries.len() implies self@.contains_key(
                #[trigger] entries[i].0,
            ) && self@[entries[i].0] == entries[i].1@ by {
                assert(stored.contains_key(*all[i].0) && stored[*all[i].0] == *all[i].1);
            }
            assert forall|i: int, j: int| 0 <= i < j < entries.len() implies entries[i].0
                != entries[j].0 by {
                assert(stored.contains_key(*all[i].0) && stored[*all[i].0] == *all[i].1);
                assert(stored.contains_key(*all[j].0) && stored[*all[j].0] == *all[j].1);
                if entries[i].0 == entries[j].0 {
                    assert(all[i] == all[j]);
                }
            }
            assert forall|id: u64| self@.contains_key(id) implies exists|i: int|
                0 <= i < entries.len() && #[trigger] entries[i].0 == id by {
                assert(stored.contains_key(id));
                assert(all.contains((&id, &stored[id])));
                let i = choose|i: int| 0 <= i < all.len() && all[i] == (&id, &stored[id]);
                assert(entries[i].0 == id);
            }
        }
        entries
    }

    /// All the songs, each once, in no order that could be relied on.
    pub fn get_all_songs(&self) -> (songs: Vec<&Song>)
        ensures
            songs.len() == self@.len(),
            self@.dom().finite(),
            exists|keys: Seq<u64>|
                {
                    &&& #[trigger] keys.len() == songs.len()
                    &&& keys.no_duplicates()
                    &&& keys.to_set() == self@.dom()
                    &&& forall|i: int| 0 <= i < songs.len() ==> songs[i]@ == self@[keys[i]]
                },
            forall|i: int| 0 <= i < songs.len() ==> self@.contains_value(#[trigger] songs[i]@),
            forall|id: u64|
                self@.contains_key(id) ==> exists|i: int|
                    0 <= i < songs.len() && #[trigger] songs[i]@ == self@[id],
            self.wf() ==> forall|i: int, j: int|
                0 <= i < j < songs.len() ==> songs[i]@.id != songs[j]@.id,
    {
        let entries = self.get_all_entries();
        let mut songs: Vec<&Song> = Vec::new();
        for n in 0..entries.len()
            invariant
                songs.len() == n,
                forall|i: int| 0 <= i < n ==> *songs[i] == *entries[i].1,
        {
            songs.push(entries[n].1);
        }
        proof {
            let keys = Seq::new(entries.len() as nat, |i: int| entries[i].0);
            assert(keys.no_duplicates());
            assert(keys.to_set() =~= self@.dom()) by {
                assert forall|id: u64| self@.dom().contains(id) implies keys.to_set().contains(
                    id,
                ) by {
                    let i = choose|i: int| 0 <= i < entries.len() && #[trigger] entries[i].0 == id;
                    assert(keys[i] == id);
                }
                assert forall|id: u64| keys.to_set().contains(id) implies self@.dom().contains(
                    id,
                ) by {
                    let i = choose|i: int| 0 <= i < keys.len() && keys[i] == id;
                    assert(self@.contains_key(entries[i].0));
                }
            }
            assert(keys.len() == songs.len());
            assert forall|i: int| 0 <= i < songs.len() implies songs[i]@ == self@[keys[i]] by {
                assert(self@.contains_key(entries[i].0));
            }
            assert forall|i: int| 0 <= i < songs.len() implies self@.contains_value(
                #[trigger] songs[i]@,
            ) by {
                assert(self@.contains_key(entries[i].0));
            }
            assert forall|id: u64| self@.contains_key(id) implies exists|i: int|
                0 <= i < songs.len() && #[trigger] songs[i]@ == self@[id] by {
                let i = choose|i: int| 0 <= i < entries.len() && #[trigger] entries[i].0 == id;
                assert(songs[i]@ == self@[id]);
            }
            if self.wf() {
                assert forall|i: int, j: int| 0 <= i < j < songs.len() implies songs[i]@.id
                    != songs[j]@.id by {
                    assert(self@.contains_key(entries[i].0));
                    assert(self@.contains_key(entries[j].0));
                }
            }
        }
        songs
    }

    /// Removes the song with this id, if there is one.
    pub fn delete_song(&mut self, id: &u64)
        ensures
            final(self)@ == old(self)@.remove(*id),
            final(self)@.dom().finite(),
            final(self)@.len() == old(self)@.len() - if old(self)@.contains_key(*id) {
                1int
            } else {
                0int
            },
            old(self).wf() ==> final(self).wf(),
    {
        proof {
            lemma_store_is_finite(*self);
        }
        self.songs.remove(id);
        assert(self@ =~= old(self)@.remove(*id));
    }

    /// Stores `song` under its id, in place of the song that was there.
    pub fn update_song(&mut self, song: Song)
        ensures
            final(self)@ == old(self)@.insert(song.id, song@),
            final(self)@.dom().finite(),
            final(self)@.len() == old(self)@.len() + if old(self)@.contains_key(song.id) {
                0int
            } else {
                1int
            },
            old(self).wf() ==> final(self).wf(),
    {
        self.insert_song(song);
    }
}

} // verus!
