//! A track of a playlist.

use vstd::prelude::*;

verus! {

/// One playable item: the name it is shown and stored under, and the
/// provider's identifier for it.
#[derive(Debug, PartialEq, Eq)]
pub struct Song {
    pub name: String,
    pub id: String,
}

/// The mathematical value of a [`Song`].
pub struct SongView {
    pub name: Seq<char>,
    pub id: Seq<char>,
}

impl View for Song {
    type V = SongView;

    open spec fn view(&self) -> SongView {
        SongView { name: self.name@, id: self.id@ }
    }
}

impl DeepView for Song {
    type V = SongView;

    open spec fn deep_view(&self) -> SongView {
        self@
    }
}

impl Song {
    /// A track with the given display name and provider identifier.
    pub fn new(name: String, id: String) -> (song: Song)
        ensures
            song.name == name,
            song.id == id,
            song@ == (SongView { name: name@, id: id@ }),
    {
        Song { name, id }
    }
}

impl Clone for Song {
    fn clone(&self) -> (copy: Song)
        ensures
            copy == *self,
    {
        Song { name: self.name.clone(), id: self.id.clone() }
    }
}

} // verus!
