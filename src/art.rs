//! The artwork catalogue: artists and the pictures credited to them, with a
//! random pick for the page.

use vstd::prelude::*;
use rand::Rng;

verus! {

/// One picture; `artist_id` is the position of its artist in the catalogue.
#[derive(Debug, Clone)]
pub struct Artwork {
    pub artist_id: usize,
    pub path: String,
}

#[derive(Debug, Clone)]
pub struct Artist {
    pub username: String,
    pub twitter: Option<String>,
}

/// One artist as configured: their name, their handle, their pictures.
#[derive(Debug, Clone)]
pub struct ArtistEntry {
    pub username: String,
    pub twitter: Option<String>,
    pub artworks: Vec<String>,
}

pub struct ArtworksView {
    pub works: Seq<Artwork>,
    pub artists: Seq<Artist>,
}

/// The artists of a configuration, in its order.
pub open spec fn artists_of(entries: Seq<ArtistEntry>) -> Seq<Artist> {
    entries.map_values(|e: ArtistEntry| Artist { username: e.username, twitter: e.twitter })
}

/// The pictures of a configuration, artist by artist, each with the position
/// of its artist.
pub open spec fn works_of(entries: Seq<ArtistEntry>) -> Seq<(int, String)>
    decreases entries.len(),
{
    if entries.len() == 0 {
        Seq::empty()
    } else {
        let id = entries.len() - 1;
        works_of(entries.drop_last()) + entries.last().artworks@.map_values(|p: String| (id, p))
    }
}

/// The pictures of a catalogue with the position of each one's artist.
pub open spec fn credited(works: Seq<Artwork>) -> Seq<(int, String)> {
    works.map_values(|w: Artwork| (w.artist_id as int, w.path))
}

/// Relies on rand's `thread_rng` and `Rng::gen_range`: a value drawn from
/// `0..n`, which must not be empty.
#[verifier::external_body]
fn random_index(n: usize) -> (r: usize)
    requires
        n > 0,
    ensures
        r < n,
{
    rand::thread_rng().gen_range(0..n)
}

#[derive(Debug)]
pub struct Artworks {
    artworks: Vec<Artwork>,
    artists: Vec<Artist>,
}

impl View for Artworks {
    type V = ArtworksView;

    closed spec fn view(&self) -> ArtworksView {
        ArtworksView { works: self.artworks@, artists: self.artists@ }
    }
}

fn clone_handle(t: &Option<String>) -> (r: Option<String>)
    ensures
        r == *t,
{
    match t {
        Some(s) => Some(s.clone()),
        None => None,
    }
}

impl Artworks {
    /// Every picture names an artist of the catalogue.
    pub open spec fn wf(&self) -> bool {
        forall|i: int| 0 <= i < self@.works.len() ==> #[trigger] self@.works[i].artist_id < self@.artists.len()
    }

    /// Builds the catalogue from the configured artists: the artists in their
    /// order, and their pictures one artist after another.
    pub fn load(entries: Vec<ArtistEntry>) -> (r: Self)
        ensures
            r@.artists == artists_of(entries@),
            credited(r@.works) == works_of(entries@),
            r.wf(),
    {
        let mut artworks: Vec<Artwork> = Vec::new();
        let mut artists: Vec<Artist> = Vec::new();
        let mut i: usize = 0;
        while i < entries.len()
            invariant
                i <= entries.len(),
                artists@ == artists_of(entries@.take(i as int)),
                credited(artworks@) == works_of(entries@.take(i as int)),
                forall|k: int| 0 <= k < artworks@.len() ==> #[trigger] artworks@[k].artist_id < i,
            decreases entries.len() - i,
        {
            let entry = &entries[i];
            let ghost before = artworks@;
            let mut j: usize = 0;
            while j < entry.artworks.len()
                invariant
                    i < entries.len(),
                    entry == entries@[i as int],
                    j <= entry.artworks.len(),
                    artworks@.len() == before.len() + j,
                    artworks@.take(before.len() as int) == before,
                    credited(artworks@) == credited(before) + entry.artworks@.take(j as int).map_values(
                        |p: String| (i as int, p),
                    ),
                    forall|k: int| 0 <= k < artworks@.len() ==> #[trigger] artworks@[k].artist_id < i + 1,
                decreases entry.artworks.len() - j,
            {
                let ghost prev = artworks@;
                artworks.push(Artwork { artist_id: i, path: entry.artworks[j].clone() });
                proof {
                    assert(artworks@.take(before.len() as int) =~= prev.take(before.len() as int));
                    assert(credited(artworks@) =~= credited(prev).push((i as int, entry.artworks@[j as int])));
                    assert(entry.artworks@.take(j + 1) =~= entry.artworks@.take(j as int).push(entry.artworks@[j as int]));
                    assert(entry.artworks@.take(j + 1).map_values(|p: String| (i as int, p))
                        =~= entry.artworks@.take(j as int).map_values(|p: String| (i as int, p)).push((i as int, entry.artworks@[j as int])));
                }
                j = j + 1;
            }
            artists.push(Artist { username: entry.username.clone(), twitter: clone_handle(&entry.twitter) });
            proof {
                let t = entries@.take(i + 1);
                assert(t.drop_last() =~= entries@.take(i as int));
                assert(t.last() == entries@[i as int]);
                assert(entry.artworks@.take(entry.artworks@.len() as int) =~= entry.artworks@);
                assert(artists@ =~= artists_of(t));
            }
            i = i + 1;
        }
        assert(entries@.take(entries@.len() as int) =~= entries@);
        Artworks { artworks, artists }
    }

    /// The picture at `index` with its artist, where both exist.
    pub fn pick(&self, index: usize) -> (r: Option<(&Artwork, &Artist)>)
        ensures
            r is Some <==> index < self@.works.len() && self@.works[index as int].artist_id
                < self@.artists.len(),
            r matches Some((w, a)) ==> *w == self@.works[index as int] && *a
                == self@.artists[self@.works[index as int].artist_id as int],
    {
        if index < self.artworks.len() {
            let artwork = &self.artworks[index];
            if artwork.artist_id < self.artists.len() {
                return Some((artwork, &self.artists[artwork.artist_id]));
            }
        }
        None
    }

    /// A picture drawn at random with its artist; `None` for an empty
    /// catalogue.
    pub fn get_random(&self) -> (r: Option<(&Artwork, &Artist)>)
        ensures
            self@.works.len() == 0 ==> r is None,
            self.wf() && self@.works.len() > 0 ==> r is Some,
            r matches Some((w, a)) ==> exists|i: int|
                0 <= i < self@.works.len() && *w == self@.works[i] && *a
                    == self@.artists[#[trigger] self@.works[i].artist_id as int],
    {
        if self.artworks.len() == 0 {
            return None;
        }
        let index = random_index(self.artworks.len());
        self.pick(index)
    }
}

} // verus!
