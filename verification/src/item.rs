//! The playback data the synchronizer reads: the currently playing item, the
//! momentary snapshot of the player, the change-detection fingerprint and
//! the metadata block pushed to the native session.

use vstd::prelude::*;
use vstd::string::*;

use crate::span::TimeSpan;

verus! {

/// The item the player is currently playing, as plain values: a track with
/// its album and ordered artist names, or an episode with its show and
/// publisher. Durations and cover-art URLs are optional.
#[derive(Clone, Debug, PartialEq)]
pub enum PlayableItem {
    Track {
        name: String,
        album: String,
        artists: Vec<String>,
        duration: Option<TimeSpan>,
        cover_url: Option<String>,
    },
    Episode {
        name: String,
        show: String,
        publisher: String,
        duration: Option<TimeSpan>,
        cover_url: Option<String>,
    },
}

/// A momentary, read-only view of the player, copied out once per cycle:
/// the optional current item, the playing flag, and the optional progress.
#[derive(Clone, Debug, PartialEq)]
pub struct PlaybackSnapshot {
    pub item: Option<PlayableItem>,
    pub is_playing: bool,
    pub progress: Option<TimeSpan>,
}

/// The metadata block the native session receives when the current item
/// changes.
#[derive(Clone, Debug, PartialEq)]
pub struct MetadataUpdate {
    pub title: String,
    pub album: String,
    pub artist: String,
    pub duration: Option<TimeSpan>,
    pub cover_url: Option<String>,
}

/// What a metadata block must hold for an item: the item's name as title,
/// its container's name as album, its contributor line, its length and its
/// cover-art URL.
pub open spec fn metadata_for(m: MetadataUpdate, item: PlayableItem) -> bool {
    &&& m.title@ == item.title()
    &&& m.album@ == item.container()
    &&& m.artist@ == item.contributor()
    &&& m.duration == item.length()
    &&& opt_text(m.cover_url) == item.cover()
}

/// The view of an optional owned string.
pub open spec fn opt_text(o: Option<String>) -> Option<Seq<char>> {
    match o {
        Some(s) => Some(s@),
        None => None,
    }
}

/// The names of `parts` joined with the separator `sep` between
/// neighbours; empty when there are no parts.
pub open spec fn joined(parts: Seq<Seq<char>>, sep: Seq<char>) -> Seq<char>
    decreases parts.len(),
{
    if parts.len() == 0 {
        Seq::empty()
    } else if parts.len() == 1 {
        parts[0]
    } else {
        parts[0] + sep + joined(parts.drop_first(), sep)
    }
}

/// Appending one more part extends the joined text by a separator and that
/// part, except at the front.
proof fn lemma_joined_push(parts: Seq<Seq<char>>, sep: Seq<char>, part: Seq<char>)
    ensures
        joined(parts.push(part), sep) == if parts.len() == 0 {
            part
        } else {
            joined(parts, sep) + sep + part
        },
    decreases parts.len(),
{
    if parts.len() == 0 {
        assert(parts.push(part).len() == 1);
        assert(parts.push(part)[0] == part);
    } else if parts.len() == 1 {
        let whole = parts.push(part);
        assert(whole.drop_first() =~= seq![part]);
        assert(joined(whole.drop_first(), sep) == part);
        assert(joined(whole, sep) == whole[0] + sep + joined(whole.drop_first(), sep));
        assert(whole[0] == parts[0]);
    } else {
        lemma_joined_push(parts.drop_first(), sep, part);
        assert(parts.push(part).drop_first() =~= parts.drop_first().push(part));
        assert(joined(parts, sep) + sep + part =~= parts[0] + sep + (joined(
            parts.drop_first(),
            sep,
        ) + sep + part));
    }
}

/// Join the given names with the separator `sep` between neighbours.
pub fn join_names(parts: &Vec<String>, sep: &str) -> (r: String)
    ensures
        r@ == joined(parts.deep_view(), sep@),
{
    let mut out = String::new();
    let mut i: usize = 0;
    while i < parts.len()
        invariant
            i <= parts.len(),
            out@ == joined(parts.deep_view().take(i as int), sep@),
        decreases parts.len() - i,
    {
        if i > 0 {
            out.append(sep);
        }
        out.append(parts[i].as_str());
        proof {
            let taken = parts.deep_view().take(i as int);
            lemma_joined_push(taken, sep@, parts.deep_view()[i as int]);
            assert(parts.deep_view().take(i + 1 as int) =~= taken.push(
                parts.deep_view()[i as int],
            ));
        }
        i += 1;
    }
    proof {
        assert(parts.deep_view().take(parts.len() as int) =~= parts.deep_view());
    }
    out
}

impl PlayableItem {
    /// The item's own name: track name or episode name.
    pub open spec fn title(self) -> Seq<char> {
        match self {
            PlayableItem::Track { name, .. } => name@,
            PlayableItem::Episode { name, .. } => name@,
        }
    }

    /// The name of the container the item belongs to: album name for a
    /// track, show name for an episode.
    pub open spec fn container(self) -> Seq<char> {
        match self {
            PlayableItem::Track { album, .. } => album@,
            PlayableItem::Episode { show, .. } => show@,
        }
    }

    /// The change-detection fingerprint: the item's name and its
    /// container's name, separated by a slash. Never shown to the user;
    /// compared between cycles to decide whether metadata must be pushed.
    pub open spec fn fingerprint(self) -> Seq<char> {
        self.title() + seq!['/'] + self.container()
    }

    /// The contributor line the session displays: the artist names joined
    /// with a comma for a track, the publisher for an episode.
    pub open spec fn contributor(self) -> Seq<char> {
        match self {
            PlayableItem::Track { artists, .. } => joined(artists.deep_view(), ", "@),
            PlayableItem::Episode { publisher, .. } => publisher@,
        }
    }

    /// The item's optional length.
    pub open spec fn length(self) -> Option<TimeSpan> {
        match self {
            PlayableItem::Track { duration, .. } => duration,
            PlayableItem::Episode { duration, .. } => duration,
        }
    }

    /// The item's optional cover-art URL.
    pub open spec fn cover(self) -> Option<Seq<char>> {
        match self {
            PlayableItem::Track { cover_url, .. } => opt_text(cover_url),
            PlayableItem::Episode { cover_url, .. } => opt_text(cover_url),
        }
    }

    /// Compute the item's fingerprint.
    pub fn compute_fingerprint(&self) -> (r: String)
        ensures
            r@ == self.fingerprint(),
    {
        let (name, container) = match self {
            PlayableItem::Track { name, album, .. } => (name, album),
            PlayableItem::Episode { name, show, .. } => (name, show),
        };
        let mut out = String::from_str(name.as_str());
        out.append("/");
        out.append(container.as_str());
        proof {
            reveal_strlit("/");
            assert(out@ =~= self.title() + seq!['/'] + self.container());
        }
        out
    }

    /// Build the metadata block the native session receives for this item.
    pub fn metadata(&self) -> (m: MetadataUpdate)
        ensures
            metadata_for(m, *self),
    {
        match self {
            PlayableItem::Track { name, album, artists, duration, cover_url } => MetadataUpdate {
                title: name.clone(),
                album: album.clone(),
                artist: join_names(artists, ", "),
                duration: *duration,
                cover_url: cover_url.clone(),
            },
            PlayableItem::Episode { name, show, publisher, duration, cover_url } => MetadataUpdate {
                title: name.clone(),
                album: show.clone(),
                artist: publisher.clone(),
                duration: *duration,
                cover_url: cover_url.clone(),
            },
        }
    }
}

} // verus!
