use vstd::prelude::*;

verus! {

/// Immutable description of one queued item: the title and artist to
/// display, and an opaque locator the transport later resolves to a byte
/// stream. A record has no identity beyond its position in a queue.
#[derive(Debug)]
pub struct TrackRecord {
    pub title: String,
    pub artist: Option<String>,
    pub album: Option<String>,
    pub stream_locator: String,
}

impl TrackRecord {
    pub fn new(
        title: String,
        artist: Option<String>,
        album: Option<String>,
        stream_locator: String,
    ) -> (r: TrackRecord)
        ensures
            r.title == title,
            r.artist == artist,
            r.album == album,
            r.stream_locator == stream_locator,
    {
        TrackRecord { title, artist, album, stream_locator }
    }
}

impl Clone for TrackRecord {
    /// A clone is the very same record, field for field.
    fn clone(&self) -> (r: TrackRecord)
        ensures
            r == *self,
    {
        TrackRecord {
            title: self.title.clone(),
            artist: match &self.artist {
                Some(a) => Some(a.clone()),
                None => None,
            },
            album: match &self.album {
                Some(a) => Some(a.clone()),
                None => None,
            },
            stream_locator: self.stream_locator.clone(),
        }
    }
}

} // verus!
