use vstd::prelude::*;

verus! {

/// Slot key under which the embedding program keeps its live catalog
/// client beside the chat gateway's shared state. The coordinator never
/// reads that slot: it only sees resolved track records.
pub struct MusicClient;

/// Newer name for the same catalog-client slot key.
pub struct SubsonicClientHandle;

/// Slot key for one catalog song record kept beside a transport-side
/// track. Inside this library the association is explicit instead: the
/// playback queue entry itself carries the track record.
pub struct SongHandle;

/// Slot key for a catalog song record in the gateway's shared state.
pub struct SubsonicSongHandle;

} // verus!
