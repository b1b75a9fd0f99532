//! Resolution of catalog listings to ordered track lists.
//!
//! The catalog collaborator reports raw records whose identifiers may be
//! absent. Resolution validates them into `TrackRecord`s, which always carry
//! a non-empty identifier: an absent identifier is a fatal data error, never
//! a recoverable one. Playlist listings additionally distinguish entries
//! without a playable payload (skipped) from playable items of an
//! unsupported kind (which fail the whole resolution).

use vstd::prelude::*;
use crate::errors::RunError;

verus! {

/// A resolved track: a non-empty identifier, a display name, and an
/// optional duration. Read-only downstream of the resolver.
#[derive(Debug)]
pub struct TrackRecord {
    pub id: String,
    pub name: String,
    pub duration_ms: Option<u64>,
}

/// A well-formed track record carries a non-empty identifier.
pub open spec fn track_wf(t: TrackRecord) -> bool {
    t.id@.len() > 0
}

/// A track as the catalog collaborator reports it: the identifier may be
/// missing.
#[derive(Debug)]
pub struct RawTrack {
    pub id: Option<String>,
    pub name: String,
    pub duration_ms: Option<u64>,
}

/// The raw track carries a usable (non-empty) identifier.
pub open spec fn raw_ok(t: RawTrack) -> bool {
    t.id matches Some(id) && id@.len() > 0
}

/// The record a well-formed raw track validates to.
pub open spec fn record_of(t: RawTrack) -> TrackRecord
    recommends
        raw_ok(t),
{
    TrackRecord { id: t.id->0, name: t.name, duration_ms: t.duration_ms }
}

/// One entry of a playlist listing: no playable payload at all (a local-only
/// or removed entry), a playable item of a kind playback cannot handle (for
/// example a podcast episode), or a track.
#[derive(Debug)]
pub enum PlaylistEntry {
    Absent,
    OtherPlayable,
    Track(RawTrack),
}

/// A stub of an album listing: the identifier may be missing.
#[derive(Debug)]
pub struct AlbumStub {
    pub id: Option<String>,
    pub name: String,
}

/// The stub carries a usable identifier.
pub open spec fn stub_ok(s: AlbumStub) -> bool {
    s.id matches Some(id) && id@.len() > 0
}

/// An entry the playlist resolution cannot accept: a playable item of an
/// unsupported kind, or a track without a usable identifier.
pub open spec fn entry_offends(e: PlaylistEntry) -> bool {
    match e {
        PlaylistEntry::Absent => false,
        PlaylistEntry::OtherPlayable => true,
        PlaylistEntry::Track(t) => !raw_ok(t),
    }
}

/// Position `i` holds the first offending entry of the listing.
pub open spec fn first_offense_at(entries: Seq<PlaylistEntry>, i: int) -> bool {
    &&& 0 <= i < entries.len()
    &&& entry_offends(entries[i])
    &&& forall|j: int| 0 <= j < i ==> !entry_offends(entries[j])
}

/// The track record a single playlist entry contributes, if any.
pub open spec fn kept_of_one(e: PlaylistEntry) -> Seq<TrackRecord> {
    match e {
        PlaylistEntry::Track(t) => seq![record_of(t)],
        _ => Seq::<TrackRecord>::empty(),
    }
}

/// The track records a playlist listing resolves to: its tracks in listing
/// order, entries without a playable payload skipped.
pub open spec fn kept_tracks(entries: Seq<PlaylistEntry>) -> Seq<TrackRecord>
    decreases entries.len(),
{
    if entries.len() == 0 {
        Seq::<TrackRecord>::empty()
    } else {
        match entries[0] {
            PlaylistEntry::Track(t) => seq![record_of(t)] + kept_tracks(entries.drop_first()),
            _ => kept_tracks(entries.drop_first()),
        }
    }
}

/// Appending one entry to a listing extends the kept tracks by exactly what
/// that entry contributes.
proof fn lemma_kept_tracks_snoc(entries: Seq<PlaylistEntry>, e: PlaylistEntry)
    ensures
        kept_tracks(entries.push(e)) == kept_tracks(entries) + kept_of_one(e),
    decreases entries.len(),
{
    if entries.len() == 0 {
        assert(entries.push(e)[0] == e);
        assert(entries.push(e).drop_first() =~= Seq::<PlaylistEntry>::empty());
        assert(kept_tracks(entries.push(e).drop_first()) == Seq::<TrackRecord>::empty());
        assert(kept_tracks(entries) == Seq::<TrackRecord>::empty());
        match e {
            PlaylistEntry::Track(t) => {
                assert(kept_tracks(entries.push(e)) == seq![record_of(t)] + kept_tracks(
                    entries.push(e).drop_first(),
                ));
                assert(kept_tracks(entries.push(e)) =~= kept_tracks(entries) + kept_of_one(e));
            },
            _ => {
                assert(kept_tracks(entries.push(e)) == kept_tracks(entries.push(e).drop_first()));
                assert(kept_tracks(entries.push(e)) =~= kept_tracks(entries) + kept_of_one(e));
            },
        }
    } else {
        assert(entries.push(e)[0] == entries[0]);
        assert(entries.push(e).drop_first() =~= entries.drop_first().push(e));
        lemma_kept_tracks_snoc(entries.drop_first(), e);
        match entries[0] {
            PlaylistEntry::Track(t) => {
                assert(kept_tracks(entries.push(e)) == seq![record_of(t)] + (kept_tracks(
                    entries.drop_first(),
                ) + kept_of_one(e)));
                assert(kept_tracks(entries) == seq![record_of(t)] + kept_tracks(
                    entries.drop_first(),
                ));
                assert(kept_tracks(entries.push(e)) =~= kept_tracks(entries) + kept_of_one(e));
            },
            _ => {
                assert(kept_tracks(entries.push(e)) == kept_tracks(entries.drop_first()) + kept_of_one(e));
                assert(kept_tracks(entries) == kept_tracks(entries.drop_first()));
                assert(kept_tracks(entries.push(e)) =~= kept_tracks(entries) + kept_of_one(e));
            },
        }
    }
}

/// Validate one raw track into a track record.
pub fn validate_track(raw: &RawTrack) -> (r: Result<TrackRecord, RunError>)
    ensures
        r is Ok <==> raw_ok(*raw),
        (r matches Ok(t) ==> t == record_of(*raw) && track_wf(t)),
        (r matches Err(e) ==> e is DataIntegrity),
{
    match &raw.id {
        Some(id) => {
            if id.as_str().is_empty() {
                Err(RunError::DataIntegrity { message: "track record carries an empty identifier".to_owned() })
            } else {
                Ok(TrackRecord { id: id.clone(), name: raw.name.clone(), duration_ms: raw.duration_ms })
            }
        },
        None => Err(RunError::DataIntegrity { message: "track record carries no identifier".to_owned() }),
    }
}

/// Validate a batch of raw tracks, in order; the first track without a
/// usable identifier fails the whole batch.
#[verifier::loop_isolation(false)]
pub fn validate_tracks(raws: Vec<RawTrack>) -> (r: Result<Vec<TrackRecord>, RunError>)
    ensures
        r is Ok <==> (forall|i: int| 0 <= i < raws@.len() ==> raw_ok(raws@[i])),
        (r matches Ok(v) ==> v@.len() == raws@.len() && (forall|i: int|
            0 <= i < v@.len() ==> v@[i] == record_of(raws@[i]))),
        (r matches Ok(v) ==> forall|i: int| 0 <= i < v@.len() ==> track_wf(#[trigger] v@[i])),
        (r matches Err(e) ==> e is DataIntegrity),
{
    let mut out: Vec<TrackRecord> = Vec::new();
    let mut i: usize = 0;
    while i < raws.len()
        invariant
            i <= raws@.len(),
            out@.len() == i,
            forall|j: int| 0 <= j < i ==> raw_ok(raws@[j]),
            forall|j: int| 0 <= j < i ==> out@[j] == record_of(raws@[j]),
            forall|j: int| 0 <= j < i ==> track_wf(#[trigger] out@[j]),
        decreases raws@.len() - i,
    {
        match validate_track(&raws[i]) {
            Ok(t) => out.push(t),
            Err(e) => {
                return Err(e);
            },
        }
        i += 1;
    }
    Ok(out)
}

/// Collect the track identifiers of an album listing, in order.
///
/// Albums are assumed internally consistent: a stub without a usable
/// identifier is a fatal data error, never skipped.
#[verifier::loop_isolation(false)]
pub fn collect_album_ids(stubs: Vec<AlbumStub>) -> (r: Result<Vec<String>, RunError>)
    ensures
        r is Ok <==> (forall|i: int| 0 <= i < stubs@.len() ==> stub_ok(stubs@[i])),
        (r matches Ok(v) ==> v@.len() == stubs@.len() && (forall|i: int|
            0 <= i < v@.len() ==> v@[i] == stubs@[i].id->0)),
        (r matches Err(e) ==> e is DataIntegrity),
{
    let mut out: Vec<String> = Vec::new();
    let mut i: usize = 0;
    while i < stubs.len()
        invariant
            i <= stubs@.len(),
            out@.len() == i,
            forall|j: int| 0 <= j < i ==> stub_ok(stubs@[j]),
            forall|j: int| 0 <= j < i ==> out@[j] == stubs@[j].id->0,
        decreases stubs@.len() - i,
    {
        match &stubs[i].id {
            Some(id) => {
                if id.as_str().is_empty() {
                    return Err(RunError::DataIntegrity {
                        message: "album listing holds a stub with an empty identifier".to_owned(),
                    });
                }
                out.push(id.clone());
            },
            None => {
                return Err(RunError::DataIntegrity {
                    message: "album listing holds a stub without an identifier".to_owned(),
                });
            },
        }
        i += 1;
    }
    Ok(out)
}

/// Resolve a playlist listing to its track records.
///
/// Entries without a playable payload are skipped and resolution continues;
/// an entry holding a playable item of an unsupported kind fails the whole
/// resolution with `UnsupportedItemKind`; a track entry without a usable
/// identifier fails with `DataIntegrity`. Each entry's skip check comes
/// before its kind check, and the first offending entry in listing order
/// decides the error. The records come in listing order.
#[verifier::loop_isolation(false)]
pub fn resolve_playlist_entries(entries: Vec<PlaylistEntry>) -> (r: Result<
    Vec<TrackRecord>,
    RunError,
>)
    ensures
        r is Ok <==> (forall|i: int| 0 <= i < entries@.len() ==> !entry_offends(entries@[i])),
        (r matches Ok(v) ==> v@ == kept_tracks(entries@)),
        (r matches Ok(v) ==> forall|i: int| 0 <= i < v@.len() ==> track_wf(#[trigger] v@[i])),
        (r matches Err(e) ==> exists|i: int|
            #[trigger] first_offense_at(entries@, i)
            && (entries@[i] is OtherPlayable ==> e is UnsupportedItemKind)
            && (entries@[i] is Track ==> e is DataIntegrity)),
{
    let mut out: Vec<TrackRecord> = Vec::new();
    let mut i: usize = 0;
    while i < entries.len()
        invariant
            i <= entries@.len(),
            forall|j: int| 0 <= j < i ==> !entry_offends(entries@[j]),
            out@ == kept_tracks(entries@.subrange(0, i as int)),
            forall|j: int| 0 <= j < out@.len() ==> track_wf(#[trigger] out@[j]),
        decreases entries@.len() - i,
    {
        proof {
            assert(entries@.subrange(0, i + 1) =~= entries@.subrange(0, i as int).push(
                entries@[i as int],
            ));
            lemma_kept_tracks_snoc(entries@.subrange(0, i as int), entries@[i as int]);
        }
        match &entries[i] {
            PlaylistEntry::Absent => {},
            PlaylistEntry::OtherPlayable => {
                proof {
                    assert(first_offense_at(entries@, i as int));
                }
                return Err(RunError::UnsupportedItemKind {
                    message: "playlist holds a playable item that is not a track".to_owned(),
                });
            },
            PlaylistEntry::Track(t) => {
                match validate_track(t) {
                    Ok(rec) => out.push(rec),
                    Err(e) => {
                        proof {
                            assert(first_offense_at(entries@, i as int));
                        }
                        return Err(e);
                    },
                }
            },
        }
        i += 1;
    }
    proof {
        assert(entries@.subrange(0, entries@.len() as int) =~= entries@);
    }
    Ok(out)
}

} // verus!
