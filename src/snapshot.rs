use crate::session::{state_ok, Mode, Session, SessionView};
use crate::store::{pairs_view, EntryStore};
use vstd::prelude::*;

verus! {

#[verifier::external_type_specification]
#[verifier::external_body]
pub struct ExJsonError(serde_json::Error);

/// The fields of a snapshot: the store's pairs, the deck, the cursor, the
/// count of cards to study and the mode's tag.
pub type SnapshotFields = (Seq<(Seq<char>, Seq<char>)>, Seq<usize>, nat, nat, u8);

/// The JSON text that serde_json writes for the given snapshot fields.
pub uninterp spec fn snapshot_text_of(fields: SnapshotFields) -> Seq<char>;

/// The snapshot fields that serde_json reads from a text, if it reads any.
pub uninterp spec fn snapshot_fields_of(text: Seq<char>) -> Option<SnapshotFields>;

/// Why a snapshot cannot be restored or written.
#[derive(Clone, Copy, Debug, PartialEq, Eq, Structural)]
pub enum SnapshotError {
    /// The text is not a snapshot document.
    Malformed,
    /// A card of the deck names no pair of the store.
    DeckIndexOutOfRange,
    /// The cursor lies beyond the deck's end.
    CursorOutOfRange,
    /// The mode's tag is unknown, or the cursor is past the last card while
    /// the mode is not `Done`.
    InvalidMode,
}

/// The tag that stands for a mode in a snapshot.
pub open spec fn tag_spec(m: Mode) -> u8 {
    match m {
        Mode::Question => 0,
        Mode::Answer => 1,
        Mode::Done => 2,
    }
}

/// The mode a tag stands for, if any.
pub open spec fn mode_of_tag_spec(t: u8) -> Option<Mode> {
    if t == 0 {
        Some(Mode::Question)
    } else if t == 1 {
        Some(Mode::Answer)
    } else if t == 2 {
        Some(Mode::Done)
    } else {
        None
    }
}

/// The fields that a snapshot of a session holds.
pub open spec fn parts_of(v: SessionView) -> SnapshotFields {
    (v.store, v.deck, v.target_idx, v.target_count, tag_spec(v.mode))
}

/// The session that snapshot fields describe, or the first check they fail:
/// the mode's tag, then the deck's cards, then the cursor, then that a
/// cursor past the last card comes with `Done`.
pub open spec fn restore_spec(f: SnapshotFields) -> Result<SessionView, SnapshotError> {
    let (store, deck, target_idx, target_count, tag) = f;
    if mode_of_tag_spec(tag) is None {
        Err(SnapshotError::InvalidMode)
    } else if exists|k: int| 0 <= k < deck.len() && #[trigger] deck[k] >= store.len() {
        Err(SnapshotError::DeckIndexOutOfRange)
    } else if target_idx > deck.len() {
        Err(SnapshotError::CursorOutOfRange)
    } else if target_idx == deck.len() && mode_of_tag_spec(tag) != Some(Mode::Done) {
        Err(SnapshotError::InvalidMode)
    } else {
        Ok(
            SessionView {
                store,
                deck,
                target_idx,
                target_count,
                mode: mode_of_tag_spec(tag)->Some_0,
            },
        )
    }
}

/// The session a snapshot text describes, or why it cannot be restored.
pub open spec fn decode_spec(text: Seq<char>) -> Result<SessionView, SnapshotError> {
    match snapshot_fields_of(text) {
        None => Err(SnapshotError::Malformed),
        Some(f) => restore_spec(f),
    }
}

/// Relies on `serde_json::to_string` on a tuple of the snapshot fields. It
/// fails only where a `Serialize` impl fails or a map has non-string keys;
/// strings, integers, vectors and tuples do neither.
#[verifier::external_body]
fn encode_fields(
    entries: &Vec<(String, String)>,
    deck: &Vec<usize>,
    target_idx: usize,
    target_count: usize,
    tag: u8,
) -> (r: Result<String, serde_json::Error>)
    ensures
        r is Ok,
        r is Ok ==> r->Ok_0@ == snapshot_text_of(
            (pairs_view(entries@), deck@, target_idx as nat, target_count as nat, tag),
        ),
{
    serde_json::to_string(&(entries, deck, target_idx, target_count, tag))
}

/// Relies on `serde_json::from_str` into a tuple of the snapshot fields: it
/// succeeds exactly when the text holds such a tuple.
#[verifier::external_body]
fn decode_fields(text: &str) -> (r: Result<
    (Vec<(String, String)>, Vec<usize>, usize, usize, u8),
    serde_json::Error,
>)
    ensures
        r is Ok <==> snapshot_fields_of(text@) is Some,
        r is Ok ==> snapshot_fields_of(text@) == Some(
            (
                pairs_view(r->Ok_0.0@),
                r->Ok_0.1@,
                r->Ok_0.2 as nat,
                r->Ok_0.3 as nat,
                r->Ok_0.4,
            ),
        ),
{
    serde_json::from_str(text)
}

/// The tag that stands for a mode in a snapshot.
pub fn mode_tag(m: Mode) -> (r: u8)
    ensures
        r == tag_spec(m),
{
    match m {
        Mode::Question => 0,
        Mode::Answer => 1,
        Mode::Done => 2,
    }
}

/// The mode a tag stands for, if any.
pub fn mode_of_tag(t: u8) -> (r: Option<Mode>)
    ensures
        r == mode_of_tag_spec(t),
{
    if t == 0 {
        Some(Mode::Question)
    } else if t == 1 {
        Some(Mode::Answer)
    } else if t == 2 {
        Some(Mode::Done)
    } else {
        None
    }
}

/// Rebuilds a session from snapshot fields, checking that they describe a
/// consistent state; nothing is clamped or truncated.
pub fn restore(
    entries: Vec<(String, String)>,
    deck: Vec<usize>,
    target_idx: usize,
    target_count: usize,
    tag: u8,
) -> (r: Result<Session, SnapshotError>)
    ensures
        match r {
            Ok(s) => s.wf() && restore_spec(
                (pairs_view(entries@), deck@, target_idx as nat, target_count as nat, tag),
            ) == Ok::<SessionView, SnapshotError>(s@),
            Err(e) => restore_spec(
                (pairs_view(entries@), deck@, target_idx as nat, target_count as nat, tag),
            ) == Err::<SessionView, SnapshotError>(e),
        },
{
    let ghost f = (pairs_view(entries@), deck@, target_idx as nat, target_count as nat, tag);
    let mode = match mode_of_tag(tag) {
        Some(m) => m,
        None => {
            return Err(SnapshotError::InvalidMode);
        },
    };
    let store = EntryStore::from_pairs(entries);
    let n = store.size();
    let mut k: usize = 0;
    while k < deck.len()
        invariant
            n == store@.len(),
            store@ == f.0,
            deck@ == f.1,
            f == (pairs_view(entries@), deck@, target_idx as nat, target_count as nat, tag),
            mode_of_tag_spec(tag) == Some(mode),
            k <= deck@.len(),
            forall|j: int| 0 <= j < k ==> (#[trigger] deck@[j]) < n,
        decreases deck@.len() - k,
    {
        if deck[k] >= n {
            assert(deck@[k as int] >= f.0.len());
            assert(exists|j: int| 0 <= j < f.1.len() && #[trigger] f.1[j] >= f.0.len());
            return Err(SnapshotError::DeckIndexOutOfRange);
        }
        k = k + 1;
    }
    if target_idx > deck.len() {
        return Err(SnapshotError::CursorOutOfRange);
    }
    if target_idx == deck.len() && mode != Mode::Done {
        return Err(SnapshotError::InvalidMode);
    }
    Ok(Session::from_checked_parts(store, deck, target_idx, target_count, mode))
}

/// Reads a session back from snapshot text.
pub fn deserialize(text: &str) -> (r: Result<Session, SnapshotError>)
    ensures
        match r {
            Ok(s) => s.wf() && decode_spec(text@) == Ok::<SessionView, SnapshotError>(s@),
            Err(e) => decode_spec(text@) == Err::<SessionView, SnapshotError>(e),
        },
{
    match decode_fields(text) {
        Ok(f) => restore(f.0, f.1, f.2, f.3, f.4),
        Err(_) => Err(SnapshotError::Malformed),
    }
}

/// Writes a session, store included, as snapshot text.
pub fn serialize(s: &Session) -> (r: String)
    ensures
        r@ == snapshot_text_of(parts_of(s@)),
{
    let tag = mode_tag(s.mode());
    match encode_fields(s.store().pairs(), s.deck(), s.target_index(), s.target_count(), tag) {
        Ok(t) => t,
        Err(_) => {
            proof {
                assert(false);
            }
            String::new()
        },
    }
}

/// A consistent session survives the trip through its snapshot fields: the
/// fields of its snapshot restore to the same session, and so does any text
/// that reads back as those fields.
pub proof fn lemma_snapshot_round_trip(v: SessionView, text: Seq<char>)
    requires
        state_ok(v.store.len(), v.deck, v.target_idx, v.mode),
    ensures
        restore_spec(parts_of(v)) == Ok::<SessionView, SnapshotError>(v),
        snapshot_fields_of(text) == Some(parts_of(v)) ==> decode_spec(text) == Ok::<
            SessionView,
            SnapshotError,
        >(v),
{
}

} // verus!
