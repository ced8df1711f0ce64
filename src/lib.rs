//! A flashcard study session: a store of prompt/response pairs, a randomly
//! drawn deck of cards, a Question/Answer/Done presentation cycle with a
//! "study again" requeue, and a snapshot format to suspend and resume.

pub mod store;
pub mod loader;
pub mod sampler;
pub mod session;
pub mod snapshot;

pub use loader::parse_entries;
pub use sampler::{draw, draw_from_picks, draw_seeded, effective_size};
pub use session::{command_of_key, Command, Mode, OutOfRangeError, Outcome, Session};
pub use snapshot::{deserialize, restore, serialize, SnapshotError};
pub use store::EntryStore;
