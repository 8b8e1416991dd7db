//! Verified core of a desktop wallpaper picker backend.
//!
//! The backend exposes two operations: listing the image files directly
//! inside a well-known wallpapers directory, and applying one of them as the
//! desktop background by invoking an external wallpaper daemon twice (an
//! idempotent `init`, then `img` with fixed transition flags).
//!
//! Everything that decides is here and verified: which directory entries
//! count as wallpaper images, what each probe of the filesystem must yield,
//! and how the exit of each daemon invocation maps to the operation's result.
//! The filesystem reads and process spawns themselves live in the unverified
//! shell around this library, which hands in plain values and takes plain
//! values back.

pub mod errors;
pub mod laws;
pub mod lister;
pub mod setter;

pub use errors::{ErrorKind, MissingDir, SetStep};
pub use lister::{DirEntryInfo, DirProbe};
pub use setter::SpawnOutcome;
