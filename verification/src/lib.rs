//! Client-side updater core: decides, from cached and freshly observed
//! metadata, whether a new artifact download is required, and drives the
//! crash-safe commit of the artifact, its detached signature, and the
//! metadata record.

pub mod laws;
pub mod metadata;
pub mod record;
pub mod registration;
pub mod updater;

pub use metadata::CoreInfo;
pub use registration::is_registered;
pub use updater::Action;
pub use updater::Core;
pub use updater::Event;
pub use updater::Outcome;
pub use updater::Updater;
