pub mod auth;
pub mod error;
pub mod escrow;
pub mod event;
pub mod identity;
pub mod laws;
pub mod model;
pub mod package;
pub mod settlement;
pub mod store;

pub use error::Error;
pub use escrow::AidEscrow;
pub use event::{
    Event, Field, EVENT_CONTRACT_INITIALIZED, EVENT_PACKAGE_CANCELLED, EVENT_PACKAGE_CLAIMED,
    EVENT_PACKAGE_CREATED, EVENT_PACKAGE_EXPIRED,
};
pub use identity::Identity;
pub use package::{MetadataEntry, Package, PackageStatus};
pub use settlement::Transfer;
pub use store::PackageStore;
