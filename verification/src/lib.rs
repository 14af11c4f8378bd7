pub mod arbitrator;
pub mod clock;
pub mod forward;
pub mod ingest;
pub mod payload;
pub mod reading;
pub mod store;

pub use arbitrator::ArbitrationState;
pub use reading::Reading;
pub use store::SensorStore;
