pub mod decode;
pub mod listing;
pub mod model;
pub mod reconcile;
