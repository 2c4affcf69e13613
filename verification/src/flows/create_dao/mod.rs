pub mod model;
pub mod escrows;
pub mod app;
pub mod setup;
pub mod create;
pub mod storage;
