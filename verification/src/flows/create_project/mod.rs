pub mod model;
pub mod escrows;
pub mod app;
pub mod create;
pub mod note;
pub mod storage;
