pub mod ai;
pub mod credentials;
pub mod language;
pub mod storage;
