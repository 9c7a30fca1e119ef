pub mod application;
pub mod domain;
pub mod infrastructure;
pub mod segmentation;
pub mod text;
pub mod json;
pub mod entries;
pub mod ipc;
