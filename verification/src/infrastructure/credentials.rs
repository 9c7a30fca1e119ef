pub mod system_store;
