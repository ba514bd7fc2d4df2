pub mod tooling_manager;
