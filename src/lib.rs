pub mod chain;
pub mod error;
pub mod frame;
pub mod teardown;
pub mod device;
pub mod diagnostics;
