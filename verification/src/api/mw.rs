pub mod ctx;
