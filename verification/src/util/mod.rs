pub mod ffi;
