pub mod common;
mod private;
