pub mod time;
pub mod tmpdir;
