mod access;
mod rule;

pub use access::Access;
pub use rule::Rule;
