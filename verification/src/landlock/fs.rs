mod access;
mod perm;
mod rule;

pub use access::{
    access_letter_bits, access_text, lemma_access_text_roundtrip, parse_access, unknown_access_message, Access,
};
pub use perm::{lemma_perm_text_roundtrip, perm_bits, perm_text, Perm};
pub use rule::Rule;
