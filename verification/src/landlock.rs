//! Configure landlock profile.

mod fs;
mod net;
mod ruleset;

pub use fs::Access as FsAccess;
pub use fs::Perm;
pub use fs::{
    access_letter_bits, access_text, lemma_access_text_roundtrip, lemma_perm_text_roundtrip, parse_access, perm_bits,
    perm_text, unknown_access_message,
};
pub use fs::Rule as FsRule;
pub use net::Access as NetAccess;
pub use net::Rule as NetRule;
pub use ruleset::{CompatMode, Resource, Ruleset, RulesetView};
