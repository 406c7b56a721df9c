//! Entries of `/etc/group` and `/etc/passwd`.

mod fields;
mod group;
mod lines;
mod passwd;

pub use fields::{
    all_digits, digits_value, field_error_text, is_digit, parse_u32, parse_u32_text, split_fields, split_text, unsigned_digits,
    EtcfsError, FieldError,
};
pub use group::{group_entries, group_line_message, group_line_ok, GroupEntry};
pub use lines::{byte_prefix, bytes_len, has_byte_prefix, lines_of, text_lines, utf8_len, without_cr};
pub use passwd::{passwd_entries, passwd_line_message, passwd_line_ok, PasswdEntry};
