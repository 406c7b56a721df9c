use hakoniwa::etcfs::{
    byte_prefix, group_entries, lines_of, parse_u32, passwd_entries, split_fields, EtcfsError, FieldError, GroupEntry,
    PasswdEntry,
};

#[test]
fn split_keeps_empty_pieces() {
    assert_eq!(split_fields("a::b", ':'), vec!["a", "", "b"]);
    assert_eq!(split_fields("", ':'), vec![""]);
    assert_eq!(split_fields(":", ':'), vec!["", ""]);
    assert_eq!(split_fields("root", ':'), vec!["root"]);
}

#[test]
fn parse_u32_like_std() {
    assert_eq!(parse_u32("0"), Some(0));
    assert_eq!(parse_u32("1000"), Some(1000));
    assert_eq!(parse_u32("+7"), Some(7));
    assert_eq!(parse_u32("007"), Some(7));
    assert_eq!(parse_u32("4294967295"), Some(u32::MAX));
    assert_eq!(parse_u32("4294967296"), None);
    assert_eq!(parse_u32("99999999999999999999999"), None);
    assert_eq!(parse_u32(""), None);
    assert_eq!(parse_u32("+"), None);
    assert_eq!(parse_u32("-1"), None);
    assert_eq!(parse_u32("12a"), None);
    for s in ["0", "1000", "+7", "007", "4294967295", "4294967296", "", "+", "-1", "12a", " 1"] {
        assert_eq!(parse_u32(s), s.parse::<u32>().ok(), "{s}");
    }
}

#[test]
fn decimal_roundtrip() {
    for n in [0u32, 9, 10, 65534, 4294967295] {
        assert_eq!(parse_u32(&n.to_string()), Some(n));
    }
}

#[test]
fn group_line() {
    let e = GroupEntry::from_line("wheel:x:10:root,alice").unwrap();
    assert_eq!(e.name, "wheel");
    assert_eq!(e.gid, 10);
    assert_eq!(e.members, vec!["root", "alice"]);
    let e = GroupEntry::from_line("users:x:100:").unwrap();
    assert_eq!(e.members, vec![""]);
}

#[test]
fn group_line_errors() {
    assert_eq!(GroupEntry::from_line("wheel:x").unwrap_err(), FieldError::Missing);
    assert_eq!(GroupEntry::from_line("wheel:x:10").unwrap_err(), FieldError::Missing);
    assert_eq!(
        GroupEntry::from_line("wheel:x:ten:root").unwrap_err(),
        FieldError::InvalidNumber("ten".to_string())
    );
}

#[test]
fn passwd_line() {
    let e = PasswdEntry::from_line("alice:x:1000:100:Alice:/home/alice:/bin/sh").unwrap();
    assert_eq!(e.name, "alice");
    assert_eq!(e.uid, 1000);
    assert_eq!(e.gid, 100);
}

#[test]
fn passwd_line_errors() {
    assert_eq!(PasswdEntry::from_line("alice:x:1000:100:Alice:/home/alice").unwrap_err(), FieldError::Missing);
    assert_eq!(
        PasswdEntry::from_line("alice:x:-1:100:A:/h:/s").unwrap_err(),
        FieldError::InvalidNumber("-1".to_string())
    );
    assert_eq!(
        PasswdEntry::from_line("alice:x:1:g:A:/h:/s").unwrap_err(),
        FieldError::InvalidNumber("g".to_string())
    );
    assert_eq!(PasswdEntry::from_line("alice").unwrap_err(), FieldError::Missing);
}

#[test]
fn lines_like_str_lines() {
    for text in ["", "a", "a\n", "a\r\nb", "a\n\nb\n", "a\r", "\r\n", "x\ry\n"] {
        let expected: Vec<String> = text.lines().map(|l| l.to_string()).collect();
        assert_eq!(lines_of(text), expected, "{text:?}");
    }
}

#[test]
fn byte_prefix_of_eight() {
    assert_eq!(byte_prefix("wheel:x:ten:", 8), "wheel:x:");
    assert_eq!(byte_prefix("ééééé", 8), "éééé");
}

#[test]
fn group_file_entries() {
    let v = group_entries("root:x:0:\nwheel:x:10:root,alice\n").unwrap();
    assert_eq!(v.len(), 2);
    assert_eq!(v[1].name, "wheel");
    assert_eq!(v[1].members, vec!["root", "alice"]);
    assert!(group_entries("").unwrap().is_empty());
    assert_eq!(
        group_entries("root:x:0:\nwheel:x:ten:root\nbad\n").unwrap_err(),
        EtcfsError::InvalidLine { line: "wheel:x:".to_string(), errmsg: "invalid number: ten".to_string() }
    );
    assert_eq!(
        group_entries("wheel:x:10\n").unwrap_err(),
        EtcfsError::InvalidLine { line: "wheel:x:".to_string(), errmsg: "missing field".to_string() }
    );
}

#[test]
fn passwd_file_entries() {
    let v = passwd_entries("root:x:0:0:root:/root:/bin/sh\r\nalice:x:1000:100:A:/home/alice:/bin/sh").unwrap();
    assert_eq!(v.len(), 2);
    assert_eq!((v[1].uid, v[1].gid), (1000, 100));
    assert_eq!(
        passwd_entries("alice:x:1000:g:A:/h:/s\n").unwrap_err(),
        EtcfsError::InvalidLine { line: "alice:x:".to_string(), errmsg: "invalid number: g".to_string() }
    );
}

#[test]
fn field_error_messages() {
    assert_eq!(FieldError::Missing.to_string(), "missing field");
    assert_eq!(FieldError::InvalidNumber("x".to_string()).to_string(), "invalid number: x");
}
