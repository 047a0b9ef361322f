use gcode3d::auth::{AuthDetails, AuthPermissions, TokenReturnType};

#[test]
fn auth_details_keep_what_they_are_given() {
    let details = AuthDetails::new("alice".to_string(), "secret".to_string(), true);
    assert_eq!(details.username(), "alice");
    assert_eq!(details.password(), "secret");
    assert_eq!(*details.remember(), true);
}

#[test]
fn auth_details_validity() {
    let valid = |u: &str, p: &str| AuthDetails::new(u.to_string(), p.to_string(), false).is_valid();
    assert!(valid("alice", "secret"));
    assert!(!valid("", "secret"));
    assert!(!valid("alice", ""));
    assert!(valid(&"a".repeat(72), "x"));
    assert!(!valid(&"a".repeat(73), "x"));
    assert!(!valid(&"a".repeat(256), "x"));
    assert!(valid("a", &"p".repeat(500)));
    assert!(valid(&"é".repeat(36), "x"));
    assert!(!valid(&"é".repeat(37), "x"));
}

#[test]
fn administrator_may_do_everything() {
    let p = AuthPermissions::new("root".to_string(), 1);
    assert_eq!(p.username(), "root");
    assert!(*p.admin());
    assert!(*p.edit_connection());
    assert!(*p.file_access());
    assert!(*p.file_edit());
    assert!(*p.print_state_edit());
    assert!(*p.settings_edit());
    assert!(*p.users_edit());
    assert!(*p.terminal_read());
    assert!(*p.terminal_send());
    assert!(*p.webcam());
    assert!(*p.update());
}

#[test]
fn permission_bits_are_read_one_by_one() {
    let flags = |raw: u16| {
        let p = AuthPermissions::new("u".to_string(), raw);
        vec![
            *p.admin(),
            *p.edit_connection(),
            *p.file_access(),
            *p.file_edit(),
            *p.print_state_edit(),
            *p.settings_edit(),
            *p.users_edit(),
            *p.terminal_read(),
            *p.terminal_send(),
            *p.webcam(),
            *p.update(),
        ]
    };
    assert_eq!(flags(0), vec![false; 11]);
    for bit in 1..11 {
        let mut expected = vec![false; 11];
        expected[bit] = true;
        assert_eq!(flags(1 << bit), expected);
    }
    assert_eq!(flags(0b111_1111_1110), {
        let mut all = vec![true; 11];
        all[0] = false;
        all
    });
    assert_eq!(flags(1 << 11), vec![false; 11]);
    assert_eq!(flags(0b1000_0000_0001), vec![true; 11]);
}

#[test]
fn token_is_returned_as_given() {
    let token = TokenReturnType::new("abc123".to_string());
    assert_eq!(token.token(), "abc123");
}
