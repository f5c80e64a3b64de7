use taidan::account::is_valid_username;

#[test]
fn accepted_usernames() {
    for name in ["a", "alice", "a-b_c9", "bob$", "z0", "x-", "m_$"] {
        assert!(is_valid_username(name), "{name}");
    }
}

#[test]
fn rejected_usernames() {
    for name in ["", "Alice", "1abc", "-a", "_a", "$", "a$b", "a$$", "a b", "ab.c", "é", "aé"] {
        assert!(!is_valid_username(name), "{name}");
    }
}

#[test]
fn one_final_newline_is_accepted() {
    assert!(is_valid_username("alice\n"));
    assert!(is_valid_username("bob$\n"));
    assert!(!is_valid_username("alice\n\n"));
    assert!(!is_valid_username("\n"));
    assert!(!is_valid_username("al\nice"));
}
