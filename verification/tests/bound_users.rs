use wechat_binding::bound_users::{
    bindings_after_login, load_persisted_bound_users, normalized_concrete_users, BindingsData,
    WeChatQrBindMode,
};

fn list(users: &[&str]) -> Vec<String> {
    users.iter().map(|user| user.to_string()).collect()
}

fn bindings(users: &[&str]) -> BindingsData {
    BindingsData {
        bound_users: list(users),
    }
}

#[test]
fn users_are_trimmed_and_listed_once_in_order() {
    let normalized = normalized_concrete_users(&list(&[" b ", "a", "*", "", "b", "\ta\n", "c", " * "]));
    assert_eq!(normalized, list(&["b", "a", "c"]));
}

#[test]
fn normalizing_twice_changes_nothing() {
    let once = normalized_concrete_users(&list(&["x ", "y", "x", " z"]));
    assert_eq!(normalized_concrete_users(&once), once);
}

#[test]
fn white_space_is_what_unicode_says_it_is() {
    for code in 0..=0x10ffff_u32 {
        if let Some(c) = char::from_u32(code) {
            let given = vec![format!("{c}u{c}")];
            let expected = if c.is_whitespace() {
                vec!["u".to_string()]
            } else {
                given.clone()
            };
            assert_eq!(normalized_concrete_users(&given), expected);
        }
    }
}

#[test]
fn missing_bindings_hold_no_users() {
    assert!(load_persisted_bound_users(None).is_empty());
    assert_eq!(
        load_persisted_bound_users(Some(&bindings(&["a", "*", " a"]))),
        list(&["a"])
    );
}

#[test]
fn append_keeps_bound_users_and_adds_the_new_one_last() {
    let before = bindings(&["old ", "*", "older"]);
    let after = bindings_after_login(Some(&before), WeChatQrBindMode::Append, "new");
    assert_eq!(after.bound_users, list(&["old", "older", "new"]));
}

#[test]
fn append_of_a_known_user_adds_nothing() {
    let before = bindings(&["a", "b"]);
    let after = bindings_after_login(Some(&before), WeChatQrBindMode::Append, "a");
    assert_eq!(after.bound_users, list(&["a", "b"]));
}

#[test]
fn replace_leaves_one_user() {
    let before = bindings(&["a", "b"]);
    let after = bindings_after_login(Some(&before), WeChatQrBindMode::Replace, "c");
    assert_eq!(after.bound_users, list(&["c"]));
    let first = bindings_after_login(None, WeChatQrBindMode::Append, "c");
    assert_eq!(first.bound_users, list(&["c"]));
}

#[test]
fn bound_users_are_read_back() {
    let before = bindings(&["a"]);
    let after = bindings_after_login(Some(&before), WeChatQrBindMode::Append, "b");
    assert_eq!(load_persisted_bound_users(Some(&after)), list(&["a", "b"]));
    // The wildcard is written, and dropped when it is read.
    let wild = bindings_after_login(Some(&before), WeChatQrBindMode::Append, "*");
    assert_eq!(wild.bound_users, list(&["a", "*"]));
    assert_eq!(load_persisted_bound_users(Some(&wild)), list(&["a"]));
}

#[test]
fn append_is_the_default_mode() {
    assert_eq!(WeChatQrBindMode::default(), WeChatQrBindMode::Append);
}

#[test]
fn lists_may_be_normalized_before_they_are_put_together() {
    let front = list(&[" a", "b", "*", "a"]);
    let back = list(&["b ", "c", "", "c"]);
    let all = [front.clone(), back.clone()].concat();
    let parts = [
        normalized_concrete_users(&front),
        normalized_concrete_users(&back),
    ]
    .concat();
    assert_eq!(normalized_concrete_users(&all), list(&["a", "b", "c"]));
    assert_eq!(normalized_concrete_users(&parts), list(&["a", "b", "c"]));
    assert!(normalized_concrete_users(&all).starts_with(&normalized_concrete_users(&front)));
}

#[test]
fn binding_twice_changes_nothing() {
    for mode in [WeChatQrBindMode::Append, WeChatQrBindMode::Replace] {
        for user in ["new", "a", "*"] {
            let once = bindings_after_login(Some(&bindings(&["a", "b"])), mode, user);
            let twice = bindings_after_login(Some(&once), mode, user);
            assert_eq!(twice.bound_users, once.bound_users);
        }
    }
}
