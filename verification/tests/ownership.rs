use appbase_backend::access::{admin_guard, contributor_guard, ip_guard, prefix_is_current};
use appbase_backend::credentials::{password_matches, verify_credentials, AccountRow};
use appbase_backend::model::{Contributor, EditLogEntry, PostAction, Timestamp};
use appbase_backend::ownership::{
    append_to_edit_log, check_pending_permission, check_permission, get_pending_post_owner_id, has_admin_role,
};

fn user(id: i32, role: &str) -> Contributor {
    Contributor {
        id,
        username: format!("user{}", id),
        role: role.to_string(),
        is_active: true,
        can_edit_and_delete_own_posts: false,
        can_edit_any_post: false,
        can_delete_any_post: false,
        can_approve_posts: false,
        last_login_time: None,
    }
}

#[test]
fn owner_without_rights_cannot_edit_own_published_post() {
    let u = user(4, "contributor");
    assert!(!check_permission(&u, Some(4), PostAction::Edit));
    assert!(!check_permission(&u, Some(4), PostAction::Delete));
}

#[test]
fn owner_with_own_rights_can_edit_and_delete_own_post_only() {
    let mut u = user(4, "contributor");
    u.can_edit_and_delete_own_posts = true;
    assert!(check_permission(&u, Some(4), PostAction::Edit));
    assert!(check_permission(&u, Some(4), PostAction::Delete));
    assert!(!check_permission(&u, Some(5), PostAction::Edit));
    assert!(!check_permission(&u, None, PostAction::Delete));
}

#[test]
fn blanket_rights_are_per_action() {
    let mut u = user(4, "contributor");
    u.can_edit_any_post = true;
    assert!(check_permission(&u, Some(9), PostAction::Edit));
    assert!(!check_permission(&u, Some(9), PostAction::Delete));
    let mut u = user(4, "contributor");
    u.can_delete_any_post = true;
    assert!(!check_permission(&u, None, PostAction::Edit));
    assert!(check_permission(&u, None, PostAction::Delete));
}

#[test]
fn administrators_always_pass_for_published_posts() {
    let u = user(1, "admin");
    assert!(has_admin_role(&u));
    assert!(check_permission(&u, None, PostAction::Edit));
    assert!(check_permission(&u, Some(9), PostAction::Delete));
    assert!(!has_admin_role(&user(1, "Admin")));
    assert!(!has_admin_role(&user(1, "administrator")));
}

#[test]
fn only_the_owner_edits_a_pending_post() {
    let mut admin = user(1, "admin");
    admin.can_edit_any_post = true;
    admin.can_approve_posts = true;
    assert!(!check_pending_permission(&admin, Some(4), PostAction::Edit));
    assert!(!check_pending_permission(&admin, None, PostAction::Edit));
    assert!(check_pending_permission(&user(4, "contributor"), Some(4), PostAction::Edit));
}

#[test]
fn owner_admin_and_approvers_discard_pending_posts() {
    assert!(check_pending_permission(&user(4, "contributor"), Some(4), PostAction::Delete));
    assert!(check_pending_permission(&user(1, "admin"), Some(4), PostAction::Delete));
    let mut approver = user(6, "contributor");
    approver.can_approve_posts = true;
    assert!(check_pending_permission(&approver, Some(4), PostAction::Delete));
    let mut other = user(7, "contributor");
    other.can_delete_any_post = true;
    other.can_edit_and_delete_own_posts = true;
    assert!(!check_pending_permission(&other, Some(4), PostAction::Delete));
}

#[test]
fn author_is_pending_owner_or_else_published_owner() {
    assert_eq!(get_pending_post_owner_id(Some(3), Some(9)), Some(3));
    assert_eq!(get_pending_post_owner_id(None, Some(9)), Some(9));
    assert_eq!(get_pending_post_owner_id(Some(3), None), Some(3));
    assert_eq!(get_pending_post_owner_id(None, None), None);
}

#[test]
fn edit_log_entries_are_numbered_from_one() {
    let now = Timestamp { secs: 50, nanos: 1 };
    let log = append_to_edit_log(Vec::new(), "ann", now);
    assert_eq!(log.len(), 1);
    assert_eq!((log[0].edit_number, log[0].editor_username.as_str(), log[0].edited_at), (1, "ann", now));
    let later = Timestamp { secs: 60, nanos: 0 };
    let log = append_to_edit_log(log, "bob", later);
    assert_eq!(log.len(), 2);
    assert_eq!((log[0].edit_number, log[0].editor_username.as_str()), (1, "ann"));
    assert_eq!((log[1].edit_number, log[1].editor_username.as_str(), log[1].edited_at), (2, "bob", later));
}

#[test]
fn edit_log_number_counts_entries_not_numbers() {
    let now = Timestamp { secs: 0, nanos: 0 };
    let existing = vec![EditLogEntry { edit_number: 40, editor_username: "x".to_string(), edited_at: now }];
    let log = append_to_edit_log(existing, "y", now);
    assert_eq!(log[1].edit_number, 2);
}

#[test]
fn password_check_follows_bcrypt() {
    let hash = bcrypt::hash("correct horse", 4).unwrap();
    assert!(password_matches("correct horse", &hash));
    assert!(!password_matches("correct horse ", &hash));
    assert!(!password_matches("", &hash));
    assert!(!password_matches("correct horse", "not a hash"));
    assert!(!password_matches("correct horse", ""));
    let known = "$2y$05$bvIG6Nmid91Mu9RcmmWZfO5HJIMCT8riNW0hEp8f6/FuA2/mHZFpe";
    assert!(password_matches("password", known));
    assert!(!password_matches("Password", known));
}

#[test]
fn login_needs_active_account_and_matching_password() {
    let hash = bcrypt::hash("pw", 4).unwrap();
    let row = |active: bool| AccountRow { password_hash: hash.clone(), role: "admin".to_string(), is_active: active };
    assert_eq!(verify_credentials(Some(row(true)), "ann", "pw"), Some(("ann".to_string(), "admin".to_string())));
    assert_eq!(verify_credentials(Some(row(false)), "ann", "pw"), None);
    assert_eq!(verify_credentials(Some(row(true)), "ann", "wrong"), None);
    assert_eq!(verify_credentials(None, "ann", "pw"), None);
}

#[test]
fn role_guards_separate_administrators_and_contributors() {
    assert!(admin_guard(Some("admin")));
    assert!(!admin_guard(Some("contributor")));
    assert!(!admin_guard(None));
    assert!(contributor_guard(Some("contributor")));
    assert!(!contributor_guard(Some("admin")));
    assert!(!contributor_guard(None));
}

#[test]
fn login_address_guard() {
    assert!(!ip_guard(None, None, Some("1.2.3.4")));
    assert!(ip_guard(Some(" * "), None, None));
    assert!(ip_guard(Some("1.2.3.4, 5.6.7.8"), None, Some("5.6.7.8")));
    assert!(!ip_guard(Some("1.2.3.4, 5.6.7.8"), None, Some("5.6.7.9")));
    assert!(!ip_guard(Some("1.2.3.4"), None, None));
    assert!(ip_guard(Some("1.2.3.4"), Some(" 1.2.3.4 , 9.9.9.9"), Some("8.8.8.8")));
    assert!(!ip_guard(Some("9.9.9.9"), Some("1.2.3.4, 9.9.9.9"), Some("9.9.9.9")));
    assert!(!ip_guard(Some("*, 1.2.3.4"), None, Some("7.7.7.7")));
    assert!(!ip_guard(Some(""), None, Some("7.7.7.7")));
}

#[test]
fn contributor_prefix_must_match_exactly() {
    assert!(prefix_is_current("secret", Some("secret")));
    assert!(!prefix_is_current("secret", Some("Secret")));
    assert!(!prefix_is_current("secret", None));
}

#[test]
fn media_is_removed_by_owner_or_administrator() {
    assert!(appbase_backend::media::may_delete_media(&user(4, "contributor"), true));
    assert!(!appbase_backend::media::may_delete_media(&user(4, "contributor"), false));
    assert!(appbase_backend::media::may_delete_media(&user(1, "admin"), false));
}
