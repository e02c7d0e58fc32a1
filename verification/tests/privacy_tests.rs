use smartpaste::clipboard::{text_item, ClipboardItem};
use smartpaste::privacy::{
    final_private_status, is_valid_luhn, mark_private_rows, password_pattern, private_item_actions,
    PrivacyAction, PrivacyKind, CARD_PATTERN, CARD_PATTERN_COMPACT, ID_NUMBER_PATTERN,
    PHONE_PATTERN,
};

fn make_item(id: &str, content: &str, notes: &str) -> ClipboardItem {
    let mut item = text_item(id.to_string(), content, 0);
    item.notes = notes.to_string();
    item
}

/// (id, notes) rows, as the password check reads them.
fn note_rows(items: &[&ClipboardItem]) -> Vec<(String, String)> {
    items.iter().map(|i| (i.id.clone(), i.notes.clone())).collect()
}

/// (id, content) rows, as the other checks read them.
fn content_rows(items: &[&ClipboardItem]) -> Vec<(String, String)> {
    items.iter().map(|i| (i.id.clone(), i.content.clone())).collect()
}

/// Applies a check to the private set, marking (or unmarking) the ids it selects.
fn apply(private: &mut Vec<String>, ids: &[String], to_add: bool) -> usize {
    for id in ids {
        if to_add {
            if !private.contains(id) {
                private.push(id.clone());
            }
        } else {
            private.retain(|p| p != id);
        }
    }
    ids.len()
}

fn check_item(
    private: &mut Vec<String>,
    item: &ClipboardItem,
    f1: bool,
    f2: bool,
    f3: bool,
    f4: bool,
) -> Result<bool, String> {
    let actions = private_item_actions(item, f1, f2, f3, f4)?;
    let initial = private.contains(&item.id);
    let now = final_private_status(initial, &actions);
    private.retain(|p| p != &item.id);
    if now {
        private.push(item.id.clone());
    }
    Ok(now)
}

#[test]
fn test_db_private_test_mark_passwords() {
    let item1 = make_item("pw-1", "some content", "My password is 123456");
    let item2 = make_item("pw-2", "Just some text", "This is a secret key");
    let item3 = make_item("pw-3", "Hello world", "Just a note");
    let item4 = make_item("pw-4", "some content", "Login credentials for site");
    let item5 = make_item("pw-5", "普通文本", "这是一个密码");
    let rows = note_rows(&[&item1, &item2, &item3, &item4, &item5]);
    let mut private: Vec<String> = Vec::new();

    let ids = mark_private_rows(PrivacyKind::Password, &rows).expect("mark passwords failed");
    let count = apply(&mut private, &ids, true);

    assert_eq!(count, 4, "Should mark 4 items as private");
    assert!(private.contains(&item1.id), "item1 (password in notes) should be private");
    assert!(private.contains(&item2.id), "item2 (secret key in notes) should be private");
    assert!(!private.contains(&item3.id), "item3 should NOT be private");
    assert!(private.contains(&item4.id), "item4 (login in notes) should be private");
    assert!(private.contains(&item5.id), "item5 (密码 in notes) should be private");

    let ids = mark_private_rows(PrivacyKind::Password, &rows).expect("unmark passwords failed");
    let count_removed = apply(&mut private, &ids, false);
    assert_eq!(count_removed, 4, "Should unmark 4 items");
    assert!(!private.contains(&item1.id), "item1 should no longer be private");
    assert!(!private.contains(&item2.id), "item2 should no longer be private");
}

#[test]
fn test_db_private_test_mark_bank_cards() {
    let valid_visa = "4000 0000 0000 0002";
    let item_valid = make_item("card-valid", &format!("Payment: {}", valid_visa), "");
    let item_invalid = make_item("card-invalid", "4000 0000 0000 0003", "");
    let item_text = make_item("card-text", "My number is 1234567890", "");
    let rows = content_rows(&[&item_valid, &item_invalid, &item_text]);
    let mut private: Vec<String> = Vec::new();

    let ids = mark_private_rows(PrivacyKind::BankCard, &rows).expect("mark bank cards failed");
    let count = apply(&mut private, &ids, true);

    assert_eq!(count, 1, "Should mark 1 valid card");
    assert!(private.contains(&item_valid.id), "Valid card should be private");
    assert!(!private.contains(&item_invalid.id), "Invalid Luhn card should NOT be private");
    assert!(!private.contains(&item_text.id), "Random numbers should NOT be private");

    let ids = mark_private_rows(PrivacyKind::BankCard, &rows).unwrap();
    apply(&mut private, &ids, false);
    assert!(!private.contains(&item_valid.id), "Valid card should be unmarked");
}

#[test]
fn test_db_private_test_mark_identity_numbers() {
    let item18 = make_item("id-18", "ID: 110101199003071234", "");
    let item18x = make_item("id-18x", "11010119900307123X", "");
    let item15 = make_item("id-15", "320102800101123", "");
    let item_short = make_item("id-short", "123456", "");
    let rows = content_rows(&[&item18, &item18x, &item15, &item_short]);
    let mut private: Vec<String> = Vec::new();

    let ids = mark_private_rows(PrivacyKind::IdNumber, &rows).expect("mark id failed");
    let count = apply(&mut private, &ids, true);

    assert_eq!(count, 3, "Should mark 3 ID numbers");
    assert!(private.contains(&item18.id));
    assert!(private.contains(&item18x.id));
    assert!(private.contains(&item15.id));
    assert!(!private.contains(&item_short.id));

    let ids = mark_private_rows(PrivacyKind::IdNumber, &rows).unwrap();
    apply(&mut private, &ids, false);
    assert!(!private.contains(&item18.id));
}

#[test]
fn test_db_private_test_mark_phone_numbers() {
    let item_phone = make_item("ph-1", "Call 13800138000 now", "");
    let item_phone2 = make_item("ph-2", "18912345678", "");
    let item_short = make_item("ph-3", "110", "");
    let item_fake = make_item("ph-4", "10012345678", "");
    let rows = content_rows(&[&item_phone, &item_phone2, &item_short, &item_fake]);
    let mut private: Vec<String> = Vec::new();

    let ids = mark_private_rows(PrivacyKind::PhoneNumber, &rows).expect("mark phone failed");
    let count = apply(&mut private, &ids, true);

    assert_eq!(count, 2, "Should mark 2 phone numbers");
    assert!(private.contains(&item_phone.id));
    assert!(private.contains(&item_phone2.id));
    assert!(!private.contains(&item_short.id));
    assert!(!private.contains(&item_fake.id));

    let ids = mark_private_rows(PrivacyKind::PhoneNumber, &rows).unwrap();
    apply(&mut private, &ids, false);
    assert!(!private.contains(&item_phone.id));
}

#[test]
fn test_check_and_mark_private_item() {
    let mut private: Vec<String> = Vec::new();

    let item = make_item("p-item-1", "content", "This is a secret password");

    let result = check_item(&mut private, &item, true, false, false, false);
    assert!(result.is_ok());
    assert!(private.contains(&item.id));

    let result = check_item(&mut private, &item, false, false, false, false);
    assert!(result.is_ok());
    assert!(!private.contains(&item.id));

    let item2 = make_item("p-item-2", "content", "Just normal text");
    let result = check_item(&mut private, &item2, true, true, true, true);
    assert!(result.is_ok());
    assert!(!private.contains(&item2.id));
}

#[test]
fn test_unmark_privacy() {
    let item_pwd = make_item("p-1", "content", "password 123");
    let item_card = make_item("p-2", "4000 0000 0000 0002", "notes");
    let mut private: Vec<String> = Vec::new();

    let ids = mark_private_rows(PrivacyKind::Password, &note_rows(&[&item_pwd, &item_card])).unwrap();
    let c1 = apply(&mut private, &ids, true);
    assert_eq!(c1, 1, "Should mark 1 password");

    let ids = mark_private_rows(PrivacyKind::BankCard, &content_rows(&[&item_pwd, &item_card])).unwrap();
    let c2 = apply(&mut private, &ids, true);
    assert_eq!(c2, 1, "Should mark 1 card");

    assert!(private.contains(&item_pwd.id), "pwd should be private");
    assert!(private.contains(&item_card.id), "card should be private");

    let ids = mark_private_rows(PrivacyKind::Password, &note_rows(&[&item_pwd, &item_card])).unwrap();
    let count = apply(&mut private, &ids, false);
    assert_eq!(count, 1);
    assert!(!private.contains(&item_pwd.id));
    assert!(private.contains(&item_card.id));

    let ids = mark_private_rows(PrivacyKind::BankCard, &content_rows(&[&item_pwd, &item_card])).unwrap();
    let count2 = apply(&mut private, &ids, false);
    assert_eq!(count2, 1);
    assert!(!private.contains(&item_card.id));
}

#[test]
fn test_luhn_algorithm_cases() {
    let valid_card = make_item("c-valid", "4000 0000 0000 0002", "");
    let invalid_card = make_item("c-invalid", "4000 0000 0000 0003", "");
    let mixed_text = make_item("c-mixed", "My card is 4000-0000-0000-0002 ok?", "");
    let mut private: Vec<String> = Vec::new();

    let ids = mark_private_rows(
        PrivacyKind::BankCard,
        &content_rows(&[&valid_card, &invalid_card, &mixed_text]),
    )
    .unwrap();
    let count = apply(&mut private, &ids, true);
    assert_eq!(count, 2);

    assert!(private.contains(&valid_card.id));
    assert!(!private.contains(&invalid_card.id));
    assert!(private.contains(&mixed_text.id));
}

#[test]
fn test_is_valid_luhn_direct() {
    assert!(!is_valid_luhn(""));
    assert!(!is_valid_luhn("123a"));
    assert!(is_valid_luhn("4000000000000002"));
    assert!(is_valid_luhn("4000000000000085"));
}

#[test]
fn test_luhn_coverage_high_digit() {
    let item = make_item("c-high", "4000 0000 0000 0085", "");
    let mut private: Vec<String> = Vec::new();

    let ids = mark_private_rows(PrivacyKind::BankCard, &content_rows(&[&item])).unwrap();
    let count = apply(&mut private, &ids, true);
    assert_eq!(count, 1);
    assert!(private.contains(&item.id));
}

#[test]
fn test_auto_mark_private_data_coverage() {
    let item_pwd = make_item("auto-1", "content", "password 123");
    let item_card = make_item("auto-2", "4000 0000 0000 0002", "");
    let item_id = make_item("auto-3", "110101199003071234", "");
    let item_phone = make_item("auto-4", "13800138000", "");
    let all = [&item_pwd, &item_card, &item_id, &item_phone];
    let mut private: Vec<String> = Vec::new();

    let mut count = 0;
    count += apply(&mut private, &mark_private_rows(PrivacyKind::Password, &note_rows(&all)).unwrap(), true);
    count += apply(&mut private, &mark_private_rows(PrivacyKind::BankCard, &content_rows(&all)).unwrap(), true);
    count += apply(&mut private, &mark_private_rows(PrivacyKind::IdNumber, &content_rows(&all)).unwrap(), true);
    count += apply(&mut private, &mark_private_rows(PrivacyKind::PhoneNumber, &content_rows(&all)).unwrap(), true);
    assert_eq!(count, 4);

    assert!(private.contains(&item_pwd.id));
    assert!(private.contains(&item_card.id));
    assert!(private.contains(&item_id.id));
    assert!(private.contains(&item_phone.id));
}

#[test]
fn test_check_and_mark_private_item_coverage() {
    let mut private: Vec<String> = Vec::new();

    let item_pwd = make_item("chk-1", "content", "password 123");
    let res = check_item(&mut private, &item_pwd, true, false, false, false).unwrap();
    assert!(res);
    assert!(private.contains(&item_pwd.id));
    let res = check_item(&mut private, &item_pwd, false, false, false, false).unwrap();
    assert!(!res);
    assert!(!private.contains(&item_pwd.id));

    let item_card = make_item("chk-2", "4000 0000 0000 0002", "");
    let res = check_item(&mut private, &item_card, false, true, false, false).unwrap();
    assert!(res);
    assert!(private.contains(&item_card.id));
    let res = check_item(&mut private, &item_card, false, false, false, false).unwrap();
    assert!(!res);
    assert!(!private.contains(&item_card.id));

    let item_id = make_item("chk-3", "110101199003071234", "");
    let res = check_item(&mut private, &item_id, false, false, true, false).unwrap();
    assert!(res);
    assert!(private.contains(&item_id.id));
    let res = check_item(&mut private, &item_id, false, false, false, false).unwrap();
    assert!(!res);
    assert!(!private.contains(&item_id.id));

    let item_phone = make_item("chk-4", "13800138000", "");
    let res = check_item(&mut private, &item_phone, false, false, false, true).unwrap();
    assert!(res);
    assert!(private.contains(&item_phone.id));
    let res = check_item(&mut private, &item_phone, false, false, false, false).unwrap();
    assert!(!res);
    assert!(!private.contains(&item_phone.id));
}

#[test]
fn luhn_ignores_separators_and_rejects_other_characters() {
    assert!(is_valid_luhn("4000 0000 0000 0002"));
    assert!(is_valid_luhn("4000-0000-0000-0002"));
    assert!(is_valid_luhn(" 4000\t0000 0000-0002 "));
    assert!(!is_valid_luhn("4000.0000.0000.0002"));
    assert!(!is_valid_luhn(" - "));
    assert!(is_valid_luhn("0"));
    assert!(!is_valid_luhn("1"));
    assert!(is_valid_luhn("79927398713"));
    assert!(!is_valid_luhn("79927398710"));
}

#[test]
fn item_actions_follow_the_check_order() {
    let item = make_item("x", "13800138000 and 110101199003071234", "my password");
    let actions = private_item_actions(&item, true, true, false, true).unwrap();
    assert_eq!(actions, vec![PrivacyAction::Mark, PrivacyAction::Unmark, PrivacyAction::Mark]);
    assert!(final_private_status(false, &actions));
    assert!(final_private_status(true, &Vec::new()));
    assert!(!final_private_status(false, &Vec::new()));
}

#[test]
fn patterns_are_the_documented_ones() {
    assert_eq!(ID_NUMBER_PATTERN, r"\b\d{15}\b|\b\d{18}\b|\b\d{17}X\b");
    assert_eq!(PHONE_PATTERN, r"\b1[3-9]\d{9}\b");
    assert!(CARD_PATTERN.contains("4\\d{3}"));
    assert!(CARD_PATTERN_COMPACT.contains("(?x)"));
    let bounded = password_pattern(true);
    assert!(bounded.starts_with(r"(?i)(?-u:\b)password(?-u:\b)|"));
    assert!(bounded.contains(r"|(?i)密码|"));
    let loose = password_pattern(false);
    assert!(loose.starts_with(r"(?i)password|(?i)密码|"));
    assert!(loose.ends_with(r"(?i)authentication"));
}

#[test]
fn luhn_detects_every_single_digit_change() {
    let s = "4539578763621486";
    assert!(is_valid_luhn(s));
    for (i, orig) in s.char_indices() {
        for d in '0'..='9' {
            if d != orig {
                let mut t = s.to_string();
                t.replace_range(i..i + 1, &d.to_string());
                assert!(!is_valid_luhn(&t), "{}", t);
            }
        }
    }
}
