use libretube_sync::database::subscription::new_subscription;
use libretube_sync::database::watch_history::{watch_history_query, PAGE_SIZE};
use libretube_sync::util::bytes_to_hex_string;

#[test]
fn first_page_starts_at_zero() {
    let q = watch_history_query("acc", 1, None::<u8>, true);
    assert_eq!(q.account_id, "acc");
    assert_eq!(q.offset, 0);
    assert_eq!(q.limit, 50);
    assert_eq!(PAGE_SIZE, 50);
    assert!(q.sort_by_date_ascending);
    assert_eq!(q.status, None);
}

#[test]
fn pages_follow_each_other() {
    for p in 1u32..10 {
        let a = watch_history_query("acc", p, Some(3u8), false);
        let b = watch_history_query("acc", p + 1, Some(3u8), false);
        assert_eq!(a.offset + a.limit, b.offset);
        assert_eq!(a.status, Some(3));
        assert!(!a.sort_by_date_ascending);
    }
}

#[test]
fn last_page_offset_fits() {
    let q = watch_history_query("acc", u32::MAX, None::<u8>, true);
    assert_eq!(q.offset, 50 * (u32::MAX as i64 - 1));
}

#[test]
fn subscription_row() {
    let s = new_subscription("user-1", "UC123");
    assert_eq!(s.user_id, "user-1");
    assert_eq!(s.channel_id, "UC123");
}

#[test]
fn hex_is_lowercase_two_digits_per_byte() {
    assert_eq!(bytes_to_hex_string(&[]), "");
    assert_eq!(bytes_to_hex_string(&[0x00, 0x0f, 0xa0, 0xff]), "000fa0ff");
    assert_eq!(bytes_to_hex_string(&[0x12, 0x34]).len(), 4);
}
