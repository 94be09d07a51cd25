use hr_admin::common::crypto::hash::{Crypto, CryptoError};
use hr_admin::common::tree::{build_tree, TreeNode};
use hr_admin::common::utils::{
    nonce, query_filter, query_get, starts_with, Pagination, PaginationError, DEFAULT_PAGE_SIZE,
    MAX_PAGE_SIZE,
};
use hr_admin::common::xtime::{
    display_time, from_str, from_timestamp, now, to_string, to_timestamp, DateTimeFormat, Moment,
    TimeError, DATE, DATETIME, TIME,
};

const EAST_8: i32 = 8 * 3600;

fn pairs(items: &[(&str, &str)]) -> Vec<(String, String)> {
    items.iter().map(|(k, v)| (k.to_string(), v.to_string())).collect()
}

#[test]
fn test_md5() {
    let data = b"hello world";
    let hash = Crypto::md5(data);
    assert_eq!(hash, "5eb63bbbe01eeed093cb22bb8f5acdc3");
}

#[test]
fn test_hmac_sha256() {
    let key = b"secret";
    let data = b"hello world";
    let hmac = Crypto::hmac_sha256(key, data).unwrap();
    assert!(!hmac.is_empty());
}

#[test]
fn test_invalid_key() {
    let key = [];
    let data = b"test";
    let result = Crypto::hmac_sha256(&key, data);
    assert!(result.is_err());
}

#[test]
fn digests_have_their_known_values() {
    assert_eq!(Crypto::md5(b""), "d41d8cd98f00b204e9800998ecf8427e");
    assert_eq!(Crypto::md5(b"123456"), "e10adc3949ba59abbe56e057f20f883e");
    assert_eq!(Crypto::sha1(b"hello world"), "2aae6c35c94fcfb415dbe95f408b9ce91ee846ed");
    assert_eq!(
        Crypto::sha256(b"hello world"),
        "b94d27b9934d3e08a52e52d7da7dabfac484efe37a5380ee9088f7ace2efcde9"
    );
    assert_eq!(
        Crypto::hmac_sha256(b"secret", b"hello world").unwrap(),
        "734cc62f32841568f45715aeb9f4d7891324e6d948e4c6c60c0621cdac48623a"
    );
    assert_eq!(
        Crypto::hmac_sha1(b"secret", b"hello world").unwrap(),
        "03376ee7ad7bbfceee98660439a4d8b125122a5a"
    );
}

#[test]
fn an_empty_key_is_refused_by_both_macs() {
    assert!(matches!(Crypto::hmac_sha1(&[], b"x"), Err(CryptoError::InvalidKeyLength)));
    assert!(matches!(Crypto::hmac_sha256(&[], b""), Err(CryptoError::InvalidKeyLength)));
    assert!(Crypto::hmac_sha256(&[0u8], b"").is_ok());
    assert!(Crypto::hmac_sha1(&[7u8; 200], b"long key").is_ok());
}

#[test]
fn signed_writes_a_tag_in_lower_case_hexadecimal() {
    assert_eq!(Crypto::signed(Ok(vec![0x00, 0x0f, 0xa0, 0xff, 0x1b])).unwrap(), "000fa0ff1b");
    assert_eq!(Crypto::signed(Ok(vec![])).unwrap(), "");
    assert!(matches!(
        Crypto::signed(Err(digest::InvalidLength)),
        Err(CryptoError::InvalidKeyLength)
    ));
}

#[test]
fn test_pagination() {
    let default_pagination = Pagination::default();
    assert_eq!(default_pagination.limit, DEFAULT_PAGE_SIZE);
    assert_eq!(default_pagination.offset, 0);

    let pagination = Pagination::new(Some(2), Some(30)).unwrap();
    assert_eq!(pagination.limit, 30);
    assert_eq!(pagination.offset, 30);

    let pagination = Pagination::new(Some(1), Some(200)).unwrap();
    assert_eq!(pagination.limit, MAX_PAGE_SIZE);

    let mut args = Vec::new();
    args.push(("page".to_string(), "2".to_string()));
    args.push(("size".to_string(), "30".to_string()));
    let pagination = Pagination::from_query(&args).unwrap();
    assert_eq!(pagination.limit, 30);
    assert_eq!(pagination.offset, 30);
}

#[test]
fn pagination_refuses_size_zero_and_page_zero() {
    assert!(matches!(Pagination::new(None, Some(0)), Err(PaginationError::InvalidSize(_))));
    assert!(matches!(Pagination::new(Some(0), Some(0)), Err(PaginationError::InvalidSize(_))));
    assert!(matches!(Pagination::new(Some(0), None), Err(PaginationError::InvalidPage(_))));
    assert!(matches!(Pagination::new(Some(0), Some(5)), Err(PaginationError::InvalidPage(_))));
    match Pagination::new(None, Some(0)) {
        Err(PaginationError::InvalidSize(m)) => assert_eq!(m, "Page size cannot be zero"),
        _ => panic!(),
    }
    match Pagination::new(Some(0), None) {
        Err(PaginationError::InvalidPage(m)) => assert_eq!(m, "Page number must be positive"),
        _ => panic!(),
    }
}

#[test]
fn pagination_computes_offsets_exactly() {
    let p = Pagination::new(None, None).unwrap();
    assert_eq!((p.offset, p.limit), (0, 20));
    let p = Pagination::new(Some(1), None).unwrap();
    assert_eq!((p.offset, p.limit), (0, 20));
    let p = Pagination::new(Some(7), Some(15)).unwrap();
    assert_eq!((p.offset, p.limit), (90, 15));
    let p = Pagination::new(Some(3), Some(100)).unwrap();
    assert_eq!((p.offset, p.limit), (200, 100));
    let p = Pagination::new(Some(3), Some(101)).unwrap();
    assert_eq!((p.offset, p.limit), (200, 100));
    let p = Pagination::new(Some(4), Some(u64::MAX)).unwrap();
    assert_eq!((p.offset, p.limit), (300, 100));
    assert!(p.counts_total() == false);
    assert!(Pagination::new(Some(1), Some(9)).unwrap().counts_total());
}

#[test]
fn pagination_refuses_an_offset_that_does_not_fit() {
    assert!(matches!(
        Pagination::new(Some(u64::MAX), Some(2)),
        Err(PaginationError::InvalidPage(_))
    ));
    let last = u64::MAX / 100 + 1;
    let p = Pagination::new(Some(last), Some(100)).unwrap();
    assert_eq!(p.offset, (last - 1) * 100);
    assert!(matches!(
        Pagination::new(Some(last + 1), Some(100)),
        Err(PaginationError::InvalidPage(_))
    ));
    let p = Pagination::new(Some(u64::MAX), Some(1)).unwrap();
    assert_eq!(p.offset, u64::MAX - 1);
}

#[test]
fn from_query_passes_over_what_is_no_number() {
    let p = Pagination::from_query(&pairs(&[("page", "abc"), ("size", "")])).unwrap();
    assert_eq!((p.offset, p.limit), (0, 20));
    let p = Pagination::from_query(&pairs(&[("page", "+3"), ("size", "+10")])).unwrap();
    assert_eq!((p.offset, p.limit), (20, 10));
    let p = Pagination::from_query(&pairs(&[("page", "-3"), ("size", " 10")])).unwrap();
    assert_eq!((p.offset, p.limit), (0, 20));
    let p = Pagination::from_query(&pairs(&[("size", "18446744073709551615")])).unwrap();
    assert_eq!(p.limit, 100);
    let p = Pagination::from_query(&pairs(&[("size", "18446744073709551616")])).unwrap();
    assert_eq!(p.limit, 20);
    let p = Pagination::from_query(&pairs(&[("size", "007"), ("page", "0002")])).unwrap();
    assert_eq!((p.offset, p.limit), (7, 7));
    let p = Pagination::from_query(&pairs(&[("size", "+"), ("page", "1_0")])).unwrap();
    assert_eq!((p.offset, p.limit), (0, 20));
    assert!(matches!(
        Pagination::from_query(&pairs(&[("size", "0")])),
        Err(PaginationError::InvalidSize(_))
    ));
    assert!(matches!(
        Pagination::from_query(&pairs(&[("page", "0")])),
        Err(PaginationError::InvalidPage(_))
    ));
    let p = Pagination::from_query(&Vec::new()).unwrap();
    assert_eq!((p.offset, p.limit), (0, 20));
}

#[test]
fn the_last_pair_of_a_key_is_the_one_that_counts() {
    let args = pairs(&[("size", "5"), ("page", "2"), ("size", "50"), ("name", "")]);
    assert_eq!(query_get(&args, "size").unwrap(), "50");
    assert_eq!(query_get(&args, "page").unwrap(), "2");
    assert_eq!(query_get(&args, "name").unwrap(), "");
    assert!(query_get(&args, "other").is_none());
    assert!(query_get(&args, "").is_none());
    assert!(query_filter(&args, "name").is_none());
    assert_eq!(query_filter(&args, "size").unwrap(), "50");
    let p = Pagination::from_query(&args).unwrap();
    assert_eq!((p.offset, p.limit), (50, 50));
}

#[test]
fn starts_with_compares_characters() {
    assert!(starts_with("Bearer x", "Bearer "));
    assert!(starts_with("abc", ""));
    assert!(starts_with("", ""));
    assert!(!starts_with("", "a"));
    assert!(!starts_with("ab", "abc"));
    assert!(!starts_with("abd", "abc"));
    assert!(starts_with("部门名称", "部门"));
    assert!(!starts_with("部门名称", "名称"));
}

#[test]
fn test_nonce() {
    let n1 = nonce(16);
    let n2 = nonce(16);
    assert_eq!(n1.len(), 16);
    assert_eq!(n2.len(), 16);
    assert_ne!(n1, n2);
}

#[test]
fn a_nonce_holds_letters_and_digits_only() {
    assert_eq!(nonce(0), "");
    let n = nonce(500);
    assert_eq!(n.chars().count(), 500);
    assert!(n.chars().all(|c| c.is_ascii_alphanumeric()));
}

#[test]
fn test_timestamp_conversion() {
    let datetime = "2024-03-20 12:00:00";
    let ts = to_timestamp(DATETIME, datetime, EAST_8).unwrap();
    let str = to_string(DATETIME, ts, EAST_8).unwrap();
    assert_eq!(datetime, str);
}

#[test]
fn test_negative_timestamp() {
    assert!(from_timestamp(-1, EAST_8).is_err());
}

#[test]
fn test_format_methods() {
    let now = now(EAST_8);

    let datetime = now.format_datetime().unwrap();
    assert!(!datetime.is_empty());

    let date = now.format_date().unwrap();
    assert!(!date.is_empty());

    let time = now.format_time().unwrap();
    assert!(!time.is_empty());
}

#[test]
fn test_empty_datetime() {
    let ts = to_timestamp(DATETIME, "", EAST_8).unwrap();
    assert_eq!(ts, 0);
}

#[test]
fn times_are_formatted_at_the_offset_given() {
    assert_eq!(to_string(DATETIME, 0, EAST_8).unwrap(), "1970-01-01 08:00:00");
    assert_eq!(to_string(DATETIME, 0, 0).unwrap(), "1970-01-01 00:00:00");
    assert_eq!(to_string(DATETIME, 1_710_907_200, EAST_8).unwrap(), "2024-03-20 12:00:00");
    assert_eq!(to_string(DATE, 1_710_907_200, EAST_8).unwrap(), "2024-03-20");
    assert_eq!(to_string(TIME, 1_710_907_200, -3600).unwrap(), "03:00:00");
    assert_eq!(to_timestamp(DATETIME, "2024-03-20 12:00:00", EAST_8).unwrap(), 1_710_907_200);
    assert_eq!(to_timestamp(DATETIME, "2024-03-20 12:00:00", 0).unwrap(), 1_710_936_000);
    let m = from_str(DATETIME, "1970-01-01 08:00:01", EAST_8).unwrap();
    assert_eq!((m.timestamp, m.offset_seconds), (1, EAST_8));
    assert_eq!(m.unix_timestamp(), 1);
    let m = Moment { timestamp: 86_399, offset_seconds: 0 };
    assert_eq!(m.format_datetime().unwrap(), "1970-01-01 23:59:59");
    assert_eq!(m.format_date().unwrap(), "1970-01-01");
    assert_eq!(m.format_time().unwrap(), "23:59:59");
    assert_eq!(m.format("[year]").unwrap(), "1970");
    let m = Moment { timestamp: -1, offset_seconds: 0 };
    assert_eq!(m.format_datetime().unwrap(), "1969-12-31 23:59:59");
}

#[test]
fn each_time_error_has_an_input() {
    assert!(matches!(to_string(DATETIME, -1, EAST_8), Err(TimeError::NegativeTimestamp(-1))));
    assert!(matches!(from_timestamp(-5, 0), Err(TimeError::NegativeTimestamp(-5))));
    assert!(matches!(to_string("[nonsense]", 0, 0), Err(TimeError::Unrepresentable)));
    assert!(matches!(to_string(DATETIME, 0, 200_000), Err(TimeError::Unrepresentable)));
    assert!(matches!(to_string(DATETIME, i64::MAX, 0), Err(TimeError::Unrepresentable)));
    assert!(matches!(from_timestamp(i64::MAX, 0), Err(TimeError::Unrepresentable)));
    assert!(matches!(to_string(DATETIME, 253_402_300_799, EAST_8), Err(TimeError::Unrepresentable)));
    assert_eq!(to_string(DATETIME, 253_402_300_799, 0).unwrap(), "9999-12-31 23:59:59");
    assert!(matches!(to_timestamp(DATETIME, "yesterday", 0), Err(TimeError::Unrepresentable)));
    assert!(matches!(to_timestamp("[", "2024", 0), Err(TimeError::Unrepresentable)));
    assert!(matches!(from_str(DATETIME, "", 0), Err(TimeError::Unrepresentable)));
    assert!(matches!(from_str(DATETIME, "2024-02-30 00:00:00", 0), Err(TimeError::Unrepresentable)));
    let ok = from_timestamp(0, EAST_8).unwrap();
    assert_eq!((ok.timestamp, ok.offset_seconds), (0, EAST_8));
}

#[test]
fn listings_show_times_eight_hours_east_or_nothing() {
    assert_eq!(display_time(0), "1970-01-01 08:00:00");
    assert_eq!(display_time(1_710_907_200), "2024-03-20 12:00:00");
    assert_eq!(display_time(-1), "");
    assert_eq!(display_time(i64::MAX), "");
}

fn row(id: i64, name: &str, parent: Option<i64>) -> (i64, String, Option<i64>) {
    (id, name.to_string(), parent)
}

fn shape(node: &TreeNode) -> String {
    let kids: Vec<String> = node.children.iter().map(shape).collect();
    format!("{}:{}[{}]", node.id, node.name, kids.join(","))
}

fn shapes(nodes: &Option<Vec<TreeNode>>) -> Option<Vec<String>> {
    nodes.as_ref().map(|v| v.iter().map(shape).collect())
}

#[test]
fn a_table_becomes_its_trees_in_order() {
    let built = build_tree(vec![
        row(1, "root", None),
        row(2, "left", Some(1)),
        row(3, "right", Some(1)),
        row(4, "leaf", Some(2)),
        row(5, "second", None),
        row(6, "late", Some(1)),
    ]);
    assert_eq!(
        shapes(&built).unwrap(),
        vec!["1:root[2:left[4:leaf[]],3:right[],6:late[]]".to_string(), "5:second[]".to_string()]
    );
    let single = build_tree(vec![row(9, "only", None)]);
    assert_eq!(shapes(&single).unwrap(), vec!["9:only[]".to_string()]);
}

#[test]
fn a_table_without_trees_gives_none() {
    assert!(build_tree(vec![]).is_none());
    assert!(build_tree(vec![row(1, "a", Some(0))]).is_none());
    assert!(build_tree(vec![row(1, "a", Some(2)), row(2, "b", Some(1))]).is_none());
}

#[test]
fn a_cycle_below_a_root_gives_none() {
    assert!(build_tree(vec![row(1, "a", None), row(1, "again", Some(1))]).is_none());
    assert!(build_tree(vec![
        row(1, "a", None),
        row(2, "b", Some(1)),
        row(3, "c", Some(2)),
        row(2, "b again", Some(3)),
    ])
    .is_none());
    assert!(build_tree(vec![row(1, "a", None), row(2, "b", Some(1)), row(1, "c", Some(2))]).is_none());
}

#[test]
fn rows_out_of_reach_of_a_root_are_left_out() {
    let built = build_tree(vec![
        row(2, "b", Some(3)),
        row(1, "root", None),
        row(3, "c", Some(2)),
        row(7, "orphan", Some(99)),
    ]);
    assert_eq!(shapes(&built).unwrap(), vec!["1:root[]".to_string()]);
}

#[test]
fn an_id_may_stand_twice_side_by_side() {
    let built = build_tree(vec![
        row(1, "root", None),
        row(2, "x", Some(1)),
        row(2, "y", Some(1)),
        row(3, "below", Some(2)),
        row(1, "root too", None),
    ]);
    assert_eq!(
        shapes(&built).unwrap(),
        vec![
            "1:root[2:x[3:below[]],2:y[3:below[]]]".to_string(),
            "1:root too[2:x[3:below[]],2:y[3:below[]]]".to_string()
        ]
    );
}

#[test]
fn a_deep_chain_is_built() {
    let mut rows = vec![row(0, "n0", None)];
    for i in 1..200 {
        rows.push(row(i, "n", Some(i - 1)));
    }
    let built = build_tree(rows).unwrap();
    let mut depth = 0;
    let mut node = &built[0];
    while let Some(next) = node.children.first() {
        depth += 1;
        node = next;
    }
    assert_eq!(depth, 199);
}

#[test]
fn errors_are_put_in_words() {
    assert_eq!(CryptoError::InvalidKeyLength.message(), "Invalid key length");
    assert_eq!(CryptoError::EncodingError("odd".to_string()).message(), "Encoding error: odd");
    assert_eq!(
        PaginationError::InvalidPage("x".to_string()).message(),
        "Invalid page number: x"
    );
    assert_eq!(PaginationError::InvalidSize(String::new()).message(), "Invalid page size: ");
    assert_eq!(
        Pagination::new(Some(0), None).unwrap_err().message(),
        "Invalid page number: Page number must be positive"
    );
    assert_eq!(
        Pagination::new(Some(u64::MAX), Some(2)).unwrap_err().message(),
        "Invalid page number: Page number is too large"
    );
    assert_eq!(
        TimeError::NegativeTimestamp(-12).message(),
        "Invalid negative timestamp: -12"
    );
    assert_eq!(TimeError::Unrepresentable.message(), "Time is out of range or malformed");
}
