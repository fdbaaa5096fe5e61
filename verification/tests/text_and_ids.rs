use business::features::base::pagination::redis::{cache_entries, parse_entries};
use business::features::recipe::redis::day_views_key;
use business::ingredients::Ingredients;
use business::ordering::order_by_key;
use business::text::{
    is_whitespace, parse_i32, prefixed, push_decimal, push_signed_decimal, push_two_digits, split_commas, starts_with,
    trim, IntErrorKind,
};

#[test]
fn whitespace_matches_std_on_every_char() {
    for c in (0u32..=0x10ffff).filter_map(char::from_u32) {
        assert_eq!(is_whitespace(c), c.is_whitespace(), "{:?}", c);
    }
}

#[test]
fn trim_matches_std() {
    for s in ["", "   ", "  a b  ", "\tx\n", "\u{3000}wide\u{3000}", "none"] {
        assert_eq!(trim(s), s.trim());
    }
}

#[test]
fn split_commas_matches_std() {
    for s in ["", ",", "a,b", "a,,b,", " x , y "] {
        let expected: Vec<String> = s.split(',').map(|p| p.to_string()).collect();
        assert_eq!(split_commas(s), expected);
    }
}

#[test]
fn parse_i32_matches_std() {
    for s in ["0", "42", "-17", "+5", "", "+", "-", "12a", "2147483647", "2147483648", "-2147483648", "-2147483649", " 1"] {
        let ours = parse_i32(s);
        let std = s.parse::<i32>();
        match (ours, std) {
            (Ok(a), Ok(b)) => assert_eq!(a, b),
            (Err(k), Err(e)) => assert_eq!(k.message(), e.to_string()),
            (a, b) => panic!("{:?} vs {:?} on {:?}", a, b, s),
        }
    }
}

#[test]
fn int_error_kinds() {
    assert_eq!(parse_i32(""), Err(IntErrorKind::Empty));
    assert_eq!(parse_i32("x"), Err(IntErrorKind::InvalidDigit));
    assert_eq!(parse_i32("99999999999"), Err(IntErrorKind::PosOverflow));
    assert_eq!(parse_i32("-99999999999"), Err(IntErrorKind::NegOverflow));
}

#[test]
fn trim_matches_std_on_every_char() {
    for c in (0u32..=0x10ffff).filter_map(char::from_u32) {
        let s = format!("{}x{}", c, c);
        assert_eq!(trim(&s), s.trim(), "{:?}", c);
    }
}

#[test]
fn decimals() {
    let mut s = String::new();
    push_decimal(&mut s, 0);
    push_decimal(&mut s, 1234);
    assert_eq!(s, "01234");
    let mut s = String::new();
    push_signed_decimal(&mut s, -305);
    assert_eq!(s, "-305");
    let mut s = String::new();
    push_two_digits(&mut s, 7);
    push_two_digits(&mut s, 12);
    push_two_digits(&mut s, 123);
    assert_eq!(s, "0712123");
    assert_eq!(prefixed("ab", "cd"), "abcd");
    assert!(starts_with("recipe:views", "recipe:"));
    assert!(!starts_with("rec", "recipe"));
}

#[test]
fn ids_are_written_hyphenated_and_read_back() {
    let id: u128 = 0x67e5_5044_10b1_426f_9247_bb68_0e5f_e0c8;
    let entries = cache_entries(&[id]);
    assert_eq!(entries, vec!["67e55044-10b1-426f-9247-bb680e5fe0c8".to_string()]);
    assert_eq!(parse_entries(&entries), vec![id]);
    // the other forms that uuid accepts read too
    assert_eq!(parse_entries(&vec!["67e5504410b1426f9247bb680e5fe0c8".to_string()]), vec![id]);
}

#[test]
fn dates_of_instants() {
    assert_eq!(day_views_key(0), Some("recipe:views:01-01-1970".to_string()));
    assert_eq!(day_views_key(-1), Some("recipe:views:31-12-1969".to_string()));
    assert_eq!(day_views_key(i64::MAX), None);
}

#[test]
fn dates_at_the_ends_of_the_calendar() {
    let first: i64 = -8_334_601_228_800_000_000;
    let last: i64 = 8_210_266_876_799_999_999;
    assert_eq!(day_views_key(first), Some("recipe:views:01-01--262143".to_string()));
    assert_eq!(day_views_key(first - 1), None);
    assert_eq!(day_views_key(last), Some("recipe:views:31-12-262142".to_string()));
    assert_eq!(day_views_key(last + 1), None);
    // a leap day, and the day after a century that is no leap year
    assert_eq!(day_views_key(951_782_400_000_000), Some("recipe:views:29-02-2000".to_string()));
    assert_eq!(day_views_key(4_107_542_400_000_000), Some("recipe:views:01-03-2100".to_string()));
}

#[test]
fn ingredients_keep_one_measure_per_name() {
    let mut ing = Ingredients::new();
    ing.insert("salt".to_string(), "1 tsp".to_string());
    ing.insert("flour".to_string(), "200 g".to_string());
    ing.insert("salt".to_string(), "2 tsp".to_string());
    assert_eq!(ing.len(), 2);
    assert_eq!(
        ing.pairs().clone(),
        vec![("flour".to_string(), "200 g".to_string()), ("salt".to_string(), "2 tsp".to_string())]
    );
}

#[test]
fn ingredients_come_by_name_as_a_btree_map_does() {
    let names = ["pepper", "Salt", "salt", "", "sal", "ñame", "zest", "égg", "a\u{10000}", "a\u{ffff}"];
    let mut ing = Ingredients::new();
    let mut map = std::collections::BTreeMap::new();
    for (i, n) in names.iter().enumerate() {
        ing.insert(n.to_string(), i.to_string());
        map.insert(n.to_string(), i.to_string());
    }
    ing.insert("sal".to_string(), "again".to_string());
    map.insert("sal".to_string(), "again".to_string());
    let expected: Vec<(String, String)> = map.into_iter().collect();
    assert_eq!(ing.pairs().clone(), expected);
    for a in names {
        for b in names {
            assert_eq!(business::ingredients::name_is_before(a, b), a < b, "{:?} < {:?}", a, b);
        }
    }
}

#[test]
fn order_by_key_is_stable_and_puts_missing_keys_first() {
    let items = vec![(Some(2), 'a'), (None, 'b'), (Some(0), 'c'), (Some(2), 'd'), (None, 'e')];
    let out = order_by_key(items, 3);
    let letters: String = out.into_iter().map(|x| x.1).collect();
    assert_eq!(letters, "becad");
}
