use hbbs_enterprise::keyed::KeyedList;
use hbbs_enterprise::text::{
    bytes_eq, chars_of, clone_strings, comma_list, contains_str, contains_substring,
    decimal_string, digit_str, find_str, hex_bytes_string, hex_string, str_eq, without_str,
};

#[test]
fn texts_are_compared_and_searched() {
    assert!(str_eq("", ""));
    assert!(str_eq("añ√", "añ√"));
    assert!(!str_eq("a", "b"));
    assert!(!str_eq("a", "ab"));
    assert!(bytes_eq(&[1, 2], &[1, 2]));
    assert!(!bytes_eq(&[1, 2], &[1, 3]));
    assert!(!bytes_eq(&[1, 2], &[1]));
    let list = vec!["a".to_string(), "b".to_string(), "a".to_string()];
    assert!(contains_str(&list, "b"));
    assert!(!contains_str(&list, "c"));
    assert_eq!(find_str(&list, "a"), Some(0));
    assert_eq!(find_str(&list, "b"), Some(1));
    assert_eq!(find_str(&list, "c"), None);
    assert_eq!(clone_strings(&list), list);
    assert_eq!(without_str(&list, "a"), vec!["b"]);
    assert_eq!(without_str(&list, "c"), list);
    assert_eq!(chars_of("aé"), vec!['a', 'é']);
    assert!(contains_substring("hello", "ell"));
    assert!(contains_substring("hello", ""));
    assert!(contains_substring("hello", "hello"));
    assert!(contains_substring("héllo", "éll"));
    assert!(!contains_substring("hello", "hellos"));
    assert!(!contains_substring("hello", "elo"));
    assert!(contains_substring("", ""));
    assert!(!contains_substring("", "a"));
}

#[test]
fn lists_are_split_at_commas() {
    assert_eq!(comma_list("a,b,,c"), vec!["a", "b", "c"]);
    assert_eq!(comma_list(",a,"), vec!["a"]);
    assert_eq!(comma_list(",,"), Vec::<String>::new());
    assert_eq!(comma_list("é,√"), vec!["é", "√"]);
    assert_eq!(comma_list(" a , b "), vec![" a ", " b "]);
}

#[test]
fn numbers_are_written_out() {
    assert_eq!(decimal_string(0), "0");
    assert_eq!(decimal_string(9), "9");
    assert_eq!(decimal_string(10), "10");
    assert_eq!(decimal_string(u64::MAX), "18446744073709551615");
    assert_eq!(hex_string(0, 8), "00000000");
    assert_eq!(hex_string(0xcbf43926, 8), "cbf43926");
    assert_eq!(hex_string(0x1ff, 2), "ff");
    assert_eq!(hex_string(7, 0), "");
    assert_eq!(hex_bytes_string(&[0x00, 0x0f, 0xa0, 0xff]), "000fa0ff");
    assert_eq!(hex_bytes_string(&[]), "");
    assert_eq!(digit_str(0), "0");
    assert_eq!(digit_str(15), "f");
}

#[test]
fn keyed_lists_hold_one_value_per_key() {
    let mut t: KeyedList<u32> = KeyedList::new();
    assert_eq!(t.len(), 0);
    t.put("a".to_string(), 1);
    t.put("b".to_string(), 2);
    t.put("a".to_string(), 3);
    assert_eq!(t.len(), 2);
    assert_eq!(t.get("a"), Some(&3));
    assert_eq!(t.get("c"), None);
    assert!(t.contains_key("b"));
    assert_eq!(t.position("b"), Some(1));
    assert_eq!(t.key_at(0), "a");
    assert_eq!(*t.value_at(1), 2);
    t.set_at(1, 5);
    assert_eq!(t.get("b"), Some(&5));
    assert_eq!(t.remove("a"), Some(3));
    assert_eq!(t.remove("a"), None);
    assert_eq!(t.key_at(0), "b");
    assert_eq!(t.remove_at(0), 5);
    assert_eq!(t.len(), 0);
}
