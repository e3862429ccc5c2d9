use linear_sync::text::{decimal, pad_with_dots};

#[test]
fn decimal_numbers() {
    for n in [0usize, 1, 9, 10, 11, 99, 100, 1234567890, usize::MAX] {
        assert_eq!(decimal(n), format!("{}", n));
    }
}

#[test]
fn dots_fill_up_to_the_width() {
    assert_eq!(pad_with_dots("ab".to_string(), 5), "ab...");
    assert_eq!(pad_with_dots("abcde".to_string(), 5), "abcde");
    assert_eq!(pad_with_dots("abcdef".to_string(), 5), "abcdef");
    assert_eq!(pad_with_dots("é😀".to_string(), 4), "é😀..");
    assert_eq!(pad_with_dots("x ".to_string(), 40), format!("{:.<40}", "x "));
}
