use coffee_shop::datetime::{NaiveDate, NaiveDateTime};
use coffee_shop::decimal::Decimal;
use coffee_shop::models::infra::sqlite_types::{SqliteDate, SqliteDateTime, SqliteDecimal};
use coffee_shop::text::{str_contains, str_eq, str_eq_ignore_ascii_case, str_is_blank};

/// A sequence of numbers that looks random and is the same on every run.
struct Numbers(u64);

impl Numbers {
    fn next(&mut self) -> u64 {
        self.0 ^= self.0 << 13;
        self.0 ^= self.0 >> 7;
        self.0 ^= self.0 << 17;
        self.0
    }

    fn below(&mut self, limit: u64) -> u64 {
        self.next() % limit
    }

    fn text(&mut self, alphabet: &[char], longest: u64) -> String {
        let length = self.below(longest + 1);
        (0..length).map(|_| alphabet[self.below(alphabet.len() as u64) as usize]).collect()
    }
}

#[test]
fn sweep_decimal_round_trip() {
    let mut numbers = Numbers(0x9E3779B97F4A7C15);
    for _ in 0..20_000 {
        let words = match numbers.below(4) {
            0 => (numbers.next() as u32, 0, 0),
            1 => (numbers.next() as u32, numbers.next() as u32, 0),
            2 => (numbers.next() as u32, numbers.next() as u32, numbers.next() as u32),
            _ => (numbers.below(1000) as u32, 0, 0),
        };
        let negative = numbers.below(2) == 1;
        let scale = numbers.below(29) as u32;
        let d = Decimal::from_parts_opt(words.0, words.1, words.2, negative, scale).unwrap();
        let text = SqliteDecimal(d).encode();
        assert_eq!(SqliteDecimal::decode(&text), Ok(SqliteDecimal(d)), "{}", text);
        let theirs = rust_decimal::Decimal::from_parts(words.0, words.1, words.2, negative, scale);
        assert_eq!(text, theirs.to_string());
    }
}

#[test]
fn sweep_date_time_round_trip() {
    let mut numbers = Numbers(0xD1B54A32D192ED03);
    let mut made = 0;
    while made < 20_000 {
        let year = match numbers.below(3) {
            0 => 1900 + numbers.below(200) as i32,
            1 => numbers.below(10_000) as i32,
            _ => numbers.below(524_286) as i32 - 262_143,
        };
        let month = 1 + numbers.below(12) as u32;
        let day = 1 + numbers.below(31) as u32;
        let Some(date) = NaiveDate::from_ymd_opt(year, month, day) else {
            continue;
        };
        let nanosecond = match numbers.below(4) {
            0 => 0,
            1 => numbers.below(1000) as u32 * 1_000_000,
            2 => numbers.below(1_000_000) as u32 * 1000,
            _ => numbers.below(1_000_000_000) as u32,
        };
        let t = date
            .and_hms_nano_opt(
                numbers.below(24) as u32,
                numbers.below(60) as u32,
                numbers.below(60) as u32,
                nanosecond,
            )
            .unwrap();
        let text = SqliteDateTime(t).encode();
        assert_eq!(SqliteDateTime::decode(&text), Ok(SqliteDateTime(t)), "{}", text);
        let day_text = SqliteDate(date).encode();
        assert_eq!(SqliteDate::decode(&day_text), Ok(SqliteDate(date)), "{}", day_text);
        made += 1;
    }
}

#[test]
fn sweep_date_time_text_is_read_as_characters_say() {
    let mut numbers = Numbers(0x2545F4914F6CDD1D);
    for _ in 0..5_000 {
        let text = format_fields(
            numbers.below(10_000) as i32,
            1 + numbers.below(12) as u32,
            1 + numbers.below(28) as u32,
            numbers.below(24) as u32,
            numbers.below(60) as u32,
            numbers.below(60) as u32,
        );
        let t = NaiveDateTime::from_text(&text).unwrap();
        assert_eq!(t.to_text(), text);
    }
}

fn format_fields(year: i32, month: u32, day: u32, hour: u32, minute: u32, second: u32) -> String {
    format!("{:04}-{:02}-{:02}T{:02}:{:02}:{:02}", year, month, day, hour, minute, second)
}

#[test]
fn sweep_texts_are_compared_as_the_standard_library_compares_them() {
    let mut numbers = Numbers(0x94D049BB133111EB);
    let alphabet = ['a', 'b', 'A', 'B', ' ', '\t', '@', '\u{e9}', '\u{a0}', 'z', 'Z'];
    for _ in 0..20_000 {
        let a = numbers.text(&alphabet, 6);
        let b = numbers.text(&alphabet, 3);
        assert_eq!(str_contains(&a, &b), a.contains(b.as_str()), "{:?} {:?}", a, b);
        assert_eq!(str_eq(&a, &b), a == b);
        assert_eq!(str_eq_ignore_ascii_case(&a, &b), a.eq_ignore_ascii_case(&b));
        assert_eq!(str_is_blank(&a), a.trim().is_empty(), "{:?}", a);
    }
}
