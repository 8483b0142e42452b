use meso::error::DecodeError;
use meso::forecast_codec::{
    is_marker, is_separator, lines_of, parse_token, read_record, tokenize, ForecastCodec,
    TemperatureForecast,
};

fn chars(text: &str) -> Vec<char> {
    text.chars().collect()
}

fn missing() -> Result<TemperatureForecast, DecodeError> {
    Err(DecodeError::MissingField("temps"))
}

#[test]
fn single_record_gives_high_and_low() {
    assert_eq!(ForecastCodec::decode("TXN 55 78"), Ok(TemperatureForecast { high: 78, low: 55 }));
}

#[test]
fn last_of_two_records_wins() {
    assert_eq!(
        ForecastCodec::decode("TXN 55 78\nTXN 60 81"),
        Ok(TemperatureForecast { high: 81, low: 60 })
    );
    assert_eq!(
        ForecastCodec::decode("TXN 55 78\nX/N 1 2\nTXN 60 81\nTMP 3 4\n"),
        Ok(TemperatureForecast { high: 81, low: 60 })
    );
}

#[test]
fn text_without_record_has_no_temperatures() {
    assert_eq!(ForecastCodec::decode("TMP 55 78\nDPT 50 51"), missing());
    assert_eq!(ForecastCodec::decode("txn 55 78"), missing());
    assert_eq!(ForecastCodec::decode("TXN55 78 80"), missing());
    assert_eq!(ForecastCodec::decode("X TXN 55 78"), missing());
}

#[test]
fn empty_and_blank_input_has_no_temperatures() {
    assert_eq!(ForecastCodec::decode(""), missing());
    assert_eq!(ForecastCodec::decode("\n\n\n"), missing());
    assert_eq!(ForecastCodec::decode("   \t \r\n  "), missing());
}

#[test]
fn short_record_has_no_temperatures() {
    assert_eq!(ForecastCodec::decode("TXN"), missing());
    assert_eq!(ForecastCodec::decode("TXN 55"), missing());
    assert_eq!(ForecastCodec::decode("TXN 55 \n78"), missing());
}

#[test]
fn unreadable_numbers_have_no_temperatures() {
    assert_eq!(ForecastCodec::decode("TXN a b"), missing());
    assert_eq!(ForecastCodec::decode("TXN 55 7x"), missing());
    assert_eq!(ForecastCodec::decode("TXN 5.5 78"), missing());
    assert_eq!(ForecastCodec::decode("TXN 55 2147483648"), missing());
    assert_eq!(ForecastCodec::decode("TXN - 78"), missing());
}

#[test]
fn last_record_decides_even_when_unreadable() {
    assert_eq!(ForecastCodec::decode("TXN 55 78\nTXN x y"), missing());
    assert_eq!(ForecastCodec::decode("TXN 55 78\nTXN 60"), missing());
    assert_eq!(
        ForecastCodec::decode("TXN x y\nTXN 60 81"),
        Ok(TemperatureForecast { high: 81, low: 60 })
    );
    assert_eq!(
        ForecastCodec::decode("TXN\nTXN 60 81"),
        Ok(TemperatureForecast { high: 81, low: 60 })
    );
}

#[test]
fn separators_and_line_ends_are_tolerated() {
    let expected = Ok(TemperatureForecast { high: 78, low: 55 });
    assert_eq!(ForecastCodec::decode("  TXN\t55   78  "), expected);
    assert_eq!(ForecastCodec::decode("header\r\nTXN 55 78\r\n"), expected);
    assert_eq!(ForecastCodec::decode("TXN\u{a0}55\u{3000}78"), expected);
    assert_eq!(ForecastCodec::decode("TXN 55 78 80 81"), expected);
    assert_eq!(ForecastCodec::decode("\nTXN 55 78\n\n"), expected);
}

#[test]
fn signed_and_extreme_temperatures() {
    assert_eq!(ForecastCodec::decode("TXN -12 +5"), Ok(TemperatureForecast { high: 5, low: -12 }));
    assert_eq!(
        ForecastCodec::decode("TXN -2147483648 2147483647"),
        Ok(TemperatureForecast { high: i32::MAX, low: i32::MIN })
    );
    assert_eq!(ForecastCodec::decode("TXN -2147483649 1"), missing());
    assert_eq!(ForecastCodec::decode("TXN 000000000000055 0078"), Ok(TemperatureForecast { high: 78, low: 55 }));
}

#[test]
fn separator_agrees_with_unicode_white_space() {
    let mut code: u32 = 0;
    while code <= 0x10FFFF {
        if let Some(c) = char::from_u32(code) {
            assert_eq!(is_separator(c), c.is_whitespace(), "U+{:04X}", code);
        }
        code += 1;
    }
}

#[test]
fn token_parsing_agrees_with_integer_parsing() {
    let samples = [
        "", "0", "-0", "+0", "7", "42", "-42", "+42", "0042", "2147483647", "2147483648",
        "-2147483648", "-2147483649", "99999999999999999999999", "-", "+", "--1", "+-1", "1-",
        "1+", "1 ", "1e3", "0x10", "1_000", "٣", "1.0", "-00000000002147483648",
    ];
    for sample in samples {
        assert_eq!(parse_token(&chars(sample)), sample.parse::<i32>().ok(), "{:?}", sample);
    }
}

#[test]
fn tokens_agree_with_whitespace_splitting() {
    let samples = [
        "", " ", "a", " a", "a ", "a b", "  a   b  ", "TXN\t55 78", "a\u{2003}b\u{85}c", "\r", "x\ry",
        "TXN 55 78\r",
    ];
    for sample in samples {
        let expected: Vec<Vec<char>> = sample.split_whitespace().map(chars).collect();
        assert_eq!(tokenize(&chars(sample)), expected, "{:?}", sample);
    }
}

#[test]
fn lines_are_split_at_line_feeds() {
    assert_eq!(lines_of(""), vec![chars("")]);
    assert_eq!(lines_of("abc"), vec![chars("abc")]);
    assert_eq!(lines_of("a\nb"), vec![chars("a"), chars("b")]);
    assert_eq!(lines_of("a\n\nb\n"), vec![chars("a"), chars(""), chars("b"), chars("")]);
    assert_eq!(lines_of("a\r\nb"), vec![chars("a\r"), chars("b")]);
    let samples = ["", "abc", "a\nb", "a\n\nb\n", "\n", "a\r\nb", "é\nü"];
    for sample in samples {
        let expected: Vec<Vec<char>> = sample.split('\n').map(chars).collect();
        assert_eq!(lines_of(sample), expected, "{:?}", sample);
    }
}

#[test]
fn marker_is_exact() {
    assert!(is_marker(&chars("TXN")));
    assert!(!is_marker(&chars("TXN ")));
    assert!(!is_marker(&chars("TX")));
    assert!(!is_marker(&chars("TXNN")));
    assert!(!is_marker(&chars("txn")));
    assert!(!is_marker(&chars("")));
}

#[test]
fn record_reads_low_then_high() {
    let fields = vec![chars("TXN"), chars("55"), chars("78")];
    assert_eq!(read_record(&fields), Some(TemperatureForecast { high: 78, low: 55 }));
    assert_eq!(read_record(&vec![chars("TXN"), chars("55")]), None);
    assert_eq!(read_record(&vec![chars("TXN"), chars("55"), chars("x")]), None);
    assert_eq!(read_record(&vec![chars("TXN"), chars("x"), chars("78")]), None);
    assert_eq!(read_record(&vec![]), None);
}
