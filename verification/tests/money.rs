use accountir::money;
use accountir::queries::{DetectedSubscription, SubscriptionFrequency};
use accountir::date::Date;
use accountir::tui::theme::Theme;
use accountir::tui::views::csv_import;
use accountir::tui::views::entry_form;
use accountir::tui::views::plaid_staged;
use accountir::tui::views::subscriptions::{SubscriptionsModal, SubscriptionsPainting};
use accountir::tui::widgets;

fn statement_amount(s: &str) -> Option<i64> {
    let s = s.trim();
    let (negative, s) =
        if let Some(inner) = s.strip_prefix('(').and_then(|s| s.strip_suffix(')')) {
            (true, inner)
        } else if let Some(rest) = s.strip_prefix('-') {
            (true, rest)
        } else {
            (false, s)
        };
    let cleaned: String =
        s.chars().filter(|c| c.is_ascii_digit() || *c == '.' || *c == '-').collect();
    let value: f64 = cleaned.parse().ok()?;
    let cents = (value * 100.0).round() as i64;
    Some(if negative { -cents } else { cents })
}

fn typed_amount(s: &str) -> i64 {
    if s.is_empty() {
        return 0;
    }
    if let Ok(f) = s.parse::<f64>() {
        return (f * 100.0).round() as i64;
    }
    s.parse().unwrap_or(0)
}

#[test]
fn amounts_of_statements_are_read_as_doubles() {
    let samples = [
        "", "0", "1", "12.5", "12.50", "-12.50", "(12.50)", "$1,234.56", "($1,234.56)", "1.005",
        "1.004999", "2.675", "0.285", "1.115", "99999999.99", "abc", "-", ".", ".5", "5.", "1.2.3",
        "--5", "1-2", "  42.42  ", "(-5)", "9007199254740993", "92233720368547758.07",
        "92233720368547758.08", "123456789012345678901234567890", "-123456789012345678901234567890",
        "0.0049999999999999999", "0.005", "0.015", "0.145", "1000000.005", "USD 12.00", "+7",
    ];
    for s in samples {
        assert_eq!(csv_import::parse_amount(s), statement_amount(s), "{:?}", s);
    }
    for n in 0..4000u32 {
        let s = format!("{}.{:03}", n / 1000, n % 1000);
        assert_eq!(csv_import::parse_amount(&s), statement_amount(&s), "{:?}", s);
    }
}

#[test]
fn typed_amounts_are_read_as_doubles() {
    let samples = [
        "", "0", "1", "12.5", "12.50", "-12.50", "1.005", "2.675", ".5", "5.", "1.2.3", "--5",
        "1-2", ".", "-", "-.", "-.5", "99999999.99", "9007199254740993", "10000000000000000000",
    ];
    for s in samples {
        assert_eq!(entry_form::parse_amount(s), typed_amount(s), "{:?}", s);
    }
}

#[test]
fn exact_amounts() {
    assert_eq!(csv_import::parse_amount("$1,234.56"), Some(123456));
    assert_eq!(csv_import::parse_amount("(12.50)"), Some(-1250));
    assert_eq!(csv_import::parse_amount("-0.01"), Some(-1));
    assert_eq!(csv_import::parse_amount("x"), None);
    assert_eq!(entry_form::parse_amount("100.50"), 10050);
    assert_eq!(entry_form::parse_amount(""), 0);
}

#[test]
fn cents_are_written_as_dollars() {
    assert_eq!(money::dollar_text(0), "0.00");
    assert_eq!(money::dollar_text(123456), "1234.56");
    assert_eq!(money::signed_dollar_text(-5), "-0.05");
    assert_eq!(widgets::format_currency(-123456), "($1234.56)");
    assert_eq!(widgets::format_currency(5), "$0.05");
    assert_eq!(plaid_staged::format_amount(-1205), "(12.05)");
    assert_eq!(entry_form::format_cents(-1205), "12.05");
    for cents in [0i64, 1, 9, 10, 99, 100, 101, 123456789, 4503599627370495] {
        assert_eq!(widgets::format_currency(cents), format!("${:.2}", cents as f64 / 100.0));
        let shown = format!("(${:.2})", cents as f64 / 100.0);
        if cents > 0 {
            assert_eq!(widgets::format_currency(-cents), shown);
        }
    }
}

#[test]
fn sums_wrap_around() {
    assert_eq!(money::plus(i64::MAX, 1), i64::MIN);
    assert_eq!(money::minus(i64::MIN, 1), i64::MAX);
    assert_eq!(money::negated(i64::MIN), i64::MIN);
    assert_eq!(money::negated(7), -7);
}

fn subscription(amount: i64, frequency: SubscriptionFrequency) -> DetectedSubscription {
    DetectedSubscription {
        memo: "Paper".to_string(),
        frequency,
        avg_amount: amount,
        occurrence_count: 4,
        last_date: Date { year: 2024, month: 5, day: 6 },
    }
}

fn monthly(amount: i64, frequency: SubscriptionFrequency) -> i64 {
    let factor = match frequency {
        SubscriptionFrequency::Weekly => 4.33,
        SubscriptionFrequency::Biweekly => 2.17,
        SubscriptionFrequency::Monthly => 1.0,
        SubscriptionFrequency::Quarterly => 1.0 / 3.0,
        SubscriptionFrequency::Annual => 1.0 / 12.0,
    };
    (amount.abs() as f64 * factor).round() as i64
}

#[test]
fn subscriptions_cost_so_much_a_month() {
    let all = [
        SubscriptionFrequency::Weekly,
        SubscriptionFrequency::Biweekly,
        SubscriptionFrequency::Monthly,
        SubscriptionFrequency::Quarterly,
        SubscriptionFrequency::Annual,
    ];
    for amount in [1i64, 50, 999, 1234, 100000, -4999, 123456789, 9007199254740993] {
        for frequency in all {
            let mut modal = SubscriptionsModal::new();
            modal.show(vec![subscription(amount, frequency)]);
            let expected = monthly(amount, frequency);
            let text = format!("${}.{:02}", expected / 100, expected % 100);
            assert!(modal.is_drawable(20));
            match modal.render(20, &Theme::dark()).unwrap() {
                SubscriptionsPainting::Table { title, .. } => {
                    assert!(title.contains(&text), "{} {:?} {}", amount, title, text);
                }
                SubscriptionsPainting::Empty(_) => panic!("expected a table"),
            }
        }
    }
    assert!(SubscriptionsModal::new().render(20, &Theme::dark()).is_none());
}
