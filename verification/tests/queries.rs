use futures_wire::errors::Error;
use futures_wire::futures::rest_model::{is_allowed_period, HistoryQuery};

fn query(period: Option<&str>) -> HistoryQuery {
    HistoryQuery {
        start_time: None,
        end_time: None,
        from_id: None,
        limit: 30,
        symbol: "BTCUSDT".to_string(),
        interval: None,
        period: period.map(|p| p.to_string()),
    }
}

#[test]
fn validate_accepts_an_allowed_period() {
    assert_eq!(query(Some("1h")).validate(), Ok(()));
}

#[test]
fn validate_rejects_a_period_outside_the_set() {
    assert_eq!(query(Some("3h")).validate(), Err(Error::InvalidPeriod("3h".to_string())));
}

#[test]
fn validate_accepts_a_query_without_period() {
    assert_eq!(query(None).validate(), Ok(()));
}

#[test]
fn validate_accepts_each_of_the_nine_periods() {
    for token in ["5m", "15m", "30m", "1h", "2h", "4h", "6h", "12h", "1d"] {
        assert_eq!(query(Some(token)).validate(), Ok(()));
        assert!(is_allowed_period(token));
    }
}

#[test]
fn validate_is_exact_about_case_and_space() {
    for token in ["", "1H", " 1h", "1h ", "1m", "3d", "5", "m", "60m", "1w"] {
        assert_eq!(query(Some(token)).validate(), Err(Error::InvalidPeriod(token.to_string())));
        assert!(!is_allowed_period(token));
    }
}

#[test]
fn validate_leaves_the_other_fields_alone() {
    let mut q = query(Some("1d"));
    q.limit = 0;
    q.symbol = String::new();
    q.interval = Some("not an interval".to_string());
    q.start_time = Some(10);
    q.end_time = Some(1);
    assert_eq!(q.validate(), Ok(()));
}
