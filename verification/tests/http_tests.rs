use rust_features::http::delay_url;

#[test]
fn test_delay_url_sample() {
    assert_eq!(delay_url(5), "http://httpbin.org/delay/5");
}

#[test]
fn test_delay_url_zero() {
    assert_eq!(delay_url(0), "http://httpbin.org/delay/0");
}

#[test]
fn test_delay_url_two_digits() {
    assert_eq!(delay_url(30), "http://httpbin.org/delay/30");
}
