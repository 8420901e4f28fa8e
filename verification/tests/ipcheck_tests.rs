use qbit_killswitch::ipcheck::{fetch_ip_begin, fetch_ip_next, FetchStep};
use qbit_killswitch::state::IpAddress;

#[test]
fn fetch_tries_urls_in_order_and_stops_at_first_ip() {
    assert_eq!(fetch_ip_begin(3), FetchStep::Try(0));
    assert_eq!(fetch_ip_next(3, 0, None), FetchStep::Try(1));
    assert_eq!(fetch_ip_next(3, 1, Some(IpAddress::V4(7))), FetchStep::Found(IpAddress::V4(7)));
}

#[test]
fn fetch_is_exhausted_when_every_url_fails() {
    assert_eq!(fetch_ip_begin(0), FetchStep::Exhausted);
    assert_eq!(fetch_ip_next(2, 1, None), FetchStep::Exhausted);
    assert_eq!(fetch_ip_next(1, 0, None), FetchStep::Exhausted);
}

#[test]
fn driving_the_fetch_returns_the_first_success() {
    let outcomes = [None, None, Some(IpAddress::V6(1)), Some(IpAddress::V4(2))];
    let mut step = fetch_ip_begin(outcomes.len());
    let mut tried = Vec::new();
    let result = loop {
        match step {
            FetchStep::Try(i) => {
                tried.push(i);
                step = fetch_ip_next(outcomes.len(), i, outcomes[i]);
            }
            FetchStep::Found(a) => break Some(a),
            FetchStep::Exhausted => break None,
        }
    };
    assert_eq!(result, Some(IpAddress::V6(1)));
    assert_eq!(tried, vec![0, 1, 2]);
}
