use vigil_reporter::{authorization_header, cpu_load_divisor, delivery_event, report_url, Event};

#[test]
fn report_url_is_exact() {
    assert_eq!(report_url("http://h", "p", "n"), "http://h/reporter/p/n/");
}

#[test]
fn report_url_keeps_base_as_given() {
    assert_eq!(report_url("http://h/", "a b", ""), "http://h//reporter/a b//");
}

#[test]
fn authorization_is_basic_with_empty_user() {
    assert_eq!(authorization_header("tok"), "Basic OnRvaw==");
}

#[test]
fn authorization_of_empty_token() {
    // base64 of ":" alone
    assert_eq!(authorization_header(""), "Basic Og==");
}

#[test]
fn cpu_load_divides_by_cpu_count() {
    let d = cpu_load_divisor(4);
    assert_eq!(d, 4);
    assert_eq!(2.0f64 / d as f64, 0.5);
}

#[test]
fn cpu_load_with_no_cpus_keeps_load_average() {
    let d = cpu_load_divisor(0);
    assert_eq!(d, 1);
    assert_eq!(2.0f64 / d as f64, 2.0);
}

#[test]
fn any_2xx_status_is_delivered() {
    assert_eq!(delivery_event(Some(200)), Event::Delivered);
    assert_eq!(delivery_event(Some(204)), Event::Delivered);
    assert_eq!(delivery_event(Some(299)), Event::Delivered);
}

#[test]
fn other_statuses_and_transport_errors_fail() {
    assert_eq!(delivery_event(Some(199)), Event::Failed);
    assert_eq!(delivery_event(Some(300)), Event::Failed);
    assert_eq!(delivery_event(Some(404)), Event::Failed);
    assert_eq!(delivery_event(Some(500)), Event::Failed);
    assert_eq!(delivery_event(None), Event::Failed);
}
