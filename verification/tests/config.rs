use tauri_plugin_localhost::config::{port_text, Builder, Scheduling};
use tauri_plugin_localhost::scheduler::{on_accept, serve_plan, Admission, Driver, ServePlan};

#[test]
fn builder_defaults_to_loopback_address() {
    let config = Builder::new(1430).build(false, None);
    assert_eq!(config.host(), "127.0.0.1");
    assert_eq!(config.port(), 1430);
    assert_eq!(config.scheduling(), Scheduling::Multiplexed);
    assert!(!config.dev_mode());
    assert_eq!(config.dev_url(), None);
    assert_eq!(config.bind_address(), "127.0.0.1:1430");
}

#[test]
fn blocking_builder_defaults_to_localhost() {
    let config = Builder::new(80).scheduling(Scheduling::Blocking).build(false, None);
    assert_eq!(config.host(), "localhost");
    assert_eq!(config.scheduling(), Scheduling::Blocking);
    assert_eq!(config.bind_address(), "localhost:80");
}

#[test]
fn builder_host_is_used_when_chosen() {
    let config = Builder::new(8080).host("0.0.0.0").build(false, None);
    assert_eq!(config.host(), "0.0.0.0");
    assert_eq!(config.bind_address(), "0.0.0.0:8080");
    let config = Builder::new(8080)
        .host("0.0.0.0")
        .scheduling(Scheduling::Blocking)
        .host("::1")
        .build(false, None);
    assert_eq!(config.host(), "::1");
    assert_eq!(config.scheduling(), Scheduling::Blocking);
}

#[test]
fn proxy_base_needs_dev_mode_and_url() {
    let url = || Some("http://localhost:1420/".to_string());
    assert_eq!(Builder::new(1).build(true, url()).proxy_base(), Some("http://localhost:1420/"));
    assert_eq!(Builder::new(1).build(false, url()).proxy_base(), None);
    assert_eq!(Builder::new(1).build(true, None).proxy_base(), None);
    assert_eq!(Builder::new(1).build(false, None).proxy_base(), None);
    let config = Builder::new(1).build(false, url());
    assert_eq!(config.dev_url(), Some("http://localhost:1420/"));
    assert!(!config.dev_mode());
}

#[test]
fn port_text_is_the_decimal_numeral() {
    assert_eq!(port_text(0), "0");
    assert_eq!(port_text(7), "7");
    assert_eq!(port_text(10), "10");
    assert_eq!(port_text(80), "80");
    assert_eq!(port_text(1009), "1009");
    assert_eq!(port_text(65535), "65535");
    for port in [1u16, 9, 99, 100, 443, 1430, 8080, 12345, 60000] {
        assert_eq!(port_text(port), port.to_string());
    }
}

#[test]
fn blocking_gateway_runs_on_its_own_thread() {
    let expected = ServePlan { driver: Driver::BlockingThread, concurrent: false, keep_alive: false };
    assert_eq!(serve_plan(Scheduling::Blocking, false), expected);
    assert_eq!(serve_plan(Scheduling::Blocking, true), expected);
}

#[test]
fn multiplexed_gateway_attaches_or_provides_a_scheduler() {
    assert_eq!(
        serve_plan(Scheduling::Multiplexed, true),
        ServePlan { driver: Driver::AmbientScheduler, concurrent: true, keep_alive: true }
    );
    assert_eq!(
        serve_plan(Scheduling::Multiplexed, false),
        ServePlan { driver: Driver::DedicatedScheduler, concurrent: true, keep_alive: true }
    );
}

#[test]
fn failed_accept_is_skipped() {
    assert_eq!(on_accept(true), Admission::Serve);
    assert_eq!(on_accept(false), Admission::Skip);
}
