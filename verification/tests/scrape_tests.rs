use healthcheck_metrics::collector::{StatusCollector, SystemCollector, SystemSample, CPU_FULL_SCALE};
use healthcheck_metrics::publish::{
    ready_attributes, record_request, record_up, request_attributes, status_text, up_attributes,
    CPU_GAUGE, ERRORS_COUNTER, MEMORY_GAUGE, METER_NAME, REQUESTS_COUNTER, UP_COUNTER,
};
use healthcheck_metrics::request::{RequestObservation, SeriesLabels};
use healthcheck_metrics::scrape::{all_typed, handle_scrape, render_families, scrape_body};
use opentelemetry::metrics::{Meter, MeterProvider};
use opentelemetry_sdk::metrics::SdkMeterProvider;
use prometheus::Registry;
use std::sync::{Arc, Mutex};

fn observation(method: &str, path: &str, status: u16) -> RequestObservation {
    RequestObservation {
        method: method.to_string(),
        path: path.to_string(),
        status,
        elapsed_nanos: 1_000,
    }
}

fn pull_pipeline() -> (Registry, SdkMeterProvider, Meter) {
    let registry = Registry::new();
    let exporter = opentelemetry_prometheus::exporter()
        .with_registry(registry.clone())
        .build()
        .unwrap();
    let provider = SdkMeterProvider::builder().with_reader(exporter).build();
    let meter = provider.meter(METER_NAME);
    (registry, provider, meter)
}

fn series_total(body: &str, name: &str, needles: &[&str]) -> f64 {
    let mut total = 0.0;
    for line in body.lines() {
        if !line.starts_with(name) || !line[name.len()..].starts_with('{') {
            continue;
        }
        if needles.iter().all(|n| line.contains(n)) {
            let value = line.rsplit(' ').next().unwrap();
            total += value.parse::<f64>().unwrap();
        }
    }
    total
}

#[test]
fn body_is_the_encoded_text() {
    let bytes = "# HELP up ok\nup 1\n".as_bytes().to_vec();
    assert_eq!(scrape_body(Some(bytes)), "# HELP up ok\nup 1\n");
    assert_eq!(scrape_body(Some(Vec::new())), "");
    assert_eq!(scrape_body(Some("h\u{e9}llo".as_bytes().to_vec())), "h\u{e9}llo");
}

#[test]
fn failed_encoding_degrades_to_fixed_body() {
    assert_eq!(scrape_body(None), "Error encoding metrics");
}

#[test]
fn invalid_utf8_degrades_to_fixed_body() {
    assert_eq!(scrape_body(Some(vec![0xff, 0xfe, 0x41])), "Error encoding metrics");
    assert_eq!(scrape_body(Some(vec![0xc3])), "Error encoding metrics");
}

#[test]
fn empty_registry_gives_empty_document() {
    let registry = Registry::new();
    let response = handle_scrape(&registry);
    assert_eq!(response.status, 200);
    assert_eq!(response.body, "");
    assert_eq!(response.family_count, 0);
    assert!(response.warn_empty);
}

#[test]
fn empty_family_list_renders_empty_body() {
    let response = render_families(&Vec::new());
    assert_eq!(response.status, 200);
    assert_eq!(response.body, "");
    assert!(response.warn_empty);
}

#[test]
fn registered_counter_shows_in_scrape() {
    let registry = Registry::new();
    let counter = prometheus::IntCounter::new("jobs_done", "finished jobs").unwrap();
    registry.register(Box::new(counter.clone())).unwrap();
    counter.inc_by(7);
    let response = handle_scrape(&registry);
    assert_eq!(response.status, 200);
    assert_eq!(response.family_count, 1);
    assert!(!response.warn_empty);
    assert_eq!(
        response.body,
        "# HELP jobs_done finished jobs\n# TYPE jobs_done counter\njobs_done 7\n"
    );
}

#[test]
fn family_without_metrics_degrades_to_fixed_body() {
    let mut family = prometheus::proto::MetricFamily::default();
    family.set_name("lonely".to_string());
    let response = render_families(&vec![family]);
    assert_eq!(response.status, 200);
    assert_eq!(response.family_count, 1);
    assert!(!response.warn_empty);
    assert_eq!(response.body, "Error encoding metrics");
}

#[test]
fn untyped_family_degrades_to_fixed_body() {
    let mut family = prometheus::proto::MetricFamily::default();
    family.set_name("mystery".to_string());
    family.set_field_type(prometheus::proto::MetricType::UNTYPED);
    family.mut_metric().push(prometheus::proto::Metric::default());
    let mut typed = prometheus::proto::MetricFamily::default();
    typed.set_name("plain".to_string());
    typed.set_field_type(prometheus::proto::MetricType::GAUGE);
    typed.mut_metric().push(prometheus::proto::Metric::default());
    assert!(!all_typed(&vec![typed.clone(), family.clone()]));
    assert!(all_typed(&vec![typed.clone()]));
    assert!(all_typed(&Vec::new()));
    let response = render_families(&vec![typed.clone(), family]);
    assert_eq!(response.status, 200);
    assert_eq!(response.family_count, 2);
    assert_eq!(response.body, "Error encoding metrics");
    let fine = render_families(&vec![typed]);
    assert_eq!(fine.status, 200);
    assert_eq!(fine.body, "# TYPE plain gauge\nplain 0\n");
}

#[test]
fn status_is_written_in_decimal() {
    assert_eq!(status_text(0), "0");
    assert_eq!(status_text(7), "7");
    assert_eq!(status_text(10), "10");
    assert_eq!(status_text(200), "200");
    assert_eq!(status_text(404), "404");
    assert_eq!(status_text(500), "500");
    assert_eq!(status_text(65535), "65535");
}

#[test]
fn request_attributes_are_method_path_status() {
    let labels = SeriesLabels { method: "GET".to_string(), path: "/api/fail".to_string(), status: 500 };
    let attributes = request_attributes(&labels);
    assert_eq!(attributes.len(), 3);
    assert_eq!(attributes[0].key, "method");
    assert_eq!(attributes[0].value, "GET");
    assert_eq!(attributes[1].key, "path");
    assert_eq!(attributes[1].value, "/api/fail");
    assert_eq!(attributes[2].key, "status");
    assert_eq!(attributes[2].value, "500");
}

#[test]
fn instruments_keep_their_names() {
    assert_eq!(METER_NAME, "healthcheck-service");
    assert_eq!(REQUESTS_COUNTER, "api_requests_total");
    assert_eq!(ERRORS_COUNTER, "api_errors_total");
    assert_eq!(UP_COUNTER, "service.up");
    assert_eq!(CPU_GAUGE, "system_cpu_usage");
    assert_eq!(MEMORY_GAUGE, "system_mem_used");
}

#[test]
fn ready_attributes_mark_the_service_ready() {
    let attributes = ready_attributes();
    assert_eq!(attributes.len(), 1);
    assert_eq!(attributes[0].key, "status");
    assert_eq!(attributes[0].value, "ready");
}

#[test]
fn up_attributes_mark_the_service_alive() {
    let attributes = up_attributes();
    assert_eq!(attributes.len(), 1);
    assert_eq!(attributes[0].key, "status");
    assert_eq!(attributes[0].value, "alive");
}

#[test]
fn three_failures_and_two_successes_are_split_by_path() {
    let (registry, _provider, meter) = pull_pipeline();
    for _ in 0..3 {
        let rec = record_request(&meter, &observation("GET", "/api/fail", 500));
        assert_eq!(rec.error_increment, 1);
    }
    for _ in 0..2 {
        let rec = record_request(&meter, &observation("GET", "/api/example", 200));
        assert_eq!(rec.error_increment, 0);
    }
    let response = handle_scrape(&registry);
    assert_eq!(response.status, 200);
    assert!(!response.warn_empty);
    let body = response.body.as_str();
    assert_eq!(series_total(body, "api_requests_total_total", &[]), 5.0);
    assert_eq!(series_total(body, "api_errors_total_total", &[]), 3.0);
    assert_eq!(series_total(body, "api_requests_total_total", &["path=\"/api/fail\""]), 3.0);
    assert_eq!(series_total(body, "api_requests_total_total", &["path=\"/api/example\""]), 2.0);
    assert_eq!(series_total(body, "api_errors_total_total", &["path=\"/api/fail\""]), 3.0);
    assert_eq!(series_total(body, "api_errors_total_total", &["path=\"/api/example\""]), 0.0);
    assert_eq!(
        series_total(
            body,
            "api_requests_total_total",
            &["method=\"GET\"", "path=\"/api/fail\"", "status=\"500\""]
        ),
        3.0
    );
}

#[test]
fn scraped_request_counters_sum_to_number_of_requests() {
    let (registry, _provider, meter) = pull_pipeline();
    let tuples: Vec<(&str, &str, u16)> = vec![
        ("GET", "/a", 200),
        ("POST", "/a", 201),
        ("GET", "/b", 404),
        ("GET", "/a", 200),
        ("DELETE", "/c", 503),
        ("GET", "/b", 404),
        ("GET", "/a", 399),
    ];
    let mut previous = 0.0;
    for (method, path, status) in tuples.iter() {
        record_request(&meter, &observation(method, path, *status));
        let body = handle_scrape(&registry).body;
        let now = series_total(&body, "api_requests_total_total", &[]);
        assert!(now >= previous);
        previous = now;
    }
    let body = handle_scrape(&registry).body;
    assert_eq!(series_total(&body, "api_requests_total_total", &[]), 7.0);
    assert_eq!(series_total(&body, "api_errors_total_total", &[]), 3.0);
    assert_eq!(series_total(&body, "api_requests_total_total", &["path=\"/a\"", "status=\"200\""]), 2.0);
    assert_eq!(series_total(&body, "api_errors_total_total", &["status=\"399\""]), 0.0);
    assert_eq!(series_total(&body, "api_errors_total_total", &["status=\"404\""]), 2.0);
}

#[test]
fn up_counter_shows_after_a_cycle() {
    let (registry, _provider, meter) = pull_pipeline();
    let before = handle_scrape(&registry);
    assert_eq!(series_total(&before.body, "service_up_total", &[]), 0.0);
    let mut collector = StatusCollector::new();
    let report = collector.cycle();
    record_up(&meter, &report);
    let report = collector.cycle();
    record_up(&meter, &report);
    let body = handle_scrape(&registry).body;
    assert_eq!(series_total(&body, "service_up_total", &["status=\"alive\""]), 2.0);
}

#[test]
fn gauges_appear_once_a_cycle_has_completed() {
    let (registry, _provider, meter) = pull_pipeline();
    let cell = Arc::new(Mutex::new(SystemCollector::new()));
    let read = cell.clone();
    let _cpu = meter
        .f64_observable_gauge(CPU_GAUGE)
        .with_callback(move |observer| {
            if let Some(reading) = read.lock().unwrap().reading() {
                observer.observe(reading.cpu_millionths as f64 / CPU_FULL_SCALE as f64, &[]);
            }
        })
        .build();
    let read = cell.clone();
    let _mem = meter
        .u64_observable_gauge(MEMORY_GAUGE)
        .with_callback(move |observer| {
            if let Some(reading) = read.lock().unwrap().reading() {
                observer.observe(reading.mem_used_bytes, &[]);
            }
        })
        .build();

    let before = handle_scrape(&registry);
    assert_eq!(before.status, 200);
    assert!(!before.body.contains("system_cpu_usage"));
    assert!(!before.body.contains("service_up_total"));

    let mut status = StatusCollector::new();
    record_up(&meter, &status.cycle());
    cell.lock().unwrap().cycle(Some(SystemSample { cpu_millionths: 2_500_000, mem_used_bytes: 8192 }));

    let after = handle_scrape(&registry);
    assert_eq!(after.status, 200);
    assert!(!after.warn_empty);
    let cpu_line = after.body.lines().find(|l| l.starts_with("system_cpu_usage{")).unwrap();
    assert_eq!(cpu_line.rsplit(' ').next().unwrap().parse::<f64>().unwrap(), 1.0);
    let mem_line = after.body.lines().find(|l| l.starts_with("system_mem_used{")).unwrap();
    assert_eq!(mem_line.rsplit(' ').next().unwrap().parse::<f64>().unwrap(), 8192.0);
    assert_eq!(series_total(&after.body, "service_up_total", &[]), 1.0);

    cell.lock().unwrap().cycle(None);
    let stale = handle_scrape(&registry);
    let mem_line = stale.body.lines().find(|l| l.starts_with("system_mem_used{")).unwrap();
    assert_eq!(mem_line.rsplit(' ').next().unwrap().parse::<f64>().unwrap(), 8192.0);
}
