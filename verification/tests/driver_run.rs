use hwinfo::driver::{Driver, Reply, Request};
use hwinfo::records::{Baseboard, CPU, RAM};

fn strings(list: &[&str]) -> Vec<String> {
    list.iter().map(|text| text.to_string()).collect()
}

fn no_lines() -> Vec<String> {
    Vec::new()
}

fn failed(text: &str) -> Reply {
    Reply::Failed(text.to_string())
}

/// Brings a new report to the point where the display class is to be opened.
fn after_instrumentation() -> Driver {
    let mut driver = Driver::new();
    driver.accept(Reply::Done);
    driver.accept(Reply::Processors(Vec::new()));
    driver.accept(Reply::Baseboards(Vec::new()));
    driver.accept(Reply::Memory(Vec::new()));
    driver
}

/// Brings a new report to the point where the first adapter is to be opened.
fn after_listing(names: &[&str]) -> Driver {
    let mut driver = after_instrumentation();
    driver.accept(Reply::Done);
    driver.accept(Reply::Subkeys(strings(names)));
    driver
}

#[test]
fn whole_report() {
    let mut driver = Driver::new();
    let mut printed: Vec<String> = Vec::new();

    assert!(matches!(driver.request(), Request::Connect));
    printed.extend(driver.accept(Reply::Done));
    assert!(matches!(driver.request(), Request::QueryProcessors));
    printed.extend(driver.accept(Reply::Processors(vec![CPU {
        name: "Intel(R) Core(TM) i7".to_string(),
    }])));
    assert!(matches!(driver.request(), Request::QueryBaseboards));
    printed.extend(driver.accept(Reply::Baseboards(vec![Baseboard {
        manufacturer: "ASUSTeK".to_string(),
        product: "PRIME".to_string(),
    }])));
    assert!(matches!(driver.request(), Request::QueryMemory));
    printed.extend(driver.accept(Reply::Memory(vec![
        RAM { capacity: "8589934592".to_string() },
        RAM { capacity: "8589934592".to_string() },
    ])));
    assert!(matches!(driver.request(), Request::OpenClass));
    printed.extend(driver.accept(Reply::Done));
    assert!(matches!(driver.request(), Request::ListSubkeys));
    printed.extend(driver.accept(Reply::Subkeys(strings(&["0000", "0001", "Properties"]))));

    match driver.request() {
        Request::OpenAdapter(name) => assert_eq!(name, "0000"),
        other => panic!("{other:?}"),
    }
    printed.extend(driver.accept(Reply::Done));
    assert!(matches!(driver.request(), Request::ReadDescription));
    printed.extend(driver.accept(Reply::Text("First Adapter".to_string())));
    assert!(matches!(driver.request(), Request::ReadMemorySize));
    assert_eq!(driver.exit_code(), None);
    printed.extend(driver.accept(Reply::Number(4294967296)));

    match driver.request() {
        Request::OpenAdapter(name) => assert_eq!(name, "0001"),
        other => panic!("{other:?}"),
    }
    printed.extend(driver.accept(Reply::Done));
    printed.extend(driver.accept(Reply::Text("Second Adapter".to_string())));
    printed.extend(driver.accept(Reply::Number(536870912)));

    assert!(matches!(driver.request(), Request::Stop));
    assert_eq!(driver.exit_code(), Some(0));
    assert_eq!(driver.error_message(), None);
    assert_eq!(
        printed,
        strings(&[
            "CPU:        Intel(R) Core(TM) i7",
            "Baseboard:  ASUSTeK PRIME",
            "RAM:        16.0 GiB",
            "GPU:        First Adapter",
            "GPU RAM:    4.0 GiB",
            "GPU:        Second Adapter",
            "GPU RAM:    512.0 MiB",
        ])
    );
}

#[test]
fn each_line_comes_with_its_answer() {
    let mut driver = Driver::new();
    assert_eq!(driver.accept(Reply::Done), no_lines());
    assert_eq!(driver.accept(Reply::Processors(Vec::new())), strings(&["CPU:        "]));
    assert_eq!(driver.accept(Reply::Baseboards(Vec::new())), strings(&["Baseboard:   "]));
    assert_eq!(
        driver.accept(Reply::Memory(vec![
            RAM { capacity: "1024".to_string() },
            RAM { capacity: "not a number".to_string() },
        ])),
        strings(&["RAM:        1.0 KiB"])
    );
    assert_eq!(driver.accept(Reply::Done), no_lines());
    assert_eq!(driver.accept(Reply::Subkeys(strings(&["0007"]))), no_lines());
    assert_eq!(driver.accept(Reply::Done), no_lines());
    assert_eq!(driver.accept(Reply::Text("Adapter".to_string())), no_lines());
    assert_eq!(
        driver.accept(Reply::Number(1073741824)),
        strings(&["GPU:        Adapter", "GPU RAM:    1.0 GiB"])
    );
    assert_eq!(driver.exit_code(), Some(0));
}

#[test]
fn no_adapter_ends_the_report_after_the_listing() {
    let driver = after_listing(&["Properties", "Configuration"]);
    assert!(matches!(driver.request(), Request::Stop));
    assert_eq!(driver.exit_code(), Some(0));
    let driver = after_listing(&[]);
    assert!(matches!(driver.request(), Request::Stop));
    assert_eq!(driver.exit_code(), Some(0));
}

#[test]
fn adapters_are_read_in_listing_order() {
    let mut driver = after_listing(&["0002", "Properties", "0000"]);
    match driver.request() {
        Request::OpenAdapter(name) => assert_eq!(name, "0002"),
        other => panic!("{other:?}"),
    }
    driver.accept(Reply::Done);
    driver.accept(Reply::Text("a".to_string()));
    driver.accept(Reply::Number(1));
    match driver.request() {
        Request::OpenAdapter(name) => assert_eq!(name, "0000"),
        other => panic!("{other:?}"),
    }
}

#[test]
fn connection_failure_prints_nothing() {
    let mut driver = Driver::new();
    assert_eq!(driver.accept(failed("access denied")), no_lines());
    assert!(matches!(driver.request(), Request::Stop));
    assert_eq!(driver.exit_code(), Some(1));
    let message = driver.error_message().unwrap();
    assert!(!message.is_empty());
    assert_eq!(message, "connection error: access denied");

    assert_eq!(driver.accept(Reply::Processors(vec![CPU { name: "x".to_string() }])), no_lines());
    assert_eq!(driver.accept(Reply::Done), no_lines());
    assert!(matches!(driver.request(), Request::Stop));
    assert_eq!(driver.error_message().unwrap(), "connection error: access denied");
}

#[test]
fn message_is_not_empty_without_detail() {
    let mut driver = Driver::new();
    driver.accept(failed(""));
    assert_eq!(driver.error_message().unwrap(), "connection error: ");
    assert_eq!(driver.exit_code(), Some(1));
}

#[test]
fn query_failure_keeps_what_was_printed() {
    let mut driver = Driver::new();
    driver.accept(Reply::Done);
    assert_eq!(driver.accept(failed("invalid class")), no_lines());
    assert_eq!(driver.error_message().unwrap(), "query error: invalid class");

    let mut driver = Driver::new();
    driver.accept(Reply::Done);
    assert_eq!(driver.accept(Reply::Processors(Vec::new())).len(), 1);
    assert_eq!(driver.accept(failed("b")), no_lines());
    assert_eq!(driver.error_message().unwrap(), "query error: b");

    let mut driver = Driver::new();
    driver.accept(Reply::Done);
    driver.accept(Reply::Processors(Vec::new()));
    driver.accept(Reply::Baseboards(Vec::new()));
    assert_eq!(driver.accept(failed("m")), no_lines());
    assert_eq!(driver.error_message().unwrap(), "query error: m");
    assert_eq!(driver.exit_code(), Some(1));
}

#[test]
fn registry_path_failures() {
    let mut driver = after_instrumentation();
    assert_eq!(driver.accept(failed("no such key")), no_lines());
    assert_eq!(driver.error_message().unwrap(), "registry path error: no such key");

    let mut driver = after_instrumentation();
    driver.accept(Reply::Done);
    driver.accept(failed("listing"));
    assert_eq!(driver.error_message().unwrap(), "registry path error: listing");

    let mut driver = after_listing(&["0000"]);
    driver.accept(failed("gone"));
    assert_eq!(driver.error_message().unwrap(), "registry path error: gone");
    assert!(matches!(driver.request(), Request::Stop));
}

#[test]
fn registry_value_failures() {
    let mut driver = after_listing(&["0000", "0001"]);
    driver.accept(Reply::Done);
    assert_eq!(driver.accept(failed("DriverDesc")), no_lines());
    assert_eq!(driver.error_message().unwrap(), "registry value error: DriverDesc");
    assert_eq!(driver.exit_code(), Some(1));

    let mut driver = after_listing(&["0000", "0001"]);
    driver.accept(Reply::Done);
    driver.accept(Reply::Text("Adapter".to_string()));
    assert_eq!(driver.accept(failed("size")), no_lines());
    assert_eq!(driver.error_message().unwrap(), "registry value error: size");
    assert!(matches!(driver.request(), Request::Stop));
}

#[test]
fn missing_value_of_a_later_adapter_stops_after_the_earlier_ones() {
    let mut driver = after_listing(&["0000", "0001"]);
    driver.accept(Reply::Done);
    driver.accept(Reply::Text("First".to_string()));
    assert_eq!(driver.accept(Reply::Number(1024)).len(), 2);
    driver.accept(Reply::Done);
    assert_eq!(driver.accept(failed("missing")), no_lines());
    assert_eq!(driver.exit_code(), Some(1));
    assert_eq!(driver.accept(Reply::Number(1024)), no_lines());
}

#[test]
fn answer_of_another_shape_fails_the_report() {
    let mut driver = Driver::new();
    assert_eq!(driver.accept(Reply::Processors(Vec::new())), no_lines());
    assert_eq!(driver.error_message().unwrap(), "connection error: unexpected reply");

    let mut driver = Driver::new();
    driver.accept(Reply::Done);
    assert_eq!(driver.accept(Reply::Baseboards(Vec::new())), no_lines());
    assert_eq!(driver.error_message().unwrap(), "query error: unexpected reply");

    let mut driver = after_instrumentation();
    driver.accept(Reply::Number(3));
    assert_eq!(driver.error_message().unwrap(), "registry path error: unexpected reply");

    let mut driver = after_listing(&["0000"]);
    driver.accept(Reply::Done);
    driver.accept(Reply::Number(3));
    assert_eq!(driver.error_message().unwrap(), "registry value error: unexpected reply");
    assert_eq!(driver.exit_code(), Some(1));
}

#[test]
fn memory_total_beyond_128_bits_fails_the_report() {
    let mut driver = Driver::new();
    driver.accept(Reply::Done);
    driver.accept(Reply::Processors(Vec::new()));
    driver.accept(Reply::Baseboards(Vec::new()));
    let lines = driver.accept(Reply::Memory(vec![
        RAM { capacity: "340282366920938463463374607431768211455".to_string() },
        RAM { capacity: "1".to_string() },
    ]));
    assert_eq!(lines, no_lines());
    assert_eq!(driver.exit_code(), Some(1));
    assert_eq!(
        driver.error_message().unwrap(),
        "query error: memory capacities exceed 128 bits"
    );
}

#[test]
fn finished_report_ignores_further_answers() {
    let mut driver = after_listing(&[]);
    assert_eq!(driver.accept(Reply::Number(1)), no_lines());
    assert_eq!(driver.accept(failed("late")), no_lines());
    assert_eq!(driver.exit_code(), Some(0));
    assert_eq!(driver.error_message(), None);
}
