use litemon::error::LiteMonError;

#[test]
fn each_failure_has_its_line() {
    assert_eq!(LiteMonError::Io("disk gone".to_string()).message(), "IO error: disk gone");
    assert_eq!(
        LiteMonError::SysInfo("no counters".to_string()).message(),
        "System info error: no counters"
    );
    assert_eq!(LiteMonError::Ui("no tty".to_string()).message(), "Terminal UI error: no tty");
    assert_eq!(LiteMonError::NoGpuFound.message(), "No GPU found");
    assert_eq!(LiteMonError::CategoryUnavailable.message(), "Category unavailable");
}

#[test]
fn copy_of_a_failure_reads_the_same() {
    let failure = LiteMonError::Ui("no tty".to_string());
    let copy = failure.clone();
    assert_eq!(copy.message(), failure.message());
    assert!(matches!(copy, LiteMonError::Ui(_)));
}
