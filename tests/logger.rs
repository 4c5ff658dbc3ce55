use attempt::logger::{LogLevel, Logger};

#[test]
fn verbosity_levels() {
    assert_eq!(Logger::new(0, 0).filter, LogLevel::Warn);
    assert_eq!(Logger::new(1, 0).filter, LogLevel::Debug);
    assert_eq!(Logger::new(2, 0).filter, LogLevel::Trace);
    assert_eq!(Logger::new(5, 0).filter, LogLevel::Trace);
    assert_eq!(Logger::new(0, 1).filter, LogLevel::Error);
    assert_eq!(Logger::new(0, 2).filter, LogLevel::Off);
    assert_eq!(Logger::new(1, 3).filter, LogLevel::Off);
    assert_eq!(Logger::new(255, 255).filter, LogLevel::Warn);
}
