use rnotify::message::Level;

#[test]
fn ordering_is_consistent_with_priority() {
    assert!(Level::Info < Level::Warn);
    assert!(Level::Warn < Level::Error);
    assert!(Level::Error < Level::SelfError);

    assert!(Level::Info <= Level::Warn);
    assert!(Level::Warn <= Level::Warn);
    assert!(Level::SelfError > Level::Error);
    assert!(Level::SelfError >= Level::SelfError);

    assert!(Level::Info == Level::Info);
    assert!(Level::Info != Level::Warn);
    assert!(!(Level::Warn < Level::Warn));
    assert!(!(Level::SelfError < Level::Info));
}

#[test]
fn min_and_max_are_the_sentinels() {
    assert_eq!(Level::min(), Level::Info);
    assert_eq!(Level::max(), Level::SelfError);
    for l in [Level::Info, Level::Warn, Level::Error, Level::SelfError] {
        assert!(Level::min() <= l);
        assert!(l <= Level::max());
    }
}

#[test]
fn level_names() {
    assert_eq!(Level::Info.name(), "Info");
    assert_eq!(Level::Warn.name(), "Warn");
    assert_eq!(Level::Error.name(), "Error");
    assert_eq!(Level::SelfError.name(), "SelfError");
}
