use rnotify::message::component::Component;

#[test]
fn test_child_of() {
    let child: Component = "root/sub/block".into();
    let parent1: Component = "root".into();
    let parent2: Component = "root/sub".into();
    let parent3: Component = "root/sub/".into();

    should_be_child(&child, &parent1, "basic");
    should_be_child(&child, &parent2, "depth 2");
    should_be_child(&child, &parent3, "parent trailing /");

    let parent4: Component = "scraperpi/services".into();
    let child2: Component = "scraperpi".into();
    assert!(!child2.is_child_of(&parent4));

    let parent4: Component = "heating".into();
    let child3: Component = "heating/test".into();
    assert!(child3.is_child_of(&parent4));
}

fn should_be_child(child: &Component, parent: &Component, message: &str) {
    assert!(
        child.is_child_of(parent),
        "{:?} should be child of: {:?} - {}",
        &child,
        &parent,
        message
    );
}

#[test]
fn completely_different() {
    let child: Component = "aaa".into();
    let parent: Component = "heating".into();
    assert!(!child.is_child_of(&parent));
}

#[test]
fn child_of_is_reflexive() {
    for text in ["a", "a/b", "database/backup/table1", ""] {
        let c = Component::parse(text);
        assert!(c.is_child_of(&c));
    }
}

#[test]
fn no_partial_segment_matches() {
    let abc = Component::parse("a/b/c");
    let ab = Component::parse("a/b");
    assert!(abc.is_child_of(&ab));
    assert!(!ab.is_child_of(&abc));
    assert!(!Component::parse("ab").is_child_of(&Component::parse("a")));
}

#[test]
fn parse_drops_empty_segments() {
    assert_eq!(Component::parse("a//b").render(), "a/b");
    assert_eq!(Component::parse("/a/b/").render(), "a/b");
    assert_eq!(Component::parse("").render(), "");
    assert_eq!(Component::parse("database/backup").render(), "database/backup");
}

#[test]
fn equal_components_compare_equal() {
    assert_eq!(Component::parse("a/b/"), Component::parse("a//b"));
    assert_ne!(Component::parse("a/b"), Component::parse("a"));
}
