use fs_bus::topic::{topic_matches, TopicHandler};

#[test]
fn exact_match() {
    assert!(topic_matches("deploy::started", "deploy::started"));
    assert!(!topic_matches("deploy::started", "deploy::failed"));
}

#[test]
fn single_wildcard() {
    assert!(topic_matches("deploy::*", "deploy::started"));
    assert!(topic_matches("deploy::*", "deploy::failed"));
    assert!(!topic_matches("deploy::*", "deploy::started::now"));
}

#[test]
fn greedy_wildcard() {
    assert!(topic_matches("#", "deploy::started"));
    assert!(topic_matches("#", "anything::at::all"));
    assert!(topic_matches("deploy::#", "deploy::started::now"));
}

#[test]
fn no_match() {
    assert!(!topic_matches("health::*", "deploy::started"));
}

#[test]
fn registry_namespace() {
    // # is the greedy namespace wildcard.
    assert!(topic_matches(
        "registry::#",
        "registry::service::registered"
    ));
    assert!(topic_matches("registry::#", "registry::service::stopped"));
    assert!(topic_matches("registry::#", "registry::capability::added"));
    assert!(!topic_matches("registry::#", "session::user::login"));
    // * matches exactly one segment.
    assert!(topic_matches(
        "registry::service::*",
        "registry::service::registered"
    ));
    assert!(!topic_matches(
        "registry::service::*",
        "registry::service::registered::extra"
    ));
}

#[test]
fn hash_alone_matches_every_topic() {
    assert!(topic_matches("#", ""));
    assert!(topic_matches("#", "#"));
    assert!(topic_matches("#", "a::b::c::d::e"));
    assert!(topic_matches("#", ":::"));
}

#[test]
fn every_topic_matches_itself() {
    for t in ["", "a", "a::b", ":::", "a::*::#", "::", "ü::ß", "x::::y"] {
        assert!(topic_matches(t, t), "{t} should match itself");
    }
}

#[test]
fn literal_pattern_matches_only_itself() {
    assert!(topic_matches("a::b", "a::b"));
    assert!(!topic_matches("a::b", "a::b::"));
    assert!(!topic_matches("a::b", "a"));
    assert!(!topic_matches("a::b", "a::c"));
    assert!(!topic_matches("a::b", "a:b"));
    assert!(topic_matches("", ""));
    assert!(!topic_matches("", "a"));
    assert!(!topic_matches("a", ""));
}

#[test]
fn star_matches_one_segment() {
    assert!(topic_matches("*", "abc"));
    assert!(topic_matches("*", ""));
    assert!(topic_matches("*", ":"));
    assert!(topic_matches("*", "a:b"));
    assert!(!topic_matches("*", "a::b"));
    assert!(!topic_matches("*", ":::"));
    assert!(!topic_matches("a::*", "a"));
    assert!(topic_matches("a::*", "a::"));
    assert!(topic_matches("*::b", "x::b"));
    assert!(!topic_matches("*::b", "x::c"));
}

#[test]
fn trailing_hash_is_greedy() {
    assert!(topic_matches("a::#", "a"));
    assert!(topic_matches("a::#", "a::b"));
    assert!(topic_matches("a::#", "a::b::c::d"));
    assert!(!topic_matches("a::#", "b::c"));
    assert!(!topic_matches("a::b::#", "a"));
    assert!(topic_matches("*::#", "x::y::z"));
}

#[test]
fn hash_inside_pattern_is_literal() {
    assert!(!topic_matches("a::#::z", "a::b::c"));
    assert!(!topic_matches("a::#::z", "a"));
    assert!(!topic_matches("a::#::z", "a::b::z"));
    assert!(topic_matches("a::#::z", "a::#::z"));
    assert!(!topic_matches("b::#::z", "a::b"));
    assert!(!topic_matches("registry::#::added", "registry::service::stopped"));
    assert!(!topic_matches("registry::#::added", "registry::capability::added"));
    assert!(topic_matches("registry::#::added", "registry::#::added"));
    assert!(!topic_matches("#::x", "a::x"));
    assert!(topic_matches("#::#", "#::a::b"));
}

#[test]
fn separators_split_leftmost_without_overlap() {
    // ":::" is the segments "" and ":".
    assert!(topic_matches("::*", ":::"));
    assert!(!topic_matches("*::", ":::"));
    assert!(topic_matches("a:::b", "a:::b"));
    assert!(topic_matches("a::*", "a:::b"));
    assert!(!topic_matches("a::b", "a:::b"));
    assert!(!topic_matches(":::", "::x"));
}

#[test]
fn non_ascii_segments() {
    assert!(topic_matches("ü::*", "ü::ß"));
    assert!(!topic_matches("ü::*", "u::ß"));
    assert!(topic_matches("日本::#", "日本::語::文"));
}

struct DeployLogger;

impl TopicHandler for DeployLogger {
    fn topic_pattern(&self) -> &str {
        "deploy::*"
    }
}

#[test]
fn handler_pattern_selects_topics() {
    let handler = DeployLogger;
    assert!(topic_matches(handler.topic_pattern(), "deploy::started"));
    assert!(!topic_matches(handler.topic_pattern(), "deploy::started::now"));
    assert!(!topic_matches(handler.topic_pattern(), "health::ok"));
}

#[test]
fn widening_a_segment_to_star_keeps_matches() {
    assert!(topic_matches("a::b::c", "a::b::c"));
    assert!(topic_matches("*::b::c", "a::b::c"));
    assert!(topic_matches("a::*::c", "a::b::c"));
    assert!(topic_matches("a::b::*", "a::b::c"));
    assert!(topic_matches("a::#::c", "a::#::c"));
    assert!(topic_matches("a::*::c", "a::#::c"));
    // A trailing `#` covers more than one segment; `*` does not.
    assert!(topic_matches("a::#", "a::b::c"));
    assert!(!topic_matches("a::*", "a::b::c"));
}
