use fs_bus::topic::topic_matches;
use fs_bus::topics::{
    AUTH_TOKEN_ISSUED, AUTH_TOKEN_REVOKED, AUTH_USER_CREATED, AUTH_USER_DELETED,
    AUTH_USER_UPDATED, INVENTORY_PACKAGE_INSTALLED, INVENTORY_PACKAGE_REMOVED,
    INVENTORY_PACKAGE_UPDATED, REGISTRY_CAPABILITY_ADDED, REGISTRY_CAPABILITY_REMOVED,
    REGISTRY_SERVICE_REGISTERED, REGISTRY_SERVICE_STOPPED, SESSION_APP_CLOSED,
    SESSION_APP_OPENED, SESSION_USER_LOGIN, SESSION_USER_LOGOUT, SYSTEM_HEALTH_DEGRADED,
    SYSTEM_HEALTH_RESTORED, SYSTEM_NODE_STARTED, SYSTEM_NODE_STOPPING,
};

const ALL_TOPICS: [&str; 20] = [
    REGISTRY_SERVICE_REGISTERED,
    REGISTRY_SERVICE_STOPPED,
    REGISTRY_CAPABILITY_ADDED,
    REGISTRY_CAPABILITY_REMOVED,
    SESSION_USER_LOGIN,
    SESSION_USER_LOGOUT,
    SESSION_APP_OPENED,
    SESSION_APP_CLOSED,
    INVENTORY_PACKAGE_INSTALLED,
    INVENTORY_PACKAGE_REMOVED,
    INVENTORY_PACKAGE_UPDATED,
    SYSTEM_HEALTH_DEGRADED,
    SYSTEM_HEALTH_RESTORED,
    SYSTEM_NODE_STARTED,
    SYSTEM_NODE_STOPPING,
    AUTH_USER_CREATED,
    AUTH_USER_DELETED,
    AUTH_USER_UPDATED,
    AUTH_TOKEN_ISSUED,
    AUTH_TOKEN_REVOKED,
];

#[test]
fn all_topics_are_namespaced() {
    let topics = ALL_TOPICS;
    for t in topics {
        assert!(t.contains("::"), "topic must be namespaced: {t}");
        assert_eq!(t.split("::").count(), 3, "topic must have 3 segments: {t}");
    }
}

#[test]
fn topics_are_snake_case_lowercase() {
    let topics = [
        REGISTRY_SERVICE_REGISTERED,
        SESSION_USER_LOGIN,
        INVENTORY_PACKAGE_INSTALLED,
        SYSTEM_HEALTH_DEGRADED,
        AUTH_TOKEN_ISSUED,
    ];
    for t in topics {
        assert_eq!(t, t.to_lowercase().as_str(), "topic must be lowercase: {t}");
    }
}

#[test]
fn standard_topics_fall_under_their_namespace() {
    assert!(topic_matches("registry::#", REGISTRY_CAPABILITY_REMOVED));
    assert!(topic_matches("registry::service::*", REGISTRY_SERVICE_STOPPED));
    assert!(!topic_matches("registry::service::*", REGISTRY_CAPABILITY_ADDED));
    assert!(topic_matches("session::user::*", SESSION_USER_LOGOUT));
    assert!(topic_matches("*::*::*", AUTH_TOKEN_REVOKED));
    assert!(!topic_matches("*::*", SYSTEM_NODE_STOPPING));
    for t in ALL_TOPICS {
        assert!(topic_matches("#", t));
        assert!(topic_matches(t, t));
    }
}
