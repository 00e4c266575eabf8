//! Standard topic names for the event bus.
//!
//! Every well-known topic is a constant here, so that producers and
//! subscribers name the same string and a typo cannot creep in.
//!
//! # Namespace convention
//!
//! `domain::entity::action`
//!
//! - domain: the service that owns the event (registry, session, ...)
//! - entity: the thing that changed (service, user, package, ...)
//! - action: what happened (registered, login, installed, ...)
//!
//! # Wildcard usage
//!
//! - `"registry::*"` matches one segment below `registry`
//! - `"registry::#"` matches every registry event
//! - `"registry::service::*"` matches all service events in the registry namespace

use vstd::prelude::*;
use crate::segments::{segments, split_from};

verus! {

// registry::

/// A service has registered itself with the registry.
pub const REGISTRY_SERVICE_REGISTERED: &'static str = "registry::service::registered";

/// A service has stopped and deregistered from the registry.
pub const REGISTRY_SERVICE_STOPPED: &'static str = "registry::service::stopped";

/// A new capability has been advertised in the registry.
pub const REGISTRY_CAPABILITY_ADDED: &'static str = "registry::capability::added";

/// A capability has been removed from the registry.
pub const REGISTRY_CAPABILITY_REMOVED: &'static str = "registry::capability::removed";

// session::

/// A user has logged in to a session.
pub const SESSION_USER_LOGIN: &'static str = "session::user::login";

/// A user has logged out of a session.
pub const SESSION_USER_LOGOUT: &'static str = "session::user::logout";

/// An application window was opened in a session.
pub const SESSION_APP_OPENED: &'static str = "session::app::opened";

/// An application window was closed in a session.
pub const SESSION_APP_CLOSED: &'static str = "session::app::closed";

// inventory::

/// A package was successfully installed.
pub const INVENTORY_PACKAGE_INSTALLED: &'static str = "inventory::package::installed";

/// A package was removed.
pub const INVENTORY_PACKAGE_REMOVED: &'static str = "inventory::package::removed";

/// A package was updated to a new version.
pub const INVENTORY_PACKAGE_UPDATED: &'static str = "inventory::package::updated";

// system::

/// System health has degraded below a configured threshold.
pub const SYSTEM_HEALTH_DEGRADED: &'static str = "system::health::degraded";

/// System health has returned to normal after a degraded period.
pub const SYSTEM_HEALTH_RESTORED: &'static str = "system::health::restored";

/// Node boot completed successfully.
pub const SYSTEM_NODE_STARTED: &'static str = "system::node::started";

/// Node is shutting down.
pub const SYSTEM_NODE_STOPPING: &'static str = "system::node::stopping";

// auth::

/// A new user account was created.
pub const AUTH_USER_CREATED: &'static str = "auth::user::created";

/// A user account was deleted.
pub const AUTH_USER_DELETED: &'static str = "auth::user::deleted";

/// User credentials were updated (password change, MFA, ...).
pub const AUTH_USER_UPDATED: &'static str = "auth::user::updated";

/// An access token was issued.
pub const AUTH_TOKEN_ISSUED: &'static str = "auth::token::issued";

/// An access token was revoked.
pub const AUTH_TOKEN_REVOKED: &'static str = "auth::token::revoked";

} // verus!

verus! {

/// A character of a standard topic segment: a lowercase ASCII letter or `_`.
pub open spec fn is_name_char(c: char) -> bool {
    ('a' <= c && c <= 'z') || c == '_'
}

/// A segment of a standard topic: one or more lowercase ASCII letters or
/// underscores (snake_case).
pub open spec fn is_name_segment(s: Seq<char>) -> bool {
    s.len() > 0 && forall|k: int| 0 <= k < s.len() ==> is_name_char(#[trigger] s[k])
}

/// A topic that follows the convention `domain::entity::action`: exactly
/// three segments, each of them lowercase snake_case.
pub open spec fn is_standard_topic(t: Seq<char>) -> bool {
    let s = segments(t);
    &&& s.len() == 3
    &&& is_name_segment(s[0])
    &&& is_name_segment(s[1])
    &&& is_name_segment(s[2])
}

/// Every standard topic constant follows `domain::entity::action`: it has
/// three `::`-separated segments, each made of lowercase letters and
/// underscores only.
pub proof fn law_standard_topics_are_namespaced()
    ensures
        is_standard_topic(REGISTRY_SERVICE_REGISTERED@),
        is_standard_topic(REGISTRY_SERVICE_STOPPED@),
        is_standard_topic(REGISTRY_CAPABILITY_ADDED@),
        is_standard_topic(REGISTRY_CAPABILITY_REMOVED@),
        is_standard_topic(SESSION_USER_LOGIN@),
        is_standard_topic(SESSION_USER_LOGOUT@),
        is_standard_topic(SESSION_APP_OPENED@),
        is_standard_topic(SESSION_APP_CLOSED@),
        is_standard_topic(INVENTORY_PACKAGE_INSTALLED@),
        is_standard_topic(INVENTORY_PACKAGE_REMOVED@),
        is_standard_topic(INVENTORY_PACKAGE_UPDATED@),
        is_standard_topic(SYSTEM_HEALTH_DEGRADED@),
        is_standard_topic(SYSTEM_HEALTH_RESTORED@),
        is_standard_topic(SYSTEM_NODE_STARTED@),
        is_standard_topic(SYSTEM_NODE_STOPPING@),
        is_standard_topic(AUTH_USER_CREATED@),
        is_standard_topic(AUTH_USER_DELETED@),
        is_standard_topic(AUTH_USER_UPDATED@),
        is_standard_topic(AUTH_TOKEN_ISSUED@),
        is_standard_topic(AUTH_TOKEN_REVOKED@),
{
    reveal_with_fuel(split_from, 40);
    reveal_strlit("registry::service::registered");
    reveal_strlit("registry::service::stopped");
    reveal_strlit("registry::capability::added");
    reveal_strlit("registry::capability::removed");
    reveal_strlit("session::user::login");
    reveal_strlit("session::user::logout");
    reveal_strlit("session::app::opened");
    reveal_strlit("session::app::closed");
    reveal_strlit("inventory::package::installed");
    reveal_strlit("inventory::package::removed");
    reveal_strlit("inventory::package::updated");
    reveal_strlit("system::health::degraded");
    reveal_strlit("system::health::restored");
    reveal_strlit("system::node::started");
    reveal_strlit("system::node::stopping");
    reveal_strlit("auth::user::created");
    reveal_strlit("auth::user::deleted");
    reveal_strlit("auth::user::updated");
    reveal_strlit("auth::token::issued");
    reveal_strlit("auth::token::revoked");
}

} // verus!
