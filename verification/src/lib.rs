//! Startup planning for the application shell.
//!
//! The shell registers a fixed set of capability plugins with the host GUI
//! runtime and, in debug builds only, a bridge plugin bound to a configurable
//! host address. This crate holds the decisions the shell makes before it
//! hands control to the runtime: which plugins to register, in what order,
//! and which address the bridge binds to. The registration calls themselves
//! and the runtime's event loop live outside, in the unverified shell.

use vstd::prelude::*;

verus! {

/// A capability plugin that the shell registers with the host runtime.
#[derive(Clone, Copy, PartialEq, Eq, Structural, Debug)]
pub enum Plugin {
    /// Opens files and URLs with the platform's default handlers.
    Opener,
    /// Filesystem access.
    Fs,
    /// Native dialogs.
    Dialog,
    /// Clipboard access.
    Clipboard,
    /// SQL storage.
    Sql,
    /// Debug-only bridge exposing a local endpoint for tooling.
    McpBridge,
}

/// The plugins every build registers, in registration order.
pub open spec fn spec_base_plugins() -> Seq<Plugin> {
    seq![Plugin::Opener, Plugin::Fs, Plugin::Dialog, Plugin::Clipboard, Plugin::Sql]
}

/// The full registration order for a build mode: a debug build appends the
/// bridge plugin after the common five, a release build registers only those.
pub open spec fn spec_registration_order(debug: bool) -> Seq<Plugin> {
    if debug {
        spec_base_plugins().push(Plugin::McpBridge)
    } else {
        spec_base_plugins()
    }
}

/// The plugins to register, in the order the shell must register them.
pub fn registration_order(debug: bool) -> (r: Vec<Plugin>)
    ensures
        r@ == spec_registration_order(debug),
{
    let mut v: Vec<Plugin> = Vec::new();
    v.push(Plugin::Opener);
    v.push(Plugin::Fs);
    v.push(Plugin::Dialog);
    v.push(Plugin::Clipboard);
    v.push(Plugin::Sql);
    if debug {
        v.push(Plugin::McpBridge);
    }
    proof {
        assert(v@ =~= spec_registration_order(debug));
    }
    v
}

/// The loopback address the bridge binds to when no override is given.
pub open spec fn spec_loopback_host() -> Seq<char> {
    "127.0.0.1"@
}

/// The bridge bind host for a debug build: the environment override when one
/// is present, the loopback address otherwise.
pub open spec fn spec_bind_host(env_value: Option<Seq<char>>) -> Seq<char> {
    match env_value {
        Some(s) => s,
        None => spec_loopback_host(),
    }
}

/// Resolves the bridge bind host from the environment variable's value:
/// exactly the given string when the variable is set, loopback when it is not.
pub fn resolve_bind_host(env_value: Option<String>) -> (r: String)
    ensures
        r@ == spec_bind_host(env_value.deep_view()),
{
    match env_value {
        Some(s) => s,
        None => "127.0.0.1".to_owned(),
    }
}

/// Everything the shell decides before handing control to the host runtime.
pub struct StartupPlan {
    /// Plugins to register, in registration order.
    pub plugins: Vec<Plugin>,
    /// Bind host for the bridge plugin; present exactly in debug builds.
    pub bridge_bind_host: Option<String>,
}

/// What a correct plan looks like for a build mode and an environment value:
/// the plugins are the fixed registration order for that mode, and a bind
/// host is carried exactly in debug builds, resolved from the environment.
pub open spec fn plan_matches(
    plan: StartupPlan,
    debug: bool,
    env_value: Option<Seq<char>>,
) -> bool {
    &&& plan.plugins@ == spec_registration_order(debug)
    &&& plan.bridge_bind_host.deep_view() == if debug {
        Some(spec_bind_host(env_value))
    } else {
        None::<Seq<char>>
    }
}

/// Builds the startup plan for a build mode from the environment variable's
/// value. The release plan never includes the bridge plugin.
pub fn startup_plan(debug: bool, env_value: Option<String>) -> (r: StartupPlan)
    ensures
        plan_matches(r, debug, env_value.deep_view()),
        !debug ==> !r.plugins@.contains(Plugin::McpBridge),
{
    let plugins = registration_order(debug);
    let bridge_bind_host = if debug {
        Some(resolve_bind_host(env_value))
    } else {
        None
    };
    proof {
        if !debug {
            lemma_release_excludes_bridge();
        }
    }
    StartupPlan { plugins, bridge_bind_host }
}

/// In a release build the bridge plugin is never registered: the release
/// registration order does not contain it, whatever the environment says.
pub proof fn lemma_release_excludes_bridge()
    ensures
        !spec_registration_order(false).contains(Plugin::McpBridge),
{
    let s = spec_registration_order(false);
    assert forall|i: int| 0 <= i < s.len() implies s[i] != Plugin::McpBridge by {
        assert(s[0] == Plugin::Opener);
        assert(s[1] == Plugin::Fs);
        assert(s[2] == Plugin::Dialog);
        assert(s[3] == Plugin::Clipboard);
        assert(s[4] == Plugin::Sql);
    }
}

/// The registration order is fixed for each build mode: the debug order is
/// exactly the release order with the bridge plugin appended at the end.
pub proof fn lemma_debug_extends_release_order()
    ensures
        spec_registration_order(true).drop_last() == spec_registration_order(false),
        spec_registration_order(true).last() == Plugin::McpBridge,
{
    assert(spec_registration_order(true).drop_last() =~= spec_registration_order(false));
}

/// Registration is deterministic: two plans built for the same build mode
/// register the same plugins in the same order, whatever the environment
/// said on either occasion.
pub proof fn lemma_order_deterministic(
    p1: StartupPlan,
    p2: StartupPlan,
    debug: bool,
    e1: Option<Seq<char>>,
    e2: Option<Seq<char>>,
)
    requires
        plan_matches(p1, debug, e1),
        plan_matches(p2, debug, e2),
    ensures
        p1.plugins@ == p2.plugins@,
{
}

} // verus!
