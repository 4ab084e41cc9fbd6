//! The plugin's configuration surface and its fixed names.
//!
//! The host document tool hands the plugin a configuration table: an
//! optional container engine endpoint (with an environment override and a
//! well-known local socket default), an optional default image (parsed but
//! not yet wired into per-task resolution), an optional path prefix
//! (currently unused by the execution path), and the parallelism bound that
//! drives both the traversal fan-out and the admission capacity.

use vstd::prelude::*;

verus! {

/// The name under which the host tool addresses this plugin.
pub fn command_name() -> (r: &'static str)
    ensures
        r@ == "docker-run"@,
{
    "docker-run"
}

/// The reserved fence label that marks a task block.
pub fn label() -> (r: &'static str)
    ensures
        r@ == "docker-run"@,
{
    "docker-run"
}

/// The well-known local socket the engine endpoint defaults to.
pub fn default_endpoint() -> (r: &'static str)
    ensures
        r@ == "unix:///run/docker.sock"@,
{
    "unix:///run/docker.sock"
}

/// Configuration for the plugin.
#[derive(Debug, PartialEq, Eq)]
pub struct Config {
    /// URL of the container engine socket.
    pub docker: Option<String>,
    /// Default image to use; parsed but not yet applied per task.
    pub image: Option<String>,
    /// Prefix for all paths; currently unused by the execution path.
    pub prefix: Option<String>,
    /// How many tasks to run in parallel.
    pub parallel: usize,
}

impl Default for Config {
    /// An empty configuration: no endpoint, image or prefix, and no
    /// parallelism until the embedding fills in the host's concurrency.
    fn default() -> (r: Config)
        ensures
            r.docker is None,
            r.image is None,
            r.prefix is None,
            r.parallel == 0,
    {
        Config { docker: None, image: None, prefix: None, parallel: 0 }
    }
}

/// The engine endpoint to connect to: the configured one when present,
/// else the environment's, else the well-known local socket.
pub fn resolve_endpoint(configured: &Option<String>, env_host: Option<String>) -> (r: String)
    ensures
        configured matches Some(url) ==> r@ == url@,
        configured is None ==> match env_host {
            Some(host) => r@ == host@,
            None => r@ == "unix:///run/docker.sock"@,
        },
{
    match configured {
        Some(url) => url.clone(),
        None => match env_host {
            Some(host) => host,
            None => {
                let mut r = String::new();
                r.append(default_endpoint());
                r
            },
        },
    }
}

/// The path prefix to use: the configured one, else the current directory.
pub fn resolve_prefix(configured: &Option<String>) -> (r: String)
    ensures
        configured matches Some(p) ==> r@ == p@,
        configured is None ==> r@ == "."@,
{
    match configured {
        Some(p) => p.clone(),
        None => {
            let mut r = String::new();
            r.append(".");
            r
        },
    }
}

} // verus!
