use vstd::prelude::*;
use crate::address::bind_host;
use crate::text::{decimal, port_text};

verus! {

/// A bundled resource the sidecar cannot start without.
#[derive(Clone, Copy, Debug, PartialEq, Eq, Structural)]
pub enum Resource {
    /// The sidecar executable.
    SidecarBinary,
    /// The directory of static assets the sidecar serves.
    StaticAssets,
}

pub open spec fn resource_path_text(which: Resource) -> Seq<char> {
    match which {
        Resource::SidecarBinary => "resources/proxy/proxy.exe"@,
        Resource::StaticAssets => "resources/web"@,
    }
}

impl Resource {
    /// Where the resource lies among the host's bundled resources.
    pub fn path(&self) -> (r: String)
        ensures
            r@ == resource_path_text(*self),
    {
        match self {
            Resource::SidecarBinary => String::from_str("resources/proxy/proxy.exe"),
            Resource::StaticAssets => String::from_str("resources/web"),
        }
    }
}

/// Why the sidecar could not be brought up.
#[derive(Clone, Debug, PartialEq, Eq)]
pub enum StartupError {
    /// A bundled resource could not be located.
    ResourceMissing(Resource),
    /// The operating system did not start the sidecar; carries its reason.
    Spawn(String),
    /// The sidecar did not answer healthily before the deadline.
    ReadinessTimeout,
    /// The browser could not be pointed at the sidecar; carries the reason.
    BrowserLaunch(String),
}

pub open spec fn startup_error_text(e: StartupError) -> Seq<char> {
    match e {
        StartupError::ResourceMissing(Resource::SidecarBinary) => "Missing proxy binary in "@
            + resource_path_text(Resource::SidecarBinary),
        StartupError::ResourceMissing(Resource::StaticAssets) => "Missing web bundle in "@
            + resource_path_text(Resource::StaticAssets),
        StartupError::Spawn(reason) => "Failed to spawn proxy: "@ + reason@,
        StartupError::ReadinessTimeout => "Proxy did not become healthy within timeout"@,
        StartupError::BrowserLaunch(reason) => "Failed to open browser: "@ + reason@,
    }
}

impl StartupError {
    /// The message shown to the user.
    pub fn message(&self) -> (r: String)
        ensures
            r@ == startup_error_text(*self),
    {
        match self {
            StartupError::ResourceMissing(which) => {
                let mut r = match which {
                    Resource::SidecarBinary => String::from_str("Missing proxy binary in "),
                    Resource::StaticAssets => String::from_str("Missing web bundle in "),
                };
                let path = which.path();
                r.append(path.as_str());
                r
            },
            StartupError::Spawn(reason) => {
                let mut r = String::from_str("Failed to spawn proxy: ");
                r.append(reason.as_str());
                r
            },
            StartupError::ReadinessTimeout => String::from_str(
                "Proxy did not become healthy within timeout",
            ),
            StartupError::BrowserLaunch(reason) => {
                let mut r = String::from_str("Failed to open browser: ");
                r.append(reason.as_str());
                r
            },
        }
    }
}

/// A located resource, or the error that names the missing one.
pub fn locate<P>(found: Option<P>, which: Resource) -> (r: Result<P, StartupError>)
    ensures
        r == (match found {
            Some(p) => Ok(p),
            None => Err(StartupError::ResourceMissing(which)),
        }),
{
    match found {
        Some(p) => Ok(p),
        None => Err(StartupError::ResourceMissing(which)),
    }
}

/// The environment the sidecar is started with, as (name, value) pairs.
pub open spec fn sidecar_env_text(port: nat, allow_lan: bool, static_dir: Seq<char>) -> Seq<
    (Seq<char>, Seq<char>),
> {
    seq![
        ("PROXY_PORT"@, decimal(port)),
        ("PROXY_HOST"@, if allow_lan {
            "0.0.0.0"@
        } else {
            "127.0.0.1"@
        }),
        ("SERVE_STATIC"@, "true"@),
        ("STATIC_DIR"@, static_dir),
    ]
}

/// The environment the sidecar is started with: the port and interface to
/// bind, and the directory of static assets it is to serve.
pub fn sidecar_env(port: u16, allow_lan: bool, static_dir: &str) -> (r: Vec<(String, String)>)
    ensures
        r@.len() == 4,
        forall|i: int|
            0 <= i < 4 ==> (#[trigger] r@[i].0@, r@[i].1@) == sidecar_env_text(
                port as nat,
                allow_lan,
                static_dir@,
            )[i],
{
    proof {
        reveal_strlit("0.0.0.0");
        reveal_strlit("127.0.0.1");
    }
    let mut r: Vec<(String, String)> = Vec::new();
    r.push((String::from_str("PROXY_PORT"), port_text(port)));
    let host = bind_host(allow_lan);
    proof {
        assert(host@ =~= (if allow_lan {
            "0.0.0.0"@
        } else {
            "127.0.0.1"@
        }));
    }
    r.push((String::from_str("PROXY_HOST"), host));
    r.push((String::from_str("SERVE_STATIC"), String::from_str("true")));
    r.push((String::from_str("STATIC_DIR"), String::from_str(static_dir)));
    r
}

/// Maps the outcome of spawning the sidecar: its reason for failing becomes
/// a startup error.
pub fn spawned<C>(result: Result<C, String>) -> (r: Result<C, StartupError>)
    ensures
        r == (match result {
            Ok(c) => Ok(c),
            Err(reason) => Err(StartupError::Spawn(reason)),
        }),
{
    match result {
        Ok(c) => Ok(c),
        Err(reason) => Err(StartupError::Spawn(reason)),
    }
}

/// `http://<host>:<port>/`.
pub open spec fn ui_url_text(host: Seq<char>, port: nat) -> Seq<char> {
    "http://"@ + host + ":"@ + decimal(port) + "/"@
}

/// The URL the browser is pointed at.
pub fn ui_url(host: &str, port: u16) -> (r: String)
    ensures
        r@ == ui_url_text(host@, port as nat),
{
    let mut r = String::from_str("http://");
    r.append(host);
    r.append(":");
    let digits = port_text(port);
    r.append(digits.as_str());
    r.append("/");
    proof {
        assert(r@ =~= ui_url_text(host@, port as nat));
    }
    r
}

/// Maps the outcome of opening the browser. The sidecar stays supervised
/// either way.
pub fn browser_opened(result: Result<(), String>) -> (r: Result<(), StartupError>)
    ensures
        r == (match result {
            Ok(()) => Ok(()),
            Err(reason) => Err(StartupError::BrowserLaunch(reason)),
        }),
{
    match result {
        Ok(()) => Ok(()),
        Err(reason) => Err(StartupError::BrowserLaunch(reason)),
    }
}

/// The slot and the process an exit request leaves: the slot is emptied and
/// whatever it held is handed out to be terminated.
pub open spec fn take_spec<C>(held: Option<C>) -> (Option<C>, Option<C>) {
    (None, held)
}

/// Owner of the one sidecar process. Callers that share it across threads
/// keep it behind a lock.
pub struct Supervisor<C> {
    child: Option<C>,
}

impl<C> Supervisor<C> {
    /// The process currently supervised, if any.
    pub closed spec fn held(&self) -> Option<C> {
        self.child
    }

    /// A supervisor with no process yet.
    pub fn new() -> (r: Supervisor<C>)
        ensures
            r.held() is None,
    {
        Supervisor { child: None }
    }

    /// Whether a process is currently supervised.
    pub fn is_running(&self) -> (r: bool)
        ensures
            r == self.held() is Some,
    {
        self.child.is_some()
    }

    /// Settles a freshly spawned process on the readiness verdict. A ready one
    /// is kept and supervised from now on; one that never became ready is handed
    /// back with the timeout error, for the caller to terminate before reporting.
    pub fn admit_child(&mut self, child: C, ready: bool) -> (r: Result<(), (StartupError, C)>)
        requires
            old(self).held() is None,
        ensures
            ready ==> r is Ok && final(self).held() == Some(child),
            !ready ==> r == Err::<(), (StartupError, C)>((StartupError::ReadinessTimeout, child))
                && final(self).held() is None,
    {
        if ready {
            self.child = Some(child);
            Ok(())
        } else {
            Err((StartupError::ReadinessTimeout, child))
        }
    }

    /// Handles an exit request: takes the supervised process, if one is still
    /// there, for the caller to terminate. Later requests find nothing.
    pub fn take_for_exit(&mut self) -> (r: Option<C>)
        ensures
            (final(self).held(), r) == take_spec(old(self).held()),
    {
        self.child.take()
    }
}

/// Exit requests are idempotent: of two in a row, only the first can hand out a
/// process to terminate, so the process is terminated at most once, and the
/// second leaves the supervisor as the first left it.
pub proof fn lemma_exit_idempotent<C>(held: Option<C>)
    ensures
        take_spec(held).1 == held,
        take_spec(take_spec(held).0).1 is None,
        take_spec(take_spec(held).0).0 == take_spec(held).0,
{
}

} // verus!
