//! The dashboard server's configuration.

use vstd::prelude::*;

verus! {

/// Where and how the dashboard serves `S`, the state its handlers share.
pub struct Server<S> {
    app_state: S,
    address: String,
    port: u16,
    dry_run: bool,
}

impl<S> Server<S> {
    pub closed spec fn state(&self) -> S {
        self.app_state
    }

    pub closed spec fn spec_address(&self) -> Seq<char> {
        self.address@
    }

    pub closed spec fn spec_port(&self) -> u16 {
        self.port
    }

    pub closed spec fn spec_dry_run(&self) -> bool {
        self.dry_run
    }

    /// A server for `app_state` on 127.0.0.1:3000, posting for real.
    pub fn new(app_state: S) -> (r: Self)
        ensures
            r.state() == app_state,
            r.spec_address() == "127.0.0.1"@,
            r.spec_port() == 3000,
            !r.spec_dry_run(),
    {
        Server { app_state, address: "127.0.0.1".to_owned(), port: 3000, dry_run: false }
    }

    /// The same server, listening on `address`.
    pub fn with_address(self, address: String) -> (r: Self)
        ensures
            r.spec_address() == address@,
            r.state() == self.state(),
            r.spec_port() == self.spec_port(),
            r.spec_dry_run() == self.spec_dry_run(),
    {
        let mut s = self;
        s.address = address;
        s
    }

    /// The same server, listening on `port`.
    pub fn with_port(self, port: u16) -> (r: Self)
        ensures
            r.spec_port() == port,
            r.state() == self.state(),
            r.spec_address() == self.spec_address(),
            r.spec_dry_run() == self.spec_dry_run(),
    {
        let mut s = self;
        s.port = port;
        s
    }

    /// The same server, in dry-run mode or not.
    pub fn with_dry_run(self, dry_run: bool) -> (r: Self)
        ensures
            r.spec_dry_run() == dry_run,
            r.state() == self.state(),
            r.spec_address() == self.spec_address(),
            r.spec_port() == self.spec_port(),
    {
        let mut s = self;
        s.dry_run = dry_run;
        s
    }

    pub fn is_dry_run(&self) -> (r: bool)
        ensures
            r == self.spec_dry_run(),
    {
        self.dry_run
    }

    /// The address listened on.
    pub fn address(&self) -> (r: &str)
        ensures
            r@ == self.spec_address(),
    {
        self.address.as_str()
    }

    /// The port listened on.
    pub fn port(&self) -> (r: u16)
        ensures
            r == self.spec_port(),
    {
        self.port
    }

    /// The state the handlers share.
    pub fn app_state(&self) -> (r: &S)
        ensures
            *r == self.state(),
    {
        &self.app_state
    }
}

} // verus!
