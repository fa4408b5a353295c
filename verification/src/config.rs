//! Startup configuration: where to bind, where the broadcast files live,
//! and where the static content lies. Required inputs to initialization,
//! owned by the command line, not by the core's own logic.

use vstd::prelude::*;

verus! {

/// The three locations a running server is configured with.
pub struct Server {
    pub bind_addr: String,
    pub tpv_bcast_file_loc: String,
    pub static_content_loc: String,
}

impl Server {
    /// The built-in defaults, overridden from the command line.
    pub fn new() -> (r: Server)
        ensures
            r.bind_addr@ == "0.0.0.0:8080"@,
            r.tpv_bcast_file_loc@ == "/home/stefan/shared/"@,
            r.static_content_loc@ == "/home/stefan/devel/tpvbc2http/http"@,
    {
        Server {
            bind_addr: "0.0.0.0:8080".to_owned(),
            tpv_bcast_file_loc: "/home/stefan/shared/".to_owned(),
            static_content_loc: "/home/stefan/devel/tpvbc2http/http".to_owned(),
        }
    }

    /// The address the HTTP listener binds.
    pub fn get_bind_addr(&self) -> (r: &str)
        ensures
            r@ == self.bind_addr@,
    {
        self.bind_addr.as_str()
    }

    pub fn set_bind_addr(&mut self, addr: String)
        ensures
            final(self).bind_addr@ == addr@,
            final(self).tpv_bcast_file_loc@ == old(self).tpv_bcast_file_loc@,
            final(self).static_content_loc@ == old(self).static_content_loc@,
    {
        self.bind_addr = addr;
    }

    /// The directory whose files the watcher observes.
    pub fn get_tpv_bcast_file_loc(&self) -> (r: &str)
        ensures
            r@ == self.tpv_bcast_file_loc@,
    {
        self.tpv_bcast_file_loc.as_str()
    }

    pub fn set_tpv_bcast_file_loc(&mut self, loc: String)
        ensures
            final(self).tpv_bcast_file_loc@ == loc@,
            final(self).bind_addr@ == old(self).bind_addr@,
            final(self).static_content_loc@ == old(self).static_content_loc@,
    {
        self.tpv_bcast_file_loc = loc;
    }

    /// The directory the static assets are served from.
    pub fn get_static_content_loc(&self) -> (r: &str)
        ensures
            r@ == self.static_content_loc@,
    {
        self.static_content_loc.as_str()
    }

    pub fn set_static_content_loc(&mut self, loc: String)
        ensures
            final(self).static_content_loc@ == loc@,
            final(self).bind_addr@ == old(self).bind_addr@,
            final(self).tpv_bcast_file_loc@ == old(self).tpv_bcast_file_loc@,
    {
        self.static_content_loc = loc;
    }
}

} // verus!
