use vstd::prelude::*;

verus! {

/// The HTTP subcommands.
#[derive(Debug)]
pub enum HttpSubCmd {
    Serve(HttpServerOpts),
}

/// Options of the static file server: the directory served and the port.
#[derive(Debug)]
pub struct HttpServerOpts {
    pub dir: String,
    pub port: u16,
}

} // verus!
