use vstd::prelude::*;

verus! {

/// Configuration of the subsystem.  The values are handed in by whoever
/// starts the process; reading them from the process environment is I/O and
/// stays outside the library.
#[derive(Debug)]
pub struct Env {
    pub database_url: String,
    pub host: String,
    pub port: String,
    pub uploads_dir: String,
    pub compressed_dir: String,
}

impl Env {
    /// Packs the five configuration values.
    pub fn new(
        database_url: String,
        host: String,
        port: String,
        uploads_dir: String,
        compressed_dir: String,
    ) -> (r: Env)
        ensures
            r.database_url == database_url,
            r.host == host,
            r.port == port,
            r.uploads_dir == uploads_dir,
            r.compressed_dir == compressed_dir,
    {
        Env { database_url, host, port, uploads_dir, compressed_dir }
    }
}

impl Clone for Env {
    fn clone(&self) -> (r: Self)
        ensures
            r == *self,
    {
        Env {
            database_url: self.database_url.clone(),
            host: self.host.clone(),
            port: self.port.clone(),
            uploads_dir: self.uploads_dir.clone(),
            compressed_dir: self.compressed_dir.clone(),
        }
    }
}

} // verus!
