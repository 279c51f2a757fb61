//! Configuration carried by the serving process: where the site's data
//! lives on disk, which directories to watch, and how the server presents
//! itself. Paths are held as plain strings; the surrounding program turns
//! them into whatever its filesystem interface wants.

use vstd::prelude::*;

verus! {

/// Top-level configuration for the process.
#[derive(Debug, Clone)]
pub struct Config {
    /// Where the configuration file itself was found.
    pub config_path: String,
    /// Path of the on-disk database.
    pub db_path: String,
    /// Directory that holds the page templates.
    pub template_dir: String,
    /// Directory that holds static assets.
    pub assest_dir: String,
    /// Directories watched for changes.
    pub monitor: Monitor,
    /// Listening address and port.
    pub server: Server,
    /// Site presentation data.
    pub webinfo: WebInfo,
}

impl Default for Config {
    /// An empty configuration with the default server and site settings.
    fn default() -> (c: Self)
        ensures
            c.config_path@ == Seq::<char>::empty(),
            c.db_path@ == Seq::<char>::empty(),
            c.template_dir@ == Seq::<char>::empty(),
            c.assest_dir@ == Seq::<char>::empty(),
            c.monitor.post@ == Seq::<char>::empty(),
            c.monitor.md@ == Seq::<char>::empty(),
            c.monitor.assest@ == Seq::<char>::empty(),
            c.server.listen_address@ == "0.0.0.0"@,
            c.server.listen_port == 8080,
            c.webinfo.site_logo@ == "/assest/logo.png"@,
            c.webinfo.site_name@ == "site-name"@,
    {
        Config {
            config_path: String::new(),
            db_path: String::new(),
            template_dir: String::new(),
            assest_dir: String::new(),
            monitor: Monitor::default(),
            server: Server::default(),
            webinfo: WebInfo::default(),
        }
    }
}

/// Listening address and port of the serving process.
#[derive(Debug, Clone)]
pub struct Server {
    /// Address to bind.
    pub listen_address: String,
    /// Port to bind.
    pub listen_port: u16,
}

impl Default for Server {
    fn default() -> (s: Self)
        ensures
            s.listen_address@ == "0.0.0.0"@,
            s.listen_port == 8080,
    {
        Server { listen_address: String::from_str("0.0.0.0"), listen_port: 8080 }
    }
}

/// The directories watched for filesystem changes.
#[derive(Debug, Clone)]
pub struct Monitor {
    /// Directory of rendered posts.
    pub post: String,
    /// Directory of post sources.
    pub md: String,
    /// Directory of static assets.
    pub assest: String,
}

impl Default for Monitor {
    fn default() -> (m: Self)
        ensures
            m.post@ == Seq::<char>::empty(),
            m.md@ == Seq::<char>::empty(),
            m.assest@ == Seq::<char>::empty(),
    {
        Monitor { post: String::new(), md: String::new(), assest: String::new() }
    }
}

/// Site presentation data shown by the rendering layer.
#[derive(Debug, Clone)]
pub struct WebInfo {
    /// Path of the site logo.
    pub site_logo: String,
    /// Name of the site.
    pub site_name: String,
}

impl Default for WebInfo {
    fn default() -> (w: Self)
        ensures
            w.site_logo@ == "/assest/logo.png"@,
            w.site_name@ == "site-name"@,
    {
        WebInfo {
            site_logo: String::from_str("/assest/logo.png"),
            site_name: String::from_str("site-name"),
        }
    }
}

} // verus!
