use vstd::prelude::*;
use vstd::string::*;

verus! {

/// The options a connection to the store is made with; each one unset leaves the
/// pool's own default.
#[derive(Debug)]
pub struct ConnectionBuilder {
    pub host: Option<String>,
    pub port: Option<u16>,
    pub username: Option<String>,
    pub password: Option<String>,
    pub database: Option<String>,
    pub max_connections: Option<u32>,
    pub min_connections: Option<u32>,
    pub url: Option<String>,
}

/// `text` as the value of an option.
pub open spec fn set_to(option: Option<String>, text: Seq<char>) -> bool {
    option matches Some(s) && s@ == text
}

impl ConnectionBuilder {
    pub fn new() -> (r: Self)
        ensures
            r.host is None,
            r.port is None,
            r.username is None,
            r.password is None,
            r.database is None,
            r.max_connections is None,
            r.min_connections is None,
            r.url is None,
    {
        ConnectionBuilder {
            host: None,
            port: None,
            username: None,
            password: None,
            database: None,
            max_connections: None,
            min_connections: None,
            url: None,
        }
    }

    pub fn host(self, host: &str) -> (r: Self)
        ensures
            set_to(r.host, host@),
            r == (ConnectionBuilder { host: r.host, ..self }),
    {
        ConnectionBuilder { host: Some(host.to_owned()), ..self }
    }

    pub fn port(self, port: u16) -> (r: Self)
        ensures
            r == (ConnectionBuilder { port: Some(port), ..self }),
    {
        ConnectionBuilder { port: Some(port), ..self }
    }

    pub fn username(self, username: &str) -> (r: Self)
        ensures
            set_to(r.username, username@),
            r == (ConnectionBuilder { username: r.username, ..self }),
    {
        ConnectionBuilder { username: Some(username.to_owned()), ..self }
    }

    pub fn password(self, password: &str) -> (r: Self)
        ensures
            set_to(r.password, password@),
            r == (ConnectionBuilder { password: r.password, ..self }),
    {
        ConnectionBuilder { password: Some(password.to_owned()), ..self }
    }

    pub fn database(self, database: &str) -> (r: Self)
        ensures
            set_to(r.database, database@),
            r == (ConnectionBuilder { database: r.database, ..self }),
    {
        ConnectionBuilder { database: Some(database.to_owned()), ..self }
    }

    pub fn max_connections(self, max: u32) -> (r: Self)
        ensures
            r == (ConnectionBuilder { max_connections: Some(max), ..self }),
    {
        ConnectionBuilder { max_connections: Some(max), ..self }
    }

    pub fn min_connections(self, min: u32) -> (r: Self)
        ensures
            r == (ConnectionBuilder { min_connections: Some(min), ..self }),
    {
        ConnectionBuilder { min_connections: Some(min), ..self }
    }

    pub fn url(self, url: &str) -> (r: Self)
        ensures
            set_to(r.url, url@),
            r == (ConnectionBuilder { url: r.url, ..self }),
    {
        ConnectionBuilder { url: Some(url.to_owned()), ..self }
    }
}

impl Default for ConnectionBuilder {
    fn default() -> (r: Self)
        ensures
            r.host is None,
            r.port is None,
            r.username is None,
            r.password is None,
            r.database is None,
            r.max_connections is None,
            r.min_connections is None,
            r.url is None,
    {
        ConnectionBuilder::new()
    }
}

} // verus!
