//! The bot's settings.

use vstd::prelude::*;

verus! {

/// The bot token, the database address and the size of the connection pool.
pub struct Config {
    pub token: String,
    pub database_url: String,
    pub max_connections: u32,
}

impl Default for Config {
    /// Empty token and address, and five connections.
    fn default() -> (c: Self)
        ensures
            c.token@ == Seq::<char>::empty(),
            c.database_url@ == Seq::<char>::empty(),
            c.max_connections == 5,
    {
        Config { token: String::new(), database_url: String::new(), max_connections: 5 }
    }
}

}
