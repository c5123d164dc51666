//! The pure parts of the two credential strategies: what the directory
//! service is asked, and how environment values become credentials.
use vstd::prelude::*;
use vstd::string::{StrSliceExecFns, StringExecFns};
use crate::database::TursoConfig;
use crate::text::chars_of;

verus! {

/// Credentials from the directory service named by `GLOBE_DS_API`.
pub struct GlobeStrategy;

/// Credentials from `TURSO_DB_URL` and `TURSO_DB_TOKEN`.
pub struct EnvVarStrategy;

/// The position of the first `.` at or after `i`, else the end.
pub open spec fn first_dot(s: Seq<char>, i: int) -> int
    decreases s.len() - i,
{
    if i >= s.len() {
        s.len() as int
    } else if s[i] == '.' {
        i
    } else {
        first_dot(s, i + 1)
    }
}

impl GlobeStrategy {
    /// The database name sent to the directory service: the file name up to
    /// its first `.`.
    pub fn db_key(db_name: &str) -> (r: String)
        ensures
            r@ == db_name@.subrange(0, first_dot(db_name@, 0)),
    {
        let s = chars_of(db_name);
        let mut i: usize = 0;
        while i < s.len() && s[i] != '.'
            invariant
                i <= s@.len(),
                s@ == db_name@,
                first_dot(s@, 0) == first_dot(s@, i as int),
            decreases s@.len() - i,
        {
            i = i + 1;
        }
        String::from_str(db_name.substring_char(0, i))
    }

    /// `<base>/db/auth`, where credentials are asked for.
    pub fn auth_url(base: &str) -> (r: String)
        ensures
            r@ == base@ + "/db/auth"@,
    {
        String::from_str(base).concat("/db/auth")
    }
}

impl EnvVarStrategy {
    /// Credentials from the two environment values; a missing one is named.
    pub fn config_from(url: Option<String>, token: Option<String>) -> (r: Result<TursoConfig, String>)
        ensures
            url is None ==> (r matches Err(m) && m@ == "TURSO_DB_URL environment variable not set"@),
            url is Some && token is None ==> (r matches Err(m) && m@
                == "TURSO_DB_TOKEN environment variable not set"@),
            url is Some && token is Some ==> (r matches Ok(c) && c.db_url == url->Some_0
                && c.db_token == token->Some_0),
    {
        match url {
            None => Err(String::from_str("TURSO_DB_URL environment variable not set")),
            Some(u) => match token {
                None => Err(String::from_str("TURSO_DB_TOKEN environment variable not set")),
                Some(t) => Ok(TursoConfig { db_url: u, db_token: t }),
            },
        }
    }
}

} // verus!
