//! Process-wide configuration, read once at startup and shared read-only.

use vstd::prelude::*;
use vstd::string::*;

verus! {

/// The configuration the service starts with: where the datastore lives,
/// its access key, and the token signing parameters.
#[derive(Clone, Debug)]
pub struct Config {
    pub supabase_url: String,
    pub supabase_anon_key: String,
    pub jwt_secret: String,
    pub jwt_expires_in: String,
    pub jwt_maxage: i32,
}

impl Config {
    /// Builds the configuration from values already read from the
    /// environment; reading them is the caller's concern.
    pub fn new(
        supabase_url: String,
        supabase_anon_key: String,
        jwt_secret: String,
        jwt_expires_in: String,
        jwt_maxage: i32,
    ) -> (r: Config)
        ensures
            r.supabase_url@ == supabase_url@,
            r.supabase_anon_key@ == supabase_anon_key@,
            r.jwt_secret@ == jwt_secret@,
            r.jwt_expires_in@ == jwt_expires_in@,
            r.jwt_maxage == jwt_maxage,
    {
        Config { supabase_url, supabase_anon_key, jwt_secret, jwt_expires_in, jwt_maxage }
    }

    /// Builds the configuration from what the environment offered: the
    /// datastore values are required and arrive as given; each token
    /// setting falls back to its fixed default when the environment had
    /// none.
    pub fn from_values(
        supabase_url: String,
        supabase_anon_key: String,
        jwt_secret: Option<String>,
        jwt_expires_in: Option<String>,
        jwt_maxage: Option<i32>,
    ) -> (r: Config)
        ensures
            r.supabase_url@ == supabase_url@,
            r.supabase_anon_key@ == supabase_anon_key@,
            r.jwt_secret@ == (match jwt_secret {
                Some(s) => s@,
                None => "my_ultra_secure_secret"@,
            }),
            r.jwt_expires_in@ == (match jwt_expires_in {
                Some(s) => s@,
                None => "60m"@,
            }),
            r.jwt_maxage == (match jwt_maxage {
                Some(n) => n,
                None => 60,
            }),
    {
        let jwt_secret = match jwt_secret {
            Some(s) => s,
            None => String::from_str("my_ultra_secure_secret"),
        };
        let jwt_expires_in = match jwt_expires_in {
            Some(s) => s,
            None => String::from_str("60m"),
        };
        let jwt_maxage = match jwt_maxage {
            Some(n) => n,
            None => 60,
        };
        Config { supabase_url, supabase_anon_key, jwt_secret, jwt_expires_in, jwt_maxage }
    }
}

} // verus!
