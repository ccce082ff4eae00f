//! Runtime configuration and its defaults. Reading the environment is the
//! caller's business; this module fixes which default stands in for every
//! missing setting.

use vstd::prelude::*;

verus! {

/// The application's configuration: where the database lives, the secret
/// that signs session tokens, and the cost parameter of the password hash.
#[derive(Clone, Debug)]
pub struct Config {
    pub database_url: String,
    pub jwt_secret: String,
    pub bcrypt_cost: u32,
}

impl Config {
    /// Fills the configuration from whatever settings were found, keeping
    /// the documented default wherever one is missing.
    pub fn resolve(
        database_url: Option<String>,
        jwt_secret: Option<String>,
        bcrypt_cost: Option<u32>,
    ) -> (c: Config)
        ensures
            match database_url {
                Option::Some(u) => c.database_url == u,
                Option::None => c.database_url@ == "postgresql://localhost/superior6"@,
            },
            match jwt_secret {
                Option::Some(s) => c.jwt_secret == s,
                Option::None => c.jwt_secret@ == "supersecretkey"@,
            },
            match bcrypt_cost {
                Option::Some(n) => c.bcrypt_cost == n,
                Option::None => c.bcrypt_cost == 12,
            },
    {
        let database_url = match database_url {
            Option::Some(u) => u,
            Option::None => "postgresql://localhost/superior6".to_owned(),
        };
        let jwt_secret = match jwt_secret {
            Option::Some(s) => s,
            Option::None => "supersecretkey".to_owned(),
        };
        let bcrypt_cost = match bcrypt_cost {
            Option::Some(n) => n,
            Option::None => 12,
        };
        Config { database_url, jwt_secret, bcrypt_cost }
    }
}

} // verus!
