use vstd::prelude::*;

verus! {

/// Seconds a session stays alive after login or its last use.
pub const SESSION_TIMEOUT: usize = 108000;

/// Deployment settings selected by environment name.
#[derive(Clone, Debug)]
pub struct Env {
    pub name: String,
    pub db_server: String,
    pub db_name: String,
    pub db_username: String,
    pub db_password: String,
    pub redis_server: String,
    pub redis_password: Option<String>,
    pub session_timeout: usize,
}

/// The environment names that have settings of their own.
pub open spec fn is_known_env(s: Seq<char>) -> bool {
    s == "dev"@ || s == "qa"@ || s == "prod"@
}

/// What `from_str` yields for the name `s`.
pub open spec fn env_spec(s: Seq<char>, e: Env) -> bool {
    &&& e.name@ == (if is_known_env(s) { s } else { "_"@ })
    &&& e.db_server@ == "localhost"@
    &&& e.db_name@ == "petclinic"@
    &&& e.db_username@ == "krabby"@
    &&& e.db_password@ == "patty"@
    &&& e.redis_server@ == "localhost"@
    &&& e.redis_password.is_some() == (s == "prod"@)
    &&& (e.redis_password matches Some(p) ==> p@ == "redispass"@)
    &&& e.session_timeout == SESSION_TIMEOUT
}

fn settings(name: &str, redis_password: Option<String>) -> (r: Env)
    ensures
        r.name@ == name@,
        r.db_server@ == "localhost"@,
        r.db_name@ == "petclinic"@,
        r.db_username@ == "krabby"@,
        r.db_password@ == "patty"@,
        r.redis_server@ == "localhost"@,
        r.redis_password == redis_password,
        r.session_timeout == SESSION_TIMEOUT,
{
    Env {
        name: name.to_owned(),
        db_server: "localhost".to_owned(),
        db_name: "petclinic".to_owned(),
        db_username: "krabby".to_owned(),
        db_password: "patty".to_owned(),
        redis_server: "localhost".to_owned(),
        redis_password,
        session_timeout: SESSION_TIMEOUT,
    }
}

/// Settings for the environment named `env`; an unknown name gets the
/// fallback settings named `_`, and only `prod` has a store password.
pub fn from_str(env: &str) -> (r: Env)
    ensures
        env_spec(env@, r),
{
    proof {
        reveal_strlit("dev");
        reveal_strlit("qa");
        reveal_strlit("prod");
        assert("dev"@.len() != "prod"@.len());
        assert("qa"@.len() != "prod"@.len());
    }
    let s = env.to_owned();
    if s == "dev".to_owned() {
        settings("dev", None)
    } else if s == "qa".to_owned() {
        settings("qa", None)
    } else if s == "prod".to_owned() {
        settings("prod", Some("redispass".to_owned()))
    } else {
        settings("_", None)
    }
}

} // verus!
