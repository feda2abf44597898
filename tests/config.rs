use petclinic::env::SESSION_TIMEOUT;
use petclinic::from_str;

#[test]
fn dev_settings() {
    let e = from_str("dev");
    assert_eq!(e.name, "dev");
    assert_eq!(e.db_server, "localhost");
    assert_eq!(e.db_name, "petclinic");
    assert_eq!(e.db_username, "krabby");
    assert_eq!(e.db_password, "patty");
    assert_eq!(e.redis_server, "localhost");
    assert_eq!(e.redis_password, None);
    assert_eq!(e.session_timeout, 108000);
}

#[test]
fn qa_settings() {
    let e = from_str("qa");
    assert_eq!(e.name, "qa");
    assert_eq!(e.redis_password, None);
    assert_eq!(e.session_timeout, SESSION_TIMEOUT);
}

#[test]
fn prod_has_store_password() {
    let e = from_str("prod");
    assert_eq!(e.name, "prod");
    assert_eq!(e.redis_password, Some("redispass".to_string()));
    assert_eq!(e.session_timeout, 108000);
}

#[test]
fn unknown_env_falls_back() {
    let e = from_str("staging");
    assert_eq!(e.name, "_");
    assert_eq!(e.redis_password, None);
    assert_eq!(e.db_name, "petclinic");
    let empty = from_str("");
    assert_eq!(empty.name, "_");
}
