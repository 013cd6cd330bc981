use axum_back::auth::{
    authenticate, bearer_token, changed_password_hash, hash_outcome, password_check, registration_hash,
    AdminAccount,
};
use axum_back::config::{Config, ConfigError};
use axum_back::ids::{AdminId, StudentKey};
use axum_back::status::Status;

const KNOWN_HASH: &str = "$2b$04$EGdrhbKUv8Oc9vGiXX0HQOxSg445d458Muh7DAHskb6QbtCvdxcie";
const KNOWN_PASSWORD: &str = "correctbatteryhorsestapler";

fn account(hash: &str) -> AdminAccount {
    AdminAccount {
        id: 7,
        email: "admin@test.com".to_string(),
        password_hash: hash.to_string(),
        full_name: "System Admin".to_string(),
    }
}

#[test]
fn config_defaults_and_errors() {
    let c = Config::from_values(
        Some("postgres://postgres@localhost/student_management".to_string()),
        Some("secret".to_string()),
        None,
        None,
    )
    .unwrap();
    assert_eq!(c.server_host, "127.0.0.1");
    assert_eq!(c.server_port, 3000);
    assert_eq!(c.jwt_secret, "secret");

    let c = Config::from_values(
        Some("db".to_string()),
        Some("s".to_string()),
        Some("0.0.0.0".to_string()),
        Some("8080".to_string()),
    )
    .unwrap();
    assert_eq!((c.server_host.as_str(), c.server_port), ("0.0.0.0", 8080));

    let e = Config::from_values(None, Some("s".to_string()), None, None).unwrap_err();
    assert_eq!(e, ConfigError::MissingDatabaseUrl);
    assert_eq!(e.message(), "DATABASE_URL must be set");
    let e = Config::from_values(Some("db".to_string()), None, None, None).unwrap_err();
    assert_eq!(e, ConfigError::MissingJwtSecret);
    assert_eq!(e.message(), "JWT_SECRET must be set");
    let e = Config::from_values(Some("db".to_string()), Some("s".to_string()), None, Some("port".to_string()))
        .unwrap_err();
    assert_eq!(e, ConfigError::InvalidServerPort);
    assert_eq!(e.message(), "SERVER_PORT must be a number");
    let e = Config::from_values(Some("db".to_string()), Some("s".to_string()), None, Some("70000".to_string()))
        .unwrap_err();
    assert_eq!(e, ConfigError::InvalidServerPort);
}

#[test]
fn bearer_tokens() {
    assert_eq!(bearer_token(Some("Bearer abc.def.ghi")).unwrap(), "abc.def.ghi");
    assert_eq!(bearer_token(Some("Bearer ")).unwrap(), "");
    assert_eq!(bearer_token(None).unwrap_err(), Status::Unauthorized);
    assert_eq!(bearer_token(Some("Basic abc")).unwrap_err(), Status::Unauthorized);
    assert_eq!(bearer_token(Some("Bearer")).unwrap_err(), Status::Unauthorized);
    assert_eq!(bearer_token(Some("bearer abc")).unwrap_err(), Status::Unauthorized);
}

#[test]
fn bearer_token_gives_back_what_follows_the_prefix() {
    for token in ["x", "eyJhbGciOiJIUzI1NiJ9.e30.sig", "with space", "ünïcödé"] {
        let header = format!("Bearer {}", token);
        assert_eq!(bearer_token(Some(header.as_str())).unwrap(), token);
    }
}

#[test]
fn admin_identity() {
    let id = AdminId::from_extension(Some("550e8400-e29b-41d4-a716-446655440000".to_string())).unwrap();
    assert_eq!(id.uuid().unwrap(), 0x550e8400_e29b_41d4_a716_446655440000u128);
    assert_eq!(AdminId::from_extension(None).unwrap_err(), Status::Unauthorized);
    let e = AdminId("not-a-uuid".to_string()).uuid().unwrap_err();
    assert_eq!(e.status, Status::BadRequest);
    assert_eq!(e.message, "Invalid admin ID");
    assert_eq!(AdminId::uuid_from_parsed(Some(5)).unwrap(), 5);
    assert_eq!(AdminId::uuid_from_parsed(None).unwrap_err().message, "Invalid admin ID");
}

#[test]
fn student_keys_from_paths() {
    match StudentKey::from_path("550e8400-e29b-41d4-a716-446655440000") {
        StudentKey::Uuid(u) => assert_eq!(u, 0x550e8400_e29b_41d4_a716_446655440000u128),
        other => panic!("{:?}", other),
    }
    match StudentKey::from_path("{550e8400-e29b-41d4-a716-446655440000}") {
        StudentKey::Uuid(u) => assert_eq!(u, 0x550e8400_e29b_41d4_a716_446655440000u128),
        other => panic!("{:?}", other),
    }
    match StudentKey::from_path("STU001") {
        StudentKey::Code(c) => assert_eq!(c, "STU001"),
        other => panic!("{:?}", other),
    }
    let v = 0x67e55044_10b1_426f_9247_bb680e5fe0c8u128;
    for text in [
        "67e55044-10b1-426f-9247-bb680e5fe0c8",
        "67e5504410b1426f9247bb680e5fe0c8",
        "urn:uuid:67e55044-10b1-426f-9247-bb680e5fe0c8",
        "URN:UUID:67E55044-10B1-426F-9247-BB680E5FE0C8",
        "{67e55044-10b1-426f-9247-bb680e5fe0c8}",
    ] {
        match StudentKey::from_path(text) {
            StudentKey::Uuid(u) => assert_eq!(u, v, "{}", text),
            other => panic!("{} gave {:?}", text, other),
        }
    }
    for text in [
        "67e55044-10b1-426f-9247-bb680e5fe0cg",
        "67e55044_10b1-426f-9247-bb680e5fe0c8",
        "(67e55044-10b1-426f-9247-bb680e5fe0c8)",
        "urn:uuix:67e55044-10b1-426f-9247-bb680e5fe0c8",
        "67e5504410b1426f9247bb680e5fe0c",
        "",
    ] {
        match StudentKey::from_path(text) {
            StudentKey::Code(c) => assert_eq!(c, text),
            other => panic!("{} gave {:?}", text, other),
        }
    }
    match StudentKey::from_parsed(Some(9), "whatever") {
        StudentKey::Uuid(u) => assert_eq!(u, 9),
        other => panic!("{:?}", other),
    }
}

#[test]
fn password_checks() {
    assert!(password_check(Ok(true), "wrong").is_ok());
    let e = password_check(Ok(false), "Current password is incorrect").unwrap_err();
    assert_eq!((e.status, e.message.as_str()), (Status::Unauthorized, "Current password is incorrect"));
    let e = password_check(Err("InvalidHash".to_string()), "x").unwrap_err();
    assert_eq!((e.status, e.message.as_str()), (Status::InternalServerError, "InvalidHash"));
}

#[test]
fn login_decisions() {
    let ok = authenticate(Some(account(KNOWN_HASH)), KNOWN_PASSWORD).unwrap();
    assert_eq!(ok.id, 7);
    let e = authenticate(Some(account(KNOWN_HASH)), "wrong").unwrap_err();
    assert_eq!((e.status, e.message.as_str()), (Status::Unauthorized, "Invalid email or password"));
    let e = authenticate(None, KNOWN_PASSWORD).unwrap_err();
    assert_eq!((e.status, e.message.as_str()), (Status::Unauthorized, "Invalid email or password"));
    let e = authenticate(Some(account("not a hash")), KNOWN_PASSWORD).unwrap_err();
    assert_eq!(e.status, Status::InternalServerError);
}

#[test]
fn a_registered_password_logs_in() {
    let h = registration_hash("admin123").unwrap();
    assert_ne!(h, "admin123");
    assert!(authenticate(Some(account(&h)), "admin123").is_ok());
    assert!(authenticate(Some(account(&h)), "admin124").is_err());
}

#[test]
fn a_changed_password_logs_in_and_the_old_one_does_not() {
    let new_hash =
        changed_password_hash(Some(KNOWN_HASH.to_string()), KNOWN_PASSWORD, "newpassword123").unwrap();
    assert!(authenticate(Some(account(&new_hash)), "newpassword123").is_ok());
    assert!(authenticate(Some(account(&new_hash)), KNOWN_PASSWORD).is_err());

    let e = changed_password_hash(Some(KNOWN_HASH.to_string()), "nope", "x").unwrap_err();
    assert_eq!((e.status, e.message.as_str()), (Status::Unauthorized, "Current password is incorrect"));
    let e = changed_password_hash(None, "a", "b").unwrap_err();
    assert_eq!((e.status, e.message.as_str()), (Status::NotFound, "Admin not found"));
    let e = changed_password_hash(Some("garbage".to_string()), "a", "b").unwrap_err();
    assert_eq!(e.status, Status::InternalServerError);
}

#[test]
fn hashing_outcomes() {
    assert_eq!(hash_outcome(Ok("$2b$12$abc".to_string())).unwrap(), "$2b$12$abc");
    let e = hash_outcome(Err("Invalid cost: 3".to_string())).unwrap_err();
    assert_eq!(e.status, Status::InternalServerError);
    assert_eq!(e.message, "Invalid cost: 3");
}
