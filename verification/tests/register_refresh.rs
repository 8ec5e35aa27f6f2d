use taskmanager_api::auth::{AccountModel, AppClaims, Audience, RoleTypes};
use taskmanager_api::db::{mongodb_settings, ClientMode, StartupFailure, UserLookup, REDIS_POOL_SIZE};
use taskmanager_api::error::TypeError;
use taskmanager_api::middleware::session_ttl_days;
use taskmanager_api::models::SignUpPayload;
use taskmanager_api::routes::{
    bearer, refresh_session, register, register_stored, EncodedTokens, RefreshReply, RegisterReply,
    RegisterStep,
};

fn payload(user: &str, password: &str, confirmation: &str, role: RoleTypes) -> SignUpPayload {
    SignUpPayload {
        user: user.to_string(),
        password: password.to_string(),
        password_confirmation: confirmation.to_string(),
        role,
    }
}

#[test]
fn register_rejects_invalid_request_with_first_error_per_field() {
    let step = register(payload("a", "corta", "otra", RoleTypes::User), UserLookup::Present).unwrap();
    match step {
        RegisterStep::Reply(RegisterReply::Forbidden(body)) => {
            assert_eq!(body.response, "error");
            assert_eq!(
                body.message,
                "Error al crear el usuario, error en la validacion de los campos."
            );
            match body.details {
                TypeError::Validation(list) => {
                    assert_eq!(list.len(), 3);
                    assert_eq!(list[0].input, "usuario");
                    assert_eq!(list[0].code, "InvalidMinLenght");
                    assert_eq!(list[0].message, "El usuario debe tener almenos 2 caracteres");
                    assert_eq!(list[1].input, "contraseña");
                    assert_eq!(list[1].code, "InvalidMinLength");
                    assert_eq!(list[2].input, "verificacion_contraseña");
                    assert_eq!(list[2].code, "PasswordNotSame");
                }
                TypeError::Other(_) => panic!("expected a validation report"),
            }
        }
        _ => panic!("expected a 403 answer"),
    }
}

#[test]
fn register_rejects_taken_login() {
    match register(payload("ana", "secreto12", "secreto12", RoleTypes::User), UserLookup::Present) {
        Ok(RegisterStep::Reply(RegisterReply::Forbidden(body))) => match body.details {
            TypeError::Validation(list) => {
                assert_eq!(list.len(), 1);
                assert_eq!(list[0].input, "usuario");
                assert_eq!(list[0].code, "InvalidUsername");
                assert_eq!(list[0].message, "El usuario ya existe");
            }
            TypeError::Other(_) => panic!("expected a validation report"),
        },
        _ => panic!("expected a 403 answer"),
    }
}

#[test]
fn register_stores_valid_request_with_hashed_password() {
    let step = register(payload("ana", "secreto12", "secreto12", RoleTypes::Admin), UserLookup::Absent)
        .expect("hashing succeeds");
    match step {
        RegisterStep::Store(account) => {
            assert_eq!(account.user, "ana");
            assert_eq!(account.role, RoleTypes::Admin);
            assert_ne!(account.pass_hash, "secreto12");
            assert!(account.pass_hash.starts_with("$argon2"));
            assert!(actix_jwt_session::Hashing::verify(&account.pass_hash, "secreto12").is_ok());
            assert_eq!(account.uuid.get_version_num(), 4);
        }
        RegisterStep::Reply(_) => panic!("expected an account to store"),
    }
}

#[test]
fn accounts_get_distinct_identifiers_and_salts() {
    let a = AccountModel::new("ana".to_string(), "secreto12", RoleTypes::User).unwrap();
    let b = AccountModel::new("ana".to_string(), "secreto12", RoleTypes::User).unwrap();
    assert_ne!(a.uuid, b.uuid);
    assert_ne!(a.pass_hash, b.pass_hash);
}

#[test]
fn register_stored_answers_by_store_outcome() {
    match register_stored(Ok(())) {
        RegisterReply::Created(c) => {
            assert_eq!(c.respuesta, "correcto");
            assert_eq!(c.mensaje, "¡Usuario creado correctamente!");
        }
        _ => panic!("expected a confirmation"),
    }
    match register_stored(Err("duplicate key".to_string())) {
        RegisterReply::InternalServerError(body) => {
            assert_eq!(body.response, "error");
            assert_eq!(body.message, "Error al crear el usuario.");
            match body.details {
                TypeError::Other(text) => assert_eq!(
                    text,
                    "Error en la base de datos, por favor contactarse con servicio tecnico."
                ),
                TypeError::Validation(_) => panic!("expected a plain error"),
            }
        }
        _ => panic!("expected a 500 answer"),
    }
}

#[test]
fn bearer_prefixes_token() {
    assert_eq!(bearer("abc.def"), "Bearer abc.def");
    assert_eq!(bearer(""), "Bearer ");
}

fn tokens(jwt: Result<&str, ()>, refresh: Result<&str, ()>) -> EncodedTokens {
    EncodedTokens {
        jwt: jwt.map(|s| s.to_string()),
        refresh: refresh.map(|s| s.to_string()),
        ttl: "2024-01-01 0:00:00.0 +00:00:00".to_string(),
    }
}

#[test]
fn refresh_session_answers() {
    assert!(matches!(refresh_session(Err(())), RefreshReply::BadRequest));
    assert!(matches!(
        refresh_session(Ok(tokens(Err(()), Ok("r")))),
        RefreshReply::InternalServerError
    ));
    assert!(matches!(
        refresh_session(Ok(tokens(Ok("j"), Err(())))),
        RefreshReply::InternalServerError
    ));
    match refresh_session(Ok(tokens(Ok("j.w.t"), Ok("r.e.f")))) {
        RefreshReply::Renewed(h) => {
            assert_eq!(h.jwt, "Bearer j.w.t");
            assert_eq!(h.refresh, "Bearer r.e.f");
            assert_eq!(h.ttl, "2024-01-01 0:00:00.0 +00:00:00");
        }
        _ => panic!("expected renewed headers"),
    }
}

#[test]
fn claims_getters_give_their_fields() {
    let jwt_id = uuid::Uuid::from_u128(7);
    let account_id = uuid::Uuid::from_u128(9);
    let claims = AppClaims {
        expiration_time: 100,
        issues_at: 1,
        subject: "ana".to_string(),
        audience: Audience::Web,
        jwt_id,
        account_id,
        not_before: 0,
    };
    assert_eq!(claims.jti(), jwt_id);
    assert_eq!(claims.subject(), "ana");
    assert_eq!(claims.account_id(), account_id);
}

#[test]
fn startup_settings() {
    let a = mongodb_settings(ClientMode::Async);
    assert_eq!(a.app_name, "TaskManager API async");
    assert_eq!(a.connect_timeout_secs, 5);
    assert_eq!(a.server_selection_timeout_secs, 5);
    assert_eq!(a.default_database, "TaskManager");
    assert_eq!(a.max_connecting, 6);
    let s = mongodb_settings(ClientMode::Sync);
    assert_eq!(s.app_name, "TaskManager API sync");
    assert_eq!(StartupFailure::MongoDb.exit_code(), 1);
    assert_eq!(StartupFailure::Redis.exit_code(), 2);
    assert_eq!(REDIS_POOL_SIZE, 5);
    let ttl = session_ttl_days();
    assert_eq!(ttl.jwt, 14);
    assert_eq!(ttl.refresh, 93);
}

#[test]
fn account_from_parts_keeps_every_field() {
    let id = uuid::Uuid::from_u128(42);
    let a = AccountModel::from_parts(id, "ana".to_string(), "$argon2id$x".to_string(), RoleTypes::Admin);
    assert_eq!(a.uuid, id);
    assert_eq!(a.user, "ana");
    assert_eq!(a.pass_hash, "$argon2id$x");
    assert_eq!(a.role, RoleTypes::Admin);
}

#[test]
fn account_hash_is_made_from_the_password_not_the_login() {
    let a = AccountModel::new("ana".to_string(), "secreto12", RoleTypes::User).unwrap();
    assert!(actix_jwt_session::Hashing::verify(&a.pass_hash, "secreto12").is_ok());
    assert!(actix_jwt_session::Hashing::verify(&a.pass_hash, "ana").is_err());
    assert_ne!(a.pass_hash, "secreto12");
}

#[test]
fn account_hash_is_a_default_argon2id_string() {
    let a = AccountModel::new("ana".to_string(), "secreto12", RoleTypes::User).unwrap();
    assert_eq!(a.pass_hash.chars().count(), 97);
    assert!(a.pass_hash.starts_with("$argon2id$v=19$m=19456,t=2,p=1$"));
    let empty = AccountModel::new("ana".to_string(), "", RoleTypes::User).unwrap();
    assert_eq!(empty.pass_hash.chars().count(), 97);
    assert!(actix_jwt_session::Hashing::verify(&empty.pass_hash, "").is_ok());
}
