use vstd::prelude::*;
use vstd::string::*;
use crate::auth::{password_hash_matches, AccountModel};
use crate::db::UserLookup;
use crate::error::{spec_db_failure_details, spec_reported_all, validation_response_views, ErrorResponse, TypeError};
use crate::models::{sign_up_is_valid, spec_sign_up_errors, StatusInfo, SignUpPayload};
use crate::state::{spec_state_counts, update_state_number, AppState};
use crate::validation::field_errors_views;

verus! {

/// Body of the answer when the database cannot report its status.
pub struct StatusError {
    pub error: bool,
    pub error_code: u32,
    pub error_details: String,
}

/// Answer of the status route.
pub enum StateReply {
    /// 200, with the status of the service.
    Status(StatusInfo),
    /// 500, with what the database reported.
    InternalServerError(StatusError),
}

/// The status route: counts the request, and with the database's status
/// reports the service's texts and counters; where the database could not
/// be asked, counts the request as failed and passes on what it reported.
pub fn state(data: &mut AppState, status_result: Result<String, String>) -> (reply: StateReply)
    requires
        old(data).n_requests_recibed < usize::MAX,
        status_result is Err ==> old(data).n_requests_errrors < usize::MAX,
    ensures
        final(data).app_name == old(data).app_name,
        final(data).app_desc == old(data).app_desc,
        final(data).n_connections == old(data).n_connections,
        final(data).n_connections_errors == old(data).n_connections_errors,
        final(data).n_requests_recibed == old(data).n_requests_recibed + 1,
        final(data).n_requests_errrors == old(data).n_requests_errrors + (if status_result is Err {
            1int
        } else {
            0int
        }),
        (final(data).n_requests_recibed as int, final(data).n_requests_errrors as int)
            == spec_state_counts(
            old(data).n_requests_recibed as int,
            old(data).n_requests_errrors as int,
            status_result is Err,
        ),
        old(data).counts_consistent() ==> final(data).counts_consistent(),
        match status_result {
            Ok(status) => reply matches StateReply::Status(info) && {
                &&& info.nombre@ == old(data).app_name@
                &&& info.descripcion@ == old(data).app_desc@
                &&& info.numero_conexiones == old(data).n_connections
                &&& info.numero_errores_de_conexion == old(data).n_connections_errors
                &&& info.numero_peticiones == final(data).n_requests_recibed
                &&& info.numero_peticiones_con_errores == final(data).n_requests_errrors
                &&& info.db_estado@ == status@
            },
            Err(err) => reply matches StateReply::InternalServerError(body) && {
                &&& body.error
                &&& body.error_code == 1
                &&& body.error_details@ == err@
            },
        },
{
    update_state_number(&mut data.n_requests_recibed);
    match status_result {
        Ok(status) => StateReply::Status(
            StatusInfo {
                nombre: data.app_name.clone(),
                descripcion: data.app_desc.clone(),
                numero_conexiones: data.n_connections,
                numero_errores_de_conexion: data.n_connections_errors,
                numero_peticiones: data.n_requests_recibed,
                numero_peticiones_con_errores: data.n_requests_errrors,
                db_estado: status,
            },
        ),
        Err(err) => {
            update_state_number(&mut data.n_requests_errrors);
            StateReply::InternalServerError(
                StatusError { error: true, error_code: 1, error_details: err },
            )
        },
    }
}

/// Body of the answer to a registration that was stored.
pub struct Confirmation {
    pub respuesta: String,
    pub mensaje: String,
}

/// Answer of the registration route.
pub enum RegisterReply {
    /// 200: the account was stored.
    Created(Confirmation),
    /// 403: the request broke a sign-up rule.
    Forbidden(ErrorResponse),
    /// 500: the database did not store the account.
    InternalServerError(ErrorResponse),
}

/// What the registration route does next once the request was checked.
pub enum RegisterStep {
    /// Answer at once.
    Reply(RegisterReply),
    /// Store this account, then answer with [`register_stored`].
    Store(AccountModel),
}

/// Message of the answer to a request that broke a sign-up rule.
pub open spec fn spec_register_invalid_message() -> Seq<char> {
    "Error al crear el usuario, error en la validacion de los campos."@
}

/// Message of the answer when the account could not be stored.
pub open spec fn spec_register_failed_message() -> Seq<char> {
    "Error al crear el usuario."@
}

/// Every entry of the error report on a sign-up request names a field on
/// which at least one rule failed.
pub proof fn lemma_sign_up_entries_nonempty(p: SignUpPayload, lookup: UserLookup)
    ensures
        forall|i: int|
            0 <= i < spec_sign_up_errors(p, lookup).len() ==> #[trigger] spec_sign_up_errors(
                p,
                lookup,
            )[i].errors.len() > 0,
{
}

/// The registration route up to the store: a request that breaks a sign-up
/// rule is answered 403 with the first failed rule of each field; a valid
/// one becomes an account to store with the request's login and role, a
/// fresh identifier and the password's hash, which is never the password in
/// clear. A valid request always gets its account.
pub fn register(payload: SignUpPayload, lookup: UserLookup) -> (res: Result<RegisterStep, ()>)
    ensures
        !sign_up_is_valid(payload, lookup) ==> (res matches Ok(
            RegisterStep::Reply(RegisterReply::Forbidden(body)),
        ) && {
            &&& body.response@ == "error"@
            &&& body.message@ == spec_register_invalid_message()
            &&& body.details matches TypeError::Validation(list) && validation_response_views(list@)
                == spec_reported_all(spec_sign_up_errors(payload, lookup))
        }),
        sign_up_is_valid(payload, lookup) ==> (res matches Ok(RegisterStep::Store(account)) && {
            &&& account.user@ == payload.user@
            &&& account.role == payload.role
            &&& password_hash_matches(account.pass_hash@, payload.password@)
            &&& account.pass_hash@ != payload.password@
        }),
{
    match payload.validate_args(lookup) {
        Err(report) => {
            proof {
                lemma_sign_up_entries_nonempty(payload, lookup);
                assert forall|i: int| 0 <= i < report@.len() implies #[trigger] report@[i].errors@.len()
                    > 0 by {
                    assert(field_errors_views(report@)[i] == report@[i]@);
                }
            }
            let body = ErrorResponse::new_validation_error(
                &report,
                "Error al crear el usuario, error en la validacion de los campos.",
            );
            Ok(RegisterStep::Reply(RegisterReply::Forbidden(body)))
        },
        Ok(()) => {
            let SignUpPayload { user, password, password_confirmation: _, role } = payload;
            match AccountModel::new(user, password.as_str(), role) {
                Ok(account) => Ok(RegisterStep::Store(account)),
                Err(()) => Err(()),
            }
        },
    }
}

/// The registration route after the store: 500 with the database failure
/// answer where storing failed, 200 with the confirmation otherwise.
pub fn register_stored(stored: Result<(), String>) -> (reply: RegisterReply)
    ensures
        match stored {
            Ok(()) => reply matches RegisterReply::Created(c) && c.respuesta@ == "correcto"@
                && c.mensaje@ == "¡Usuario creado correctamente!"@,
            Err(_) => reply matches RegisterReply::InternalServerError(body) && {
                &&& body.response@ == "error"@
                &&& body.message@ == spec_register_failed_message()
                &&& body.details matches TypeError::Other(text) && text@ == spec_db_failure_details()
            },
        },
{
    match stored {
        Ok(()) => RegisterReply::Created(
            Confirmation {
                respuesta: "correcto".to_owned(),
                mensaje: "¡Usuario creado correctamente!".to_owned(),
            },
        ),
        Err(err) => RegisterReply::InternalServerError(
            ErrorResponse::new_db_error(err.as_str(), "Error al crear el usuario."),
        ),
    }
}

/// A token as it is sent in a header.
pub fn bearer(token: &str) -> (header: String)
    ensures
        header@ == "Bearer "@ + token@,
{
    let mut header = "Bearer ".to_owned();
    header.append(token);
    header
}

/// The renewed tokens, each encoded where encoding succeeded, and the text of
/// the instant the renewed refresh token expires.
pub struct EncodedTokens {
    pub jwt: Result<String, ()>,
    pub refresh: Result<String, ()>,
    pub ttl: String,
}

/// Headers of the answer to a renewed session.
pub struct RefreshHeaders {
    pub jwt: String,
    pub refresh: String,
    pub ttl: String,
}

/// Answer of the session renewal route.
pub enum RefreshReply {
    /// 400: the session could not be renewed.
    BadRequest,
    /// 500: a renewed token could not be encoded.
    InternalServerError,
    /// 200, with the renewed tokens and their expiry in the headers.
    Renewed(RefreshHeaders),
}

/// The session renewal route once the store answered: 400 where renewal
/// failed, 500 where either token could not be encoded, otherwise both tokens
/// as bearer headers and the expiry as it was given.
pub fn refresh_session(renewed: Result<EncodedTokens, ()>) -> (reply: RefreshReply)
    ensures
        match renewed {
            Err(()) => reply is BadRequest,
            Ok(t) => match (t.jwt, t.refresh) {
                (Ok(jwt), Ok(refresh)) => reply matches RefreshReply::Renewed(h) && {
                    &&& h.jwt@ == "Bearer "@ + jwt@
                    &&& h.refresh@ == "Bearer "@ + refresh@
                    &&& h.ttl@ == t.ttl@
                },
                _ => reply is InternalServerError,
            },
        },
{
    match renewed {
        Err(()) => RefreshReply::BadRequest,
        Ok(tokens) => {
            let EncodedTokens { jwt, refresh, ttl } = tokens;
            let jwt = match jwt {
                Ok(text) => text,
                Err(()) => return RefreshReply::InternalServerError,
            };
            let refresh = match refresh {
                Ok(text) => text,
                Err(()) => return RefreshReply::InternalServerError,
            };
            RefreshReply::Renewed(
                RefreshHeaders { jwt: bearer(jwt.as_str()), refresh: bearer(refresh.as_str()), ttl },
            )
        },
    }
}

} // verus!
