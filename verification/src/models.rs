use vstd::prelude::*;
use crate::auth::RoleTypes;
use crate::db::{spec_unique_username, validate_unique_username, UserLookup};
use crate::validation::{
    field_entry, field_error_views, field_errors_views, fields_distinct, length_within, push_field, texts_match,
    FieldError, FieldErrorModel, FieldErrors, FieldErrorsModel,
};

verus! {

/// What the status route reports about the running service.
pub struct StatusInfo {
    pub nombre: String,
    pub descripcion: String,
    pub numero_conexiones: usize,
    pub numero_errores_de_conexion: usize,
    pub numero_peticiones: usize,
    pub numero_peticiones_con_errores: usize,
    pub db_estado: String,
}

/// Data of a session.
pub struct SessionData {
    pub id: uuid::Uuid,
    pub subject: String,
}

/// A request to register a new user.
pub struct SignUpPayload {
    pub user: String,
    pub password: String,
    pub password_confirmation: String,
    pub role: RoleTypes,
}

/// A request to sign in.
pub struct SignInPayload {
    pub user: String,
    pub password: String,
}

/// A failed rule with its message.
pub open spec fn rule_error(code: Seq<char>, message: Seq<char>) -> FieldErrorModel {
    FieldErrorModel { code, message: Some(message) }
}

/// Rules on the login, in the order they are checked: at least two
/// characters, then uniqueness, whose failure carries its own code under the
/// message that the login is taken.
pub open spec fn spec_user_errors(
    user: Seq<char>,
    unique: Result<(), FieldErrorModel>,
) -> Seq<FieldErrorModel> {
    (if user.len() < 2 {
        seq![rule_error("InvalidMinLenght"@, "El usuario debe tener almenos 2 caracteres"@)]
    } else {
        seq![]
    }) + match unique {
        Ok(_) => seq![],
        Err(e) => seq![rule_error(e.code, "El usuario ya existe"@)],
    }
}

/// Rules on the password, in the order they are checked: at least eight
/// characters, at most eighteen.
pub open spec fn spec_password_errors(password: Seq<char>) -> Seq<FieldErrorModel> {
    (if password.len() < 8 {
        seq![rule_error("InvalidMinLength"@, "La contraseña debe tener minimo 8 caracteres"@)]
    } else {
        seq![]
    }) + (if password.len() > 18 {
        seq![rule_error("InvalidMaxLength"@, "La contraseña debe tener maximo 18 caracteres"@)]
    } else {
        seq![]
    })
}

/// Rule on the confirmation: it equals the password.
pub open spec fn spec_confirmation_errors(
    confirmation: Seq<char>,
    password: Seq<char>,
) -> Seq<FieldErrorModel> {
    if confirmation != password {
        seq![rule_error("PasswordNotSame"@, "Las contraseñas no coinciden"@)]
    } else {
        seq![]
    }
}

/// The error report on a sign-up request, one entry per field on which a
/// rule failed, each under the field's name in the request.
pub open spec fn spec_sign_up_errors(p: SignUpPayload, lookup: UserLookup) -> Seq<
    FieldErrorsModel,
> {
    field_entry("usuario"@, spec_user_errors(p.user@, spec_unique_username(lookup))) + field_entry(
        "contraseña"@,
        spec_password_errors(p.password@),
    ) + field_entry(
        "verificacion_contraseña"@,
        spec_confirmation_errors(p.password_confirmation@, p.password@),
    )
}

/// A sign-up request is accepted when the login has at least two characters
/// and is not taken, the password has eight to eighteen characters, and the
/// confirmation equals it.
pub open spec fn sign_up_is_valid(p: SignUpPayload, lookup: UserLookup) -> bool {
    &&& p.user@.len() >= 2
    &&& lookup == UserLookup::Absent
    &&& 8 <= p.password@.len() <= 18
    &&& p.password_confirmation@ == p.password@
}

/// The report on a sign-up request names each field at most once.
pub proof fn lemma_sign_up_fields_distinct(p: SignUpPayload, lookup: UserLookup)
    ensures
        fields_distinct(spec_sign_up_errors(p, lookup)),
{
    reveal_strlit("usuario");
    reveal_strlit("contraseña");
    reveal_strlit("verificacion_contraseña");
    let e = spec_sign_up_errors(p, lookup);
    assert forall|i: int, j: int| 0 <= i < j < e.len() implies #[trigger] e[i].field != #[trigger] e[j].field by {
        assert(e[i].field.len() != e[j].field.len());
    }
}

/// A failed rule with its message, as a value.
fn rule(code: &str, message: &str) -> (e: FieldError)
    ensures
        e@ == rule_error(code@, message@),
{
    FieldError { code: code.to_owned(), message: Some(message.to_owned()) }
}

impl SignUpPayload {
    /// Checks the request against the sign-up rules, given the lookup of the
    /// login among the stored accounts. Accepts it exactly when the rules
    /// hold; otherwise reports each field on which a rule failed.
    pub fn validate_args(&self, lookup: UserLookup) -> (res: Result<(), Vec<FieldErrors>>)
        ensures
            res is Ok <==> sign_up_is_valid(*self, lookup),
            res is Ok <==> spec_sign_up_errors(*self, lookup).len() == 0,
            res matches Err(report) ==> field_errors_views(report@) == spec_sign_up_errors(
                *self,
                lookup,
            ),
            res matches Err(report) ==> fields_distinct(field_errors_views(report@)),
    {
        let mut report: Vec<FieldErrors> = Vec::new();

        let mut user_errors: Vec<FieldError> = Vec::new();
        if !length_within(self.user.as_str(), Some(2), None) {
            user_errors.push(
                rule("InvalidMinLenght", "El usuario debe tener almenos 2 caracteres"),
            );
        }
        match validate_unique_username(lookup) {
            Ok(()) => {},
            Err(e) => {
                user_errors.push(
                    FieldError { code: e.code, message: Some("El usuario ya existe".to_owned()) },
                );
            },
        }
        assert(field_error_views(user_errors@) =~= spec_user_errors(
            self.user@,
            spec_unique_username(lookup),
        ));
        push_field(&mut report, "usuario", user_errors);

        let mut password_errors: Vec<FieldError> = Vec::new();
        if !length_within(self.password.as_str(), Some(8), None) {
            password_errors.push(
                rule("InvalidMinLength", "La contraseña debe tener minimo 8 caracteres"),
            );
        }
        if !length_within(self.password.as_str(), None, Some(18)) {
            password_errors.push(
                rule("InvalidMaxLength", "La contraseña debe tener maximo 18 caracteres"),
            );
        }
        assert(field_error_views(password_errors@) =~= spec_password_errors(self.password@));
        push_field(&mut report, "contraseña", password_errors);

        let mut confirmation_errors: Vec<FieldError> = Vec::new();
        if !texts_match(&self.password_confirmation, &self.password) {
            confirmation_errors.push(rule("PasswordNotSame", "Las contraseñas no coinciden"));
        }
        assert(field_error_views(confirmation_errors@) =~= spec_confirmation_errors(
            self.password_confirmation@,
            self.password@,
        ));
        push_field(&mut report, "verificacion_contraseña", confirmation_errors);

        assert(field_errors_views(report@) =~= spec_sign_up_errors(*self, lookup));
        proof {
            lemma_sign_up_fields_distinct(*self, lookup);
        }
        if report.len() == 0 {
            Ok(())
        } else {
            Err(report)
        }
    }
}

} // verus!
