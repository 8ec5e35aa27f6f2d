use taskmanager_api::auth::RoleTypes;
use taskmanager_api::db::{validate_unique_username, UserLookup};
use taskmanager_api::error::{ErrorResponse, TypeError};
use taskmanager_api::models::SignUpPayload;
use taskmanager_api::validation::{FieldError, FieldErrors};

fn payload(user: &str, password: &str, confirmation: &str) -> SignUpPayload {
    SignUpPayload {
        user: user.to_string(),
        password: password.to_string(),
        password_confirmation: confirmation.to_string(),
        role: RoleTypes::User,
    }
}

fn codes(report: &[FieldErrors], field: &str) -> Vec<String> {
    report
        .iter()
        .find(|e| e.field == field)
        .map(|e| e.errors.iter().map(|x| x.code.clone()).collect())
        .unwrap_or_default()
}

#[test]
fn unique_username_passes_only_when_absent() {
    assert!(validate_unique_username(UserLookup::Absent).is_ok());
    let taken = validate_unique_username(UserLookup::Present).unwrap_err();
    assert_eq!(taken.code, "InvalidUsername");
    assert_eq!(taken.message, None);
    let failed = validate_unique_username(UserLookup::Failed).unwrap_err();
    assert_eq!(failed.code, "InternalServerErrorOnValidation");
    assert_eq!(failed.message, None);
}

#[test]
fn valid_payload_is_accepted() {
    assert!(payload("ana", "secreto12", "secreto12").validate_args(UserLookup::Absent).is_ok());
    assert!(payload("ab", "12345678", "12345678").validate_args(UserLookup::Absent).is_ok());
    let eighteen = "abcdefghijklmnopqr";
    assert!(payload("ab", eighteen, eighteen).validate_args(UserLookup::Absent).is_ok());
}

#[test]
fn short_login_and_taken_login_are_both_recorded_in_order() {
    let report = payload("a", "secreto12", "secreto12")
        .validate_args(UserLookup::Present)
        .unwrap_err();
    assert_eq!(report.len(), 1);
    assert_eq!(report[0].field, "usuario");
    assert_eq!(codes(&report, "usuario"), vec!["InvalidMinLenght", "InvalidUsername"]);
    assert_eq!(
        report[0].errors[0].message.as_deref(),
        Some("El usuario debe tener almenos 2 caracteres")
    );
    assert_eq!(report[0].errors[1].message.as_deref(), Some("El usuario ya existe"));
}

#[test]
fn failed_lookup_rejects_with_its_code() {
    let report = payload("ana", "secreto12", "secreto12")
        .validate_args(UserLookup::Failed)
        .unwrap_err();
    assert_eq!(codes(&report, "usuario"), vec!["InternalServerErrorOnValidation"]);
    assert_eq!(report[0].errors[0].message.as_deref(), Some("El usuario ya existe"));
}

#[test]
fn password_length_rules() {
    let short = payload("ana", "1234567", "1234567").validate_args(UserLookup::Absent).unwrap_err();
    assert_eq!(codes(&short, "contraseña"), vec!["InvalidMinLength"]);
    assert_eq!(
        short[0].errors[0].message.as_deref(),
        Some("La contraseña debe tener minimo 8 caracteres")
    );
    let long_pw = "abcdefghijklmnopqrs";
    let long = payload("ana", long_pw, long_pw).validate_args(UserLookup::Absent).unwrap_err();
    assert_eq!(codes(&long, "contraseña"), vec!["InvalidMaxLength"]);
    assert_eq!(
        long[0].errors[0].message.as_deref(),
        Some("La contraseña debe tener maximo 18 caracteres")
    );
}

#[test]
fn lengths_count_characters_not_bytes() {
    // seven two-byte characters: fourteen bytes, still too short
    let seven = "ñññññññ";
    let r = payload("ñ", seven, seven).validate_args(UserLookup::Absent).unwrap_err();
    assert_eq!(codes(&r, "usuario"), vec!["InvalidMinLenght"]);
    assert_eq!(codes(&r, "contraseña"), vec!["InvalidMinLength"]);
    // eighteen two-byte characters: thirty-six bytes, still accepted
    let eighteen = "ñ".repeat(18);
    assert!(payload("ññ", &eighteen, &eighteen).validate_args(UserLookup::Absent).is_ok());
}

#[test]
fn confirmation_must_match_password() {
    let r = payload("ana", "secreto12", "secreto13").validate_args(UserLookup::Absent).unwrap_err();
    assert_eq!(r.len(), 1);
    assert_eq!(r[0].field, "verificacion_contraseña");
    assert_eq!(codes(&r, "verificacion_contraseña"), vec!["PasswordNotSame"]);
    assert_eq!(r[0].errors[0].message.as_deref(), Some("Las contraseñas no coinciden"));
}

#[test]
fn every_broken_field_is_reported_in_field_order() {
    let r = payload("", "x", "y").validate_args(UserLookup::Present).unwrap_err();
    let fields: Vec<&str> = r.iter().map(|e| e.field.as_str()).collect();
    assert_eq!(fields, vec!["usuario", "contraseña", "verificacion_contraseña"]);
}

#[test]
fn validation_error_reports_first_error_of_each_field() {
    let report = vec![
        FieldErrors {
            field: "usuario".to_string(),
            errors: vec![
                FieldError { code: "InvalidMinLenght".to_string(), message: Some("corto".to_string()) },
                FieldError { code: "InvalidUsername".to_string(), message: Some("tomado".to_string()) },
            ],
        },
        FieldErrors {
            field: "otro".to_string(),
            errors: vec![FieldError { code: "sin_mensaje".to_string(), message: None }],
        },
    ];
    let body = ErrorResponse::new_validation_error(&report, "fallo");
    assert_eq!(body.response, "error");
    assert_eq!(body.message, "fallo");
    match body.details {
        TypeError::Validation(list) => {
            assert_eq!(list.len(), 2);
            assert_eq!(list[0].input, "usuario");
            assert_eq!(list[0].code, "InvalidMinLenght");
            assert_eq!(list[0].message, "corto");
            assert_eq!(list[1].input, "otro");
            assert_eq!(list[1].code, "sin_mensaje");
            assert_eq!(list[1].message, "None");
        }
        TypeError::Other(_) => panic!("expected a validation report"),
    }
}

#[test]
fn validation_error_with_no_failed_field_is_an_empty_list() {
    let body = ErrorResponse::new_validation_error(&Vec::new(), "m");
    match body.details {
        TypeError::Validation(list) => assert!(list.is_empty()),
        TypeError::Other(_) => panic!("expected a validation report"),
    }
}

#[test]
fn db_error_hides_what_the_database_said() {
    let body = ErrorResponse::new_db_error("E11000 duplicate key", "Error al crear el usuario.");
    assert_eq!(body.response, "error");
    assert_eq!(body.message, "Error al crear el usuario.");
    match body.details {
        TypeError::Other(text) => assert_eq!(
            text,
            "Error en la base de datos, por favor contactarse con servicio tecnico."
        ),
        TypeError::Validation(_) => panic!("expected a plain error"),
    }
}
