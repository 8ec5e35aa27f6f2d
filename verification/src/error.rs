use vstd::prelude::*;
use crate::validation::{field_errors_views, fields_distinct, FieldErrors, FieldErrorsModel};

verus! {

/// Body of an error answer.
pub struct ErrorResponse {
    pub response: String,
    pub message: String,
    pub details: TypeError,
}

/// The kinds of error the service reports.
pub enum TypeError {
    Validation(Vec<ValidationErrorResponse>),
    Other(String),
}

/// One field that failed validation, as reported.
pub struct ValidationErrorResponse {
    pub input: String,
    pub code: String,
    pub message: String,
}

/// What a [`ValidationErrorResponse`] says, as text.
pub struct ValidationErrorResponseModel {
    pub input: Seq<char>,
    pub code: Seq<char>,
    pub message: Seq<char>,
}

impl View for ValidationErrorResponse {
    type V = ValidationErrorResponseModel;

    open spec fn view(&self) -> ValidationErrorResponseModel {
        ValidationErrorResponseModel { input: self.input@, code: self.code@, message: self.message@ }
    }
}

pub open spec fn validation_response_views(items: Seq<ValidationErrorResponse>) -> Seq<
    ValidationErrorResponseModel,
> {
    items.map_values(|r: ValidationErrorResponse| r@)
}

/// How a field that failed validation is reported: the first failed rule
/// alone, its message replaced by `None` where it has none.
pub open spec fn spec_reported(entry: FieldErrorsModel) -> ValidationErrorResponseModel {
    ValidationErrorResponseModel {
        input: entry.field,
        code: entry.errors[0].code,
        message: match entry.errors[0].message {
            Some(m) => m,
            None => "None"@,
        },
    }
}

/// The report of a whole validation failure, field by field.
pub open spec fn spec_reported_all(entries: Seq<FieldErrorsModel>) -> Seq<
    ValidationErrorResponseModel,
> {
    entries.map_values(|e: FieldErrorsModel| spec_reported(e))
}

/// Text of the details of a database failure.
pub open spec fn spec_db_failure_details() -> Seq<char> {
    "Error en la base de datos, por favor contactarse con servicio tecnico."@
}

impl ErrorResponse {
    /// The answer to a request that failed validation: `error`, the given
    /// message, and for each field the first rule that failed on it.
    pub fn new_validation_error(validation_errors: &Vec<FieldErrors>, mensaje: &str) -> (res: Self)
        requires
            forall|i: int|
                0 <= i < validation_errors@.len() ==> #[trigger] validation_errors@[i].errors@.len()
                    > 0,
            fields_distinct(field_errors_views(validation_errors@)),
        ensures
            res.response@ == "error"@,
            res.message@ == mensaje@,
            res.details matches TypeError::Validation(list) && validation_response_views(list@)
                == spec_reported_all(field_errors_views(validation_errors@)),
    {
        let mut validation_error_list: Vec<ValidationErrorResponse> = Vec::new();
        let n = validation_errors.len();
        for i in 0..n
            invariant
                n == validation_errors@.len(),
                forall|j: int|
                    0 <= j < validation_errors@.len() ==> #[trigger] validation_errors@[j].errors@.len()
                        > 0,
                validation_error_list@.len() == i,
                forall|j: int|
                    0 <= j < i ==> #[trigger] validation_error_list@[j]@ == spec_reported(
                        validation_errors@[j]@,
                    ),
        {
            let entry = &validation_errors[i];
            let first = &entry.errors[0];
            let message = match &first.message {
                Some(m) => m.clone(),
                None => "None".to_owned(),
            };
            validation_error_list.push(
                ValidationErrorResponse { input: entry.field.clone(), code: first.code.clone(), message },
            );
        }
        assert(validation_response_views(validation_error_list@) =~= spec_reported_all(
            field_errors_views(validation_errors@),
        ));
        ErrorResponse {
            response: "error".to_owned(),
            message: mensaje.to_owned(),
            details: TypeError::Validation(validation_error_list),
        }
    }

    /// The answer to a request the database failed: `error`, the given
    /// message, and a fixed text asking to contact support. What the
    /// database reported is not shown to the client.
    pub fn new_db_error(db_errors: &str, mensaje: &str) -> (res: Self)
        ensures
            res.response@ == "error"@,
            res.message@ == mensaje@,
            res.details matches TypeError::Other(text) && text@ == spec_db_failure_details(),
    {
        ErrorResponse {
            response: "error".to_owned(),
            message: mensaje.to_owned(),
            details: TypeError::Other(
                "Error en la base de datos, por favor contactarse con servicio tecnico.".to_owned(),
            ),
        }
    }
}

} // verus!
