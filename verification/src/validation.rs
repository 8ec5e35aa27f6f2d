use vstd::prelude::*;

verus! {

/// One failed rule on one field: the rule's code and, where the rule has
/// one, the message to show.
pub struct FieldError {
    pub code: String,
    pub message: Option<String>,
}

/// What a [`FieldError`] says, as text.
pub struct FieldErrorModel {
    pub code: Seq<char>,
    pub message: Option<Seq<char>>,
}

impl View for FieldError {
    type V = FieldErrorModel;

    open spec fn view(&self) -> FieldErrorModel {
        FieldErrorModel {
            code: self.code@,
            message: match self.message {
                Some(m) => Some(m@),
                None => None,
            },
        }
    }
}

/// The rules that failed on one field, in the order in which they were
/// checked.
pub struct FieldErrors {
    pub field: String,
    pub errors: Vec<FieldError>,
}

/// What a [`FieldErrors`] says, as text.
pub struct FieldErrorsModel {
    pub field: Seq<char>,
    pub errors: Seq<FieldErrorModel>,
}

pub open spec fn field_error_views(errors: Seq<FieldError>) -> Seq<FieldErrorModel> {
    errors.map_values(|e: FieldError| e@)
}

impl View for FieldErrors {
    type V = FieldErrorsModel;

    open spec fn view(&self) -> FieldErrorsModel {
        FieldErrorsModel { field: self.field@, errors: field_error_views(self.errors@) }
    }
}

pub open spec fn field_errors_views(entries: Seq<FieldErrors>) -> Seq<FieldErrorsModel> {
    entries.map_values(|e: FieldErrors| e@)
}

/// No field appears twice in an error report, as in a map keyed by field.
pub open spec fn fields_distinct(entries: Seq<FieldErrorsModel>) -> bool {
    forall|i: int, j: int|
        0 <= i < j < entries.len() ==> #[trigger] entries[i].field != #[trigger] entries[j].field
}

/// The entry a field contributes to the error report: none when no rule
/// failed on it.
pub open spec fn field_entry(field: Seq<char>, errors: Seq<FieldErrorModel>) -> Seq<FieldErrorsModel> {
    if errors.len() == 0 {
        seq![]
    } else {
        seq![FieldErrorsModel { field, errors }]
    }
}

/// Calls `validator::validate_length` with no exact length: true when the
/// text has at least `min` and at most `max` characters, each bound where given.
#[verifier::external_body]
pub(crate) fn length_within(value: &str, min: Option<u64>, max: Option<u64>) -> (ok: bool)
    ensures
        ok == ((min matches Some(m) ==> value@.len() >= m) && (max matches Some(m)
            ==> value@.len() <= m)),
{
    validator::validate_length(value, min, max, None)
}

/// Calls `validator::validate_must_match` on two strings: true when they are equal.
#[verifier::external_body]
pub(crate) fn texts_match(a: &String, b: &String) -> (ok: bool)
    ensures
        ok == (a@ == b@),
{
    validator::validate_must_match(a, b)
}

/// Appends the entry of one field to an error report, leaving the report
/// unchanged when no rule failed on the field.
pub(crate) fn push_field(report: &mut Vec<FieldErrors>, field: &str, errors: Vec<FieldError>)
    ensures
        field_errors_views(final(report)@) == field_errors_views(old(report)@) + field_entry(
            field@,
            field_error_views(errors@),
        ),
{
    let ghost before = report@;
    if errors.len() > 0 {
        let entry = FieldErrors { field: field.to_owned(), errors };
        report.push(entry);
        assert(field_errors_views(report@) =~= field_errors_views(before) + field_entry(
            field@,
            field_error_views(entry.errors@),
        ));
    } else {
        assert(field_errors_views(report@) =~= field_errors_views(before) + field_entry(
            field@,
            field_error_views(errors@),
        ));
    }
}

} // verus!
