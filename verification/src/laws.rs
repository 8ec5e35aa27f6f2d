use vstd::prelude::*;
use crate::db::UserLookup;
use crate::error::{spec_reported_all, ValidationErrorResponseModel};
use crate::state::spec_counts_after;
use crate::models::{
    sign_up_is_valid, spec_password_errors, spec_sign_up_errors, SignUpPayload,
};
use crate::validation::{field_entry, FieldErrorModel, FieldErrorsModel};

verus! {

/// A sign-up request is answered with a non-empty list of failed fields
/// exactly when it breaks a sign-up rule.
pub proof fn lemma_rejection_is_reported(p: SignUpPayload, lookup: UserLookup)
    ensures
        spec_reported_all(spec_sign_up_errors(p, lookup)).len() > 0 <==> !sign_up_is_valid(
            p,
            lookup,
        ),
{
}

/// A login shorter than two characters is reported as too short, whatever
/// the lookup of it found: the length rule is checked before uniqueness and
/// only the first failed rule of a field is reported.
pub proof fn lemma_short_login_reported_first(p: SignUpPayload, lookup: UserLookup)
    requires
        p.user@.len() < 2,
    ensures
        spec_reported_all(spec_sign_up_errors(p, lookup)).len() > 0,
        spec_reported_all(spec_sign_up_errors(p, lookup))[0] == (ValidationErrorResponseModel {
            input: "usuario"@,
            code: "InvalidMinLenght"@,
            message: "El usuario debe tener almenos 2 caracteres"@,
        }),
{
}

/// A password breaks at most one of its two length rules.
pub proof fn lemma_password_breaks_one_length_rule(password: Seq<char>)
    ensures
        spec_password_errors(password).len() <= 1,
{
}

/// However the database answers a run of status requests on a fresh state,
/// every request is counted once as received, the failed ones once more as
/// failed, so failures never outnumber received requests.
pub proof fn lemma_failures_never_exceed_requests(failures: Seq<bool>)
    ensures
        spec_counts_after(failures).0 == failures.len(),
        spec_counts_after(failures).1 == failures.filter(|f: bool| f).len(),
        0 <= spec_counts_after(failures).1 <= spec_counts_after(failures).0,
    decreases failures.len(),
{
    reveal_with_fuel(Seq::<bool>::filter, 1);
    if failures.len() > 0 {
        lemma_failures_never_exceed_requests(failures.drop_last());
        assert(failures.drop_last() =~= failures.subrange(0, failures.len() - 1));
    }
}

/// The failed rules a report gives for one field; none where the field is
/// not in it.
pub open spec fn errors_of(report: Seq<FieldErrorsModel>, field: Seq<char>) -> Seq<FieldErrorModel>
    decreases report.len(),
{
    if report.len() == 0 {
        seq![]
    } else if report.last().field == field {
        report.last().errors
    } else {
        errors_of(report.drop_last(), field)
    }
}

/// The codes of a list of failed rules, in order.
pub open spec fn codes(errors: Seq<FieldErrorModel>) -> Seq<Seq<char>> {
    errors.map_values(|e: FieldErrorModel| e.code)
}

/// Appending a field's entry to a report changes what the report gives for
/// that field alone.
proof fn lemma_errors_of_push(
    report: Seq<FieldErrorsModel>,
    field: Seq<char>,
    errors: Seq<FieldErrorModel>,
    asked: Seq<char>,
)
    ensures
        errors_of(report + field_entry(field, errors), asked) == (if errors.len() > 0 && asked
            == field {
            errors
        } else {
            errors_of(report, asked)
        }),
{
    if errors.len() == 0 {
        assert(report + field_entry(field, errors) =~= report);
    } else {
        let longer = report + field_entry(field, errors);
        assert(longer.drop_last() =~= report);
    }
}

/// What the sign-up report gives for each of its three fields.
proof fn lemma_sign_up_report_by_field(p: SignUpPayload, lookup: UserLookup)
    ensures
        errors_of(spec_sign_up_errors(p, lookup), "usuario"@) == crate::models::spec_user_errors(
            p.user@,
            crate::db::spec_unique_username(lookup),
        ),
        errors_of(spec_sign_up_errors(p, lookup), "contraseña"@) == spec_password_errors(
            p.password@,
        ),
        errors_of(spec_sign_up_errors(p, lookup), "verificacion_contraseña"@)
            == crate::models::spec_confirmation_errors(p.password_confirmation@, p.password@),
{
    reveal_strlit("usuario");
    reveal_strlit("contraseña");
    reveal_strlit("verificacion_contraseña");
    let user = crate::models::spec_user_errors(p.user@, crate::db::spec_unique_username(lookup));
    let password = spec_password_errors(p.password@);
    let confirmation = crate::models::spec_confirmation_errors(
        p.password_confirmation@,
        p.password@,
    );
    let first = field_entry("usuario"@, user);
    let second = first + field_entry("contraseña"@, password);
    assert(spec_sign_up_errors(p, lookup) == second + field_entry(
        "verificacion_contraseña"@,
        confirmation,
    ));
    assert(first =~= seq![] + field_entry("usuario"@, user));
    let names = seq!["usuario"@, "contraseña"@, "verificacion_contraseña"@];
    assert forall|k: int| 0 <= k < 3 implies errors_of(seq![], #[trigger] names[k]) == Seq::<
        FieldErrorModel,
    >::empty() by {}
    assert forall|k: int| 0 <= k < 3 implies #[trigger] errors_of(
        spec_sign_up_errors(p, lookup),
        names[k],
    ) == (if k == 0 {
        user
    } else if k == 1 {
        password
    } else {
        confirmation
    }) by {
        lemma_errors_of_push(seq![], "usuario"@, user, names[k]);
        lemma_errors_of_push(first, "contraseña"@, password, names[k]);
        lemma_errors_of_push(second, "verificacion_contraseña"@, confirmation, names[k]);
        assert(names[0].len() == 7 && names[1].len() == 10 && names[2].len() == 23);
    }
    assert(names[0] == "usuario"@);
    assert(names[1] == "contraseña"@);
    assert(names[2] == "verificacion_contraseña"@);
}

/// The password's entry in a sign-up report is decided by the password's
/// length alone: too short below eight characters, too long above eighteen,
/// absent in between, whatever the login, the lookup or the confirmation.
pub proof fn lemma_password_entry_follows_password_length(p: SignUpPayload, lookup: UserLookup)
    ensures
        codes(errors_of(spec_sign_up_errors(p, lookup), "contraseña"@)) == (if p.password@.len()
            < 8 {
            seq!["InvalidMinLength"@]
        } else {
            seq![]
        }) + (if p.password@.len() > 18 {
            seq!["InvalidMaxLength"@]
        } else {
            seq![]
        }),
        errors_of(spec_sign_up_errors(p, lookup), "contraseña"@).len() == 0 <==> 8
            <= p.password@.len() <= 18,
{
    lemma_sign_up_report_by_field(p, lookup);
    let e = errors_of(spec_sign_up_errors(p, lookup), "contraseña"@);
    let expected: Seq<Seq<char>> = (if p.password@.len() < 8 {
        seq!["InvalidMinLength"@]
    } else {
        seq![]
    }) + (if p.password@.len() > 18 {
        seq!["InvalidMaxLength"@]
    } else {
        seq![]
    });
    assert(codes(e) =~= expected);
}

/// The confirmation is reported, as not matching, exactly when it differs
/// from the password, whatever either one's length.
pub proof fn lemma_confirmation_entry_follows_mismatch(p: SignUpPayload, lookup: UserLookup)
    ensures
        codes(errors_of(spec_sign_up_errors(p, lookup), "verificacion_contraseña"@)) == (if p.password_confirmation@
            != p.password@ {
            seq!["PasswordNotSame"@]
        } else {
            seq![]
        }),
{
    lemma_sign_up_report_by_field(p, lookup);
    let e = errors_of(spec_sign_up_errors(p, lookup), "verificacion_contraseña"@);
    let expected: Seq<Seq<char>> = if p.password_confirmation@ != p.password@ {
        seq!["PasswordNotSame"@]
    } else {
        seq![]
    };
    assert(codes(e) =~= expected);
}

/// The login's entry ends with the uniqueness verdict whenever the lookup did
/// not find the login absent (taken, or the lookup failed), whatever the
/// password and confirmation; a login found absent is reported only as too
/// short, and only where it is.
pub proof fn lemma_login_entry_carries_uniqueness(p: SignUpPayload, lookup: UserLookup)
    ensures
        lookup == UserLookup::Present ==> codes(
            errors_of(spec_sign_up_errors(p, lookup), "usuario"@),
        ).last() == "InvalidUsername"@,
        lookup == UserLookup::Failed ==> codes(
            errors_of(spec_sign_up_errors(p, lookup), "usuario"@),
        ).last() == "InternalServerErrorOnValidation"@,
        lookup != UserLookup::Absent ==> errors_of(spec_sign_up_errors(p, lookup), "usuario"@).len()
            > 0 && errors_of(spec_sign_up_errors(p, lookup), "usuario"@).last().message == Some(
            "El usuario ya existe"@,
        ),
        codes(errors_of(spec_sign_up_errors(p, lookup), "usuario"@)) == (if p.user@.len() < 2 {
            seq!["InvalidMinLenght"@]
        } else {
            seq![]
        }) + (match lookup {
            UserLookup::Absent => seq![],
            UserLookup::Present => seq!["InvalidUsername"@],
            UserLookup::Failed => seq!["InternalServerErrorOnValidation"@],
        }),
{
    lemma_sign_up_report_by_field(p, lookup);
    let e = errors_of(spec_sign_up_errors(p, lookup), "usuario"@);
    let expected: Seq<Seq<char>> = (if p.user@.len() < 2 {
        seq!["InvalidMinLenght"@]
    } else {
        seq![]
    }) + (match lookup {
        UserLookup::Absent => seq![],
        UserLookup::Present => seq!["InvalidUsername"@],
        UserLookup::Failed => seq!["InternalServerErrorOnValidation"@],
    });
    assert(codes(e) =~= expected);
}

/// Each field of a sign-up report depends only on what its own rules read:
/// two requests with the same password get the same password entry, two with
/// the same password and confirmation the same confirmation entry, and two
/// with the same login and lookup the same login entry, however the rest of
/// the requests differ.
pub proof fn lemma_fields_reported_independently(
    p1: SignUpPayload,
    lookup1: UserLookup,
    p2: SignUpPayload,
    lookup2: UserLookup,
)
    ensures
        p1.password@ == p2.password@ ==> errors_of(spec_sign_up_errors(p1, lookup1), "contraseña"@)
            == errors_of(spec_sign_up_errors(p2, lookup2), "contraseña"@),
        p1.password@ == p2.password@ && p1.password_confirmation@ == p2.password_confirmation@
            ==> errors_of(spec_sign_up_errors(p1, lookup1), "verificacion_contraseña"@) == errors_of(
            spec_sign_up_errors(p2, lookup2),
            "verificacion_contraseña"@,
        ),
        p1.user@ == p2.user@ && lookup1 == lookup2 ==> errors_of(
            spec_sign_up_errors(p1, lookup1),
            "usuario"@,
        ) == errors_of(spec_sign_up_errors(p2, lookup2), "usuario"@),
{
    lemma_sign_up_report_by_field(p1, lookup1);
    lemma_sign_up_report_by_field(p2, lookup2);
}

/// The answer to a validation failure has one entry per failed field, in the
/// report's order, each naming that field with the code of its first failed
/// rule and that rule's message, or `None` where it has none.
pub proof fn lemma_one_answer_entry_per_failed_field(entries: Seq<FieldErrorsModel>)
    requires
        forall|i: int| 0 <= i < entries.len() ==> #[trigger] entries[i].errors.len() > 0,
    ensures
        spec_reported_all(entries).len() == entries.len(),
        forall|i: int|
            0 <= i < entries.len() ==> {
                &&& #[trigger] spec_reported_all(entries)[i].input == entries[i].field
                &&& spec_reported_all(entries)[i].code == entries[i].errors[0].code
                &&& spec_reported_all(entries)[i].message == (match entries[i].errors[0].message {
                    Some(m) => m,
                    None => "None"@,
                })
            },
{
}

/// Answering two reports one after the other gives the answer to the two
/// reports put together.
pub proof fn lemma_answers_concatenate(a: Seq<FieldErrorsModel>, b: Seq<FieldErrorsModel>)
    ensures
        spec_reported_all(a + b) == spec_reported_all(a) + spec_reported_all(b),
{
    assert(spec_reported_all(a + b) =~= spec_reported_all(a) + spec_reported_all(b));
}

} // verus!
