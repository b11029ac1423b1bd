//! Checks on request fields and the record of the fields that failed them.
//! The `validator` crate decides what an IP literal is and keeps the record;
//! the items here give its functions the contracts the rest of the library
//! builds on.

use vstd::prelude::*;

verus! {

/// `validator::ValidationErrors`: the failures found in one request, by field.
#[verifier::external_type_specification]
#[verifier::external_body]
pub struct ExValidationErrors(validator::ValidationErrors);

/// `validator::ValidationError`: one failed check, with its code and parameters.
#[verifier::external_type_specification]
#[verifier::external_body]
pub struct ExValidationError(validator::ValidationError);

/// Whether `validator` accepts the text as an IPv4 or IPv6 literal.
pub uninterp spec fn is_ip_literal(text: Seq<char>) -> bool;

/// The fields for which the record holds a failure.
pub uninterp spec fn failed_fields(errors: validator::ValidationErrors) -> Set<Seq<char>>;

/// Every entry of the record is a list of failures of one field, none a
/// nested record.
pub uninterp spec fn field_level(errors: validator::ValidationErrors) -> bool;

/// `validator::ValidateIp::validate_ip` on a string slice. Trusted: the
/// answer depends on the text alone, and is what `is_ip_literal` names.
#[verifier::external_body]
pub(crate) fn ip_is_valid(ip: &str) -> (ok: bool)
    ensures
        ok == is_ip_literal(ip@),
{
    validator::ValidateIp::validate_ip(&ip)
}

/// `validator::ValidationErrors::new`. Trusted: the new record holds no
/// failure, so in particular no nested record.
#[verifier::external_body]
pub(crate) fn no_errors() -> (errors: validator::ValidationErrors)
    ensures
        failed_fields(errors) == Set::<Seq<char>>::empty(),
        field_level(errors),
{
    validator::ValidationErrors::new()
}

/// `validator::ValidationError::new`: a failure with the given code, no
/// message and no parameters. Nothing is claimed of it.
#[verifier::external_body]
pub(crate) fn new_error(code: &'static str) -> validator::ValidationError {
    validator::ValidationError::new(code)
}

/// `validator::ValidationError::add_param` with a text value. Nothing is
/// claimed of the failure afterwards.
#[verifier::external_body]
pub(crate) fn add_text_param(error: &mut validator::ValidationError, name: &'static str, value: &str) {
    error.add_param(std::borrow::Cow::from(name), &value)
}

/// `validator::ValidationError::add_param` with a number. Nothing is claimed
/// of the failure afterwards.
#[verifier::external_body]
pub(crate) fn add_number_param(error: &mut validator::ValidationError, name: &'static str, value: u16) {
    error.add_param(std::borrow::Cow::from(name), &value)
}

/// `validator::ValidationErrors::add`, which panics where the field's entry
/// is a nested record. Trusted: on a record without nested entries the field
/// joins the failed fields, and the record still has no nested entry.
#[verifier::external_body]
pub(crate) fn add_error(
    errors: &mut validator::ValidationErrors,
    field: &'static str,
    error: validator::ValidationError,
)
    requires
        field_level(*old(errors)),
    ensures
        field_level(*final(errors)),
        failed_fields(*final(errors)) == failed_fields(*old(errors)).insert(field@),
{
    errors.add(field, error)
}

/// `part` stands somewhere in `whole`, unbroken.
pub open spec fn occurs_in(part: Seq<char>, whole: Seq<char>) -> bool {
    exists|at: int|
        0 <= at <= whole.len() - part.len() && #[trigger] whole.subrange(at, at + part.len())
            == part
}

/// How the text of a record introduces the failures of one field: the
/// field's name, a colon and a space.
pub open spec fn field_label(field: Seq<char>) -> Seq<char> {
    field + seq![':', ' ']
}

/// The record as text, by its `Display` impl. Trusted: the text of a record
/// without nested entries introduces each failed field by its label. The
/// order of the fields, and what follows each label, follow hash maps, so
/// nothing more is claimed of the text.
#[verifier::external_body]
pub(crate) fn describe(errors: &validator::ValidationErrors) -> (text: String)
    ensures
        field_level(*errors) ==> forall|field: Seq<char>| #[trigger]
            failed_fields(*errors).contains(field) ==> occurs_in(field_label(field), text@),
{
    errors.to_string()
}

/// The fields that fail, given whether the IP text was accepted: `ip` where
/// it was not, `port` where the port is zero.
pub open spec fn rejected_fields(ip_ok: bool, port: u16) -> Set<Seq<char>> {
    let ip_part = if ip_ok {
        Set::<Seq<char>>::empty()
    } else {
        Set::<Seq<char>>::empty().insert("ip"@)
    };
    if port >= 1 {
        ip_part
    } else {
        ip_part.insert("port"@)
    }
}

/// Lowest port a request may name.
pub const MIN_PORT: u16 = 1;

/// Highest port a request may name.
pub const MAX_PORT: u16 = 65535;

/// Checks the two request fields, given what the IP check said of `ip`.
/// Succeeds exactly where the IP text was accepted and the port lies in
/// `MIN_PORT..=MAX_PORT`; otherwise the record names exactly the fields that
/// failed.
pub fn check_fields(ip: &str, ip_ok: bool, port: u16) -> (checked: Result<
    (),
    validator::ValidationErrors,
>)
    ensures
        checked is Ok <==> ip_ok && MIN_PORT <= port <= MAX_PORT,
        checked matches Err(errors) ==> failed_fields(errors) == rejected_fields(ip_ok, port)
            && field_level(errors),
{
    let mut errors = no_errors();
    if !ip_ok {
        let mut error = new_error("ip");
        add_text_param(&mut error, "value", ip);
        add_error(&mut errors, "ip", error);
    }
    if port < MIN_PORT {
        let mut error = new_error("range");
        add_number_param(&mut error, "min", MIN_PORT);
        add_number_param(&mut error, "max", MAX_PORT);
        add_number_param(&mut error, "value", port);
        add_error(&mut errors, "port", error);
    }
    if ip_ok && port >= MIN_PORT {
        Ok(())
    } else {
        Err(errors)
    }
}

} // verus!
