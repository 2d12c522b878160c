use vstd::prelude::*;
use vstd::string::*;

verus! {

/// The failure-reason codes recorded for one field.
#[derive(Debug)]
pub struct FieldError {
    pub field: String,
    pub codes: Vec<String>,
}

impl View for FieldError {
    type V = (Seq<char>, Seq<Seq<char>>);

    open spec fn view(&self) -> (Seq<char>, Seq<Seq<char>>) {
        (self.field@, self.codes@.map_values(|c: String| c@))
    }
}

/// The abstract value of a list of field errors: field name and its codes.
pub open spec fn field_errors_view(v: Seq<FieldError>) -> Seq<(Seq<char>, Seq<Seq<char>>)> {
    v.map_values(|e: FieldError| e@)
}

/// No field name appears twice.
pub open spec fn field_names_unique(v: Seq<(Seq<char>, Seq<Seq<char>>)>) -> bool {
    forall|i: int, j: int| 0 <= i < j < v.len() ==> #[trigger] v[i].0 != #[trigger] v[j].0
}

/// The domain error taxonomy surfaced to callers.
#[derive(Debug)]
pub enum Errors {
    ValidationError { field_errors: Vec<FieldError> },
    InternalServerError,
    NotFoundError,
    UnauthorizedError,
    ForbiddenError,
}

/// A JSON-style error envelope: `{ "errorMessage": ... }`.
#[derive(Debug)]
pub struct ErrorMessage<T> {
    pub error_message: T,
}

/// A JSON-style success envelope: `{ "data": ... }`.
#[derive(Debug)]
pub struct Response<T> {
    pub data: T,
}

/// What an error envelope carries: a field map, or a fixed message.
#[derive(Debug)]
pub enum ErrorPayload {
    Fields(Vec<FieldError>),
    Text(String),
}

/// The HTTP status that goes with each kind of error.
pub open spec fn status_of(e: Errors) -> u16 {
    match e {
        Errors::ValidationError { .. } => 400,
        Errors::InternalServerError => 500,
        Errors::NotFoundError => 404,
        Errors::UnauthorizedError => 401,
        Errors::ForbiddenError => 403,
    }
}

/// True when `e` is a validation error that holds exactly one field with exactly one code.
pub open spec fn is_single_field_error(e: Errors, field: Seq<char>, code: Seq<char>) -> bool {
    match e {
        Errors::ValidationError { field_errors } => field_errors_view(field_errors@) == seq![
            (field, seq![code]),
        ],
        _ => false,
    }
}

/// A validation error on one field with one reason code.
pub fn single_field_error(field: &str, code: &str) -> (r: Errors)
    ensures
        is_single_field_error(r, field@, code@),
{
    let mut codes: Vec<String> = Vec::new();
    codes.push(String::from_str(code));
    let entry = FieldError { field: String::from_str(field), codes };
    proof {
        assert(entry.codes@.map_values(|c: String| c@) =~= seq![code@]);
    }
    let mut field_errors: Vec<FieldError> = Vec::new();
    field_errors.push(entry);
    proof {
        assert(field_errors_view(field_errors@) =~= seq![(field@, seq![code@])]);
    }
    Errors::ValidationError { field_errors }
}

impl Errors {
    /// The label of each error kind.
    pub fn description(&self) -> (r: &'static str)
        ensures
            r@ == match self {
                Errors::ValidationError { .. } => "Validation Error"@,
                Errors::InternalServerError => "Internal Server Exception"@,
                Errors::NotFoundError => "Not Found"@,
                Errors::UnauthorizedError => "Unauthorized"@,
                Errors::ForbiddenError => "Forbidden"@,
            },
    {
        match self {
            Errors::ValidationError { .. } => "Validation Error",
            Errors::InternalServerError => "Internal Server Exception",
            Errors::NotFoundError => "Not Found",
            Errors::UnauthorizedError => "Unauthorized",
            Errors::ForbiddenError => "Forbidden",
        }
    }

    /// The HTTP status of this error.
    pub fn status_code(&self) -> (r: u16)
        ensures
            r == status_of(*self),
    {
        match self {
            Errors::ValidationError { .. } => 400,
            Errors::InternalServerError => 500,
            Errors::NotFoundError => 404,
            Errors::UnauthorizedError => 401,
            Errors::ForbiddenError => 403,
        }
    }

    /// The status and the body that an error is answered with: the field map for a
    /// validation error, a fixed message for every other kind.
    pub fn error_response(self) -> (r: (u16, ErrorMessage<ErrorPayload>))
        ensures
            r.0 == status_of(self),
            match self {
                Errors::ValidationError { field_errors } => r.1.error_message matches ErrorPayload::Fields(f)
                    && field_errors_view(f@) == field_errors_view(field_errors@),
                Errors::InternalServerError => r.1.error_message matches ErrorPayload::Text(t)
                    && t@ == "Internal Server Error"@,
                Errors::NotFoundError => r.1.error_message matches ErrorPayload::Text(t) && t@
                    == "Resource Not Found"@,
                Errors::UnauthorizedError => r.1.error_message matches ErrorPayload::Text(t) && t@
                    == "Unauthorized"@,
                Errors::ForbiddenError => r.1.error_message matches ErrorPayload::Text(t) && t@
                    == "Forbidden"@,
            },
    {
        let status = self.status_code();
        let payload = match self {
            Errors::ValidationError { field_errors } => ErrorPayload::Fields(field_errors),
            Errors::InternalServerError => ErrorPayload::Text(
                String::from_str("Internal Server Error"),
            ),
            Errors::NotFoundError => ErrorPayload::Text(String::from_str("Resource Not Found")),
            Errors::UnauthorizedError => ErrorPayload::Text(String::from_str("Unauthorized")),
            Errors::ForbiddenError => ErrorPayload::Text(String::from_str("Forbidden")),
        };
        (status, ErrorMessage { error_message: payload })
    }
}

} // verus!
