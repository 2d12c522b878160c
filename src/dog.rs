use vstd::prelude::*;
use vstd::string::*;
use crate::errors::{Errors, FieldError, Response, field_errors_view, field_names_unique};
use convert_case::Casing;

verus! {

/// The shortest breed or color that a dog may be given.
pub const MIN_NAME_LEN: u64 = 3;

/// What `to_case(Case::Camel)` makes of a name.
pub uninterp spec fn camel_case_of(s: Seq<char>) -> Seq<char>;

/// Relies on convert_case's `Casing::to_case` with `Case::Camel`: the result is a
/// function of the text alone.
#[verifier::external_body]
fn to_camel_case(s: &str) -> (r: String)
    ensures
        r@ == camel_case_of(s@),
{
    s.to_case(convert_case::Case::Camel)
}

/// Relies on validator::validate_length with a minimum alone: a string passes when
/// it has at least `min` characters.
#[verifier::external_body]
fn has_min_length(s: &str, min: u64) -> (r: bool)
    ensures
        r == (s@.len() >= min),
{
    validator::validate_length(s, Some(min), None, None)
}

/// Relies on validator::validate_required: a value passes when it is present.
#[verifier::external_body]
fn is_present(v: &Option<bool>) -> (r: bool)
    ensures
        r == v is Some,
{
    validator::validate_required(v)
}

/// A dog, as received and as answered with.
#[derive(Debug)]
pub struct Dog {
    breed: String,
    color: String,
    is_vaccinated: Option<bool>,
}

/// A field error with a single code.
pub open spec fn one_code(field: Seq<char>, code: Seq<char>) -> (Seq<char>, Seq<Seq<char>>) {
    (field, seq![code])
}

/// The errors that validation reports for a dog, field by field in declaration order.
pub open spec fn dog_errors(breed: Seq<char>, color: Seq<char>, is_vaccinated: Option<bool>) -> Seq<
    (Seq<char>, Seq<Seq<char>>),
> {
    let a = if breed.len() < 3 {
        seq![one_code("breed"@, "length"@)]
    } else {
        Seq::empty()
    };
    let b = if color.len() < 3 {
        a.push(one_code("color"@, "length"@))
    } else {
        a
    };
    if is_vaccinated is None {
        b.push(one_code("is_vaccinated"@, "required"@))
    } else {
        b
    }
}

/// The errors reported for a dog name each field at most once.
pub proof fn lemma_dog_error_fields_unique(
    breed: Seq<char>,
    color: Seq<char>,
    is_vaccinated: Option<bool>,
)
    ensures
        field_names_unique(dog_errors(breed, color, is_vaccinated)),
{
    reveal_strlit("breed");
    reveal_strlit("color");
    reveal_strlit("is_vaccinated");
    assert("breed"@ != "color"@) by {
        assert("breed"@[0] != "color"@[0]);
    }
    assert("breed"@ != "is_vaccinated"@) by {
        assert("breed"@.len() != "is_vaccinated"@.len());
    }
    assert("color"@ != "is_vaccinated"@) by {
        assert("color"@.len() != "is_vaccinated"@.len());
    }
}

/// A dog is valid when breed and color have at least three characters and the
/// vaccination status is given.
pub open spec fn dog_valid(breed: Seq<char>, color: Seq<char>, is_vaccinated: Option<bool>) -> bool {
    breed.len() >= 3 && color.len() >= 3 && is_vaccinated is Some
}

/// Field errors with each field name put in camel case.
pub open spec fn camel_fields(v: Seq<(Seq<char>, Seq<Seq<char>>)>) -> Seq<
    (Seq<char>, Seq<Seq<char>>),
> {
    v.map_values(|e: (Seq<char>, Seq<Seq<char>>)| (camel_case_of(e.0), e.1))
}

/// Appends a field error with one code.
fn push_error(errors: &mut Vec<FieldError>, field: &str, code: &str)
    ensures
        field_errors_view(final(errors)@) == field_errors_view(old(errors)@).push(
            one_code(field@, code@),
        ),
{
    let mut codes: Vec<String> = Vec::new();
    codes.push(String::from_str(code));
    let entry = FieldError { field: String::from_str(field), codes };
    proof {
        assert(entry.codes@.map_values(|c: String| c@) =~= seq![code@]);
    }
    let ghost before = errors@;
    errors.push(entry);
    proof {
        assert(field_errors_view(errors@) =~= field_errors_view(before).push(
            one_code(field@, code@),
        ));
    }
}

/// Puts the field name of each error in camel case and keeps its codes.
pub fn parse_validation_errors(validation_errors: Vec<FieldError>) -> (r: Vec<FieldError>)
    ensures
        field_errors_view(r@) == camel_fields(field_errors_view(validation_errors@)),
{
    let mut out: Vec<FieldError> = Vec::new();
    let mut rest = validation_errors;
    let ghost all = field_errors_view(validation_errors@);
    let mut i: usize = 0;
    let n = rest.len();
    while i < n
        invariant
            n == rest@.len(),
            i <= n,
            field_errors_view(rest@) == all,
            field_errors_view(out@) == camel_fields(all.take(i as int)),
        decreases n - i,
    {
        let field = to_camel_case(rest[i].field.as_str());
        let mut codes: Vec<String> = Vec::new();
        let mut j: usize = 0;
        let m = rest[i].codes.len();
        while j < m
            invariant
                i < n == rest@.len(),
                m == rest@[i as int].codes@.len(),
                j <= m,
                codes@.map_values(|c: String| c@) == rest@[i as int].codes@.take(
                    j as int,
                ).map_values(|c: String| c@),
            decreases m - j,
        {
            let ghost before = codes@;
            codes.push(rest[i].codes[j].clone());
            proof {
                assert(codes@.map_values(|c: String| c@) =~= before.map_values(|c: String| c@).push(
                    rest@[i as int].codes@[j as int]@,
                ));
                assert(rest@[i as int].codes@.take(j + 1).map_values(|c: String| c@)
                    =~= rest@[i as int].codes@.take(j as int).map_values(|c: String| c@).push(
                    rest@[i as int].codes@[j as int]@,
                ));
            }
            j += 1;
        }
        proof {
            assert(rest@[i as int].codes@.take(m as int) =~= rest@[i as int].codes@);
            assert(all[i as int] == rest@[i as int]@);
        }
        let ghost before = out@;
        out.push(FieldError { field, codes });
        proof {
            assert(field_errors_view(out@) =~= field_errors_view(before).push(
                (camel_case_of(all[i as int].0), all[i as int].1),
            ));
            assert(camel_fields(all.take(i + 1)) =~= camel_fields(all.take(i as int)).push(
                (camel_case_of(all[i as int].0), all[i as int].1),
            ));
        }
        i += 1;
    }
    proof {
        assert(all.take(n as int) =~= all);
    }
    out
}

impl Dog {
    pub closed spec fn spec_breed(&self) -> Seq<char> {
        self.breed@
    }

    pub closed spec fn spec_color(&self) -> Seq<char> {
        self.color@
    }

    pub closed spec fn spec_is_vaccinated(&self) -> Option<bool> {
        self.is_vaccinated
    }

    pub fn new(breed: &str, color: &str, is_vaccinated: bool) -> (r: Dog)
        ensures
            r.spec_breed() == breed@,
            r.spec_color() == color@,
            r.spec_is_vaccinated() == Some(is_vaccinated),
    {
        Dog {
            breed: String::from_str(breed),
            color: String::from_str(color),
            is_vaccinated: Some(is_vaccinated),
        }
    }

    /// What a dog says.
    pub fn bark(&self) -> (r: &'static str)
        ensures
            r@ == "Bark!"@,
    {
        "Bark!"
    }

    pub fn get_breed(&self) -> (r: &String)
        ensures
            r@ == self.spec_breed(),
    {
        &self.breed
    }

    pub fn get_color(&self) -> (r: &String)
        ensures
            r@ == self.spec_color(),
    {
        &self.color
    }

    pub fn get_is_vaccinated(&self) -> (r: Option<bool>)
        ensures
            r == self.spec_is_vaccinated(),
    {
        self.is_vaccinated
    }

    pub fn set_breed(&mut self, breed: String)
        ensures
            final(self).spec_breed() == breed@,
            final(self).spec_color() == old(self).spec_color(),
            final(self).spec_is_vaccinated() == old(self).spec_is_vaccinated(),
    {
        self.breed = breed;
    }

    pub fn set_color(&mut self, color: String)
        ensures
            final(self).spec_breed() == old(self).spec_breed(),
            final(self).spec_color() == color@,
            final(self).spec_is_vaccinated() == old(self).spec_is_vaccinated(),
    {
        self.color = color;
    }

    pub fn set_is_vaccinated(&mut self, is_vaccinated: Option<bool>)
        ensures
            final(self).spec_breed() == old(self).spec_breed(),
            final(self).spec_color() == old(self).spec_color(),
            final(self).spec_is_vaccinated() == is_vaccinated,
    {
        self.is_vaccinated = is_vaccinated;
    }

    /// Checks the field rules: breed and color of at least three characters
    /// (`length`), vaccination status given (`required`).
    pub fn validate(&self) -> (r: Result<(), Vec<FieldError>>)
        ensures
            r is Ok <==> dog_valid(self.spec_breed(), self.spec_color(), self.spec_is_vaccinated()),
            r matches Err(e) ==> field_errors_view(e@) == dog_errors(
                self.spec_breed(),
                self.spec_color(),
                self.spec_is_vaccinated(),
            ),
            r matches Err(e) ==> field_names_unique(field_errors_view(e@)),
    {
        proof {
            lemma_dog_error_fields_unique(self.spec_breed(), self.spec_color(), self.spec_is_vaccinated());
        }
        let mut errors: Vec<FieldError> = Vec::new();
        proof {
            assert(field_errors_view(errors@) =~= Seq::<(Seq<char>, Seq<Seq<char>>)>::empty());
        }
        if !has_min_length(self.breed.as_str(), MIN_NAME_LEN) {
            push_error(&mut errors, "breed", "length");
            proof {
                assert(field_errors_view(errors@) =~= seq![one_code("breed"@, "length"@)]);
            }
        }
        if !has_min_length(self.color.as_str(), MIN_NAME_LEN) {
            push_error(&mut errors, "color", "length");
        }
        if !is_present(&self.is_vaccinated) {
            push_error(&mut errors, "is_vaccinated", "required");
        }
        proof {
            assert(field_errors_view(errors@).len() == errors@.len());
        }
        if errors.len() == 0 {
            Ok(())
        } else {
            Err(errors)
        }
    }
}

/// The dog listing: not served, whatever is asked.
pub fn get_dog() -> (r: Result<Response<Dog>, Errors>)
    ensures
        r matches Err(e) && e is NotFoundError,
{
    Err(Errors::NotFoundError)
}

/// Accepts a dog. An invalid dog is refused with its field errors, the field
/// names in camel case; a valid one is answered with its breed set by the server
/// to `Terrier`, its color and vaccination status kept.
pub fn create_dog(dog_info: Dog) -> (r: Result<Response<Dog>, Errors>)
    ensures
        r is Ok <==> dog_valid(
            dog_info.spec_breed(),
            dog_info.spec_color(),
            dog_info.spec_is_vaccinated(),
        ),
        r matches Ok(resp) ==> resp.data.spec_breed() == "Terrier"@ && resp.data.spec_color()
            == dog_info.spec_color() && resp.data.spec_is_vaccinated()
            == dog_info.spec_is_vaccinated(),
        r matches Err(e) ==> (e matches Errors::ValidationError { field_errors }
            && field_errors_view(field_errors@) == camel_fields(
            dog_errors(dog_info.spec_breed(), dog_info.spec_color(), dog_info.spec_is_vaccinated()),
        )),
{
    match dog_info.validate() {
        Ok(()) => {
            let vaccinated = match dog_info.get_is_vaccinated() {
                Some(v) => v,
                None => false,
            };
            Ok(Response { data: Dog::new("Terrier", dog_info.get_color().as_str(), vaccinated) })
        },
        Err(e) => Err(Errors::ValidationError { field_errors: parse_validation_errors(e) }),
    }
}

} // verus!
