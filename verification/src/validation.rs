//! The outcome of checking a request body against its field rules.

use vstd::prelude::*;

use crate::outside::{email_is_valid, email_ok, length_ok};
use crate::text::{chars_of, string_from_chars};

verus! {

/// The kind of rule a field broke.
#[derive(Clone, Copy, Debug, PartialEq, Eq, Structural)]
pub enum Rule {
    /// Too few (or too many) characters.
    Length,
    /// Not an e-mail address.
    Email,
    /// Refused by a rule of the application's own (the gender rule).
    Custom,
}

/// One broken rule: the field's name and the kind of rule.
#[derive(Clone, Debug)]
pub struct FieldError {
    pub field: String,
    pub rule: Rule,
}

impl View for FieldError {
    type V = (Seq<char>, Rule);

    open spec fn view(&self) -> (Seq<char>, Rule) {
        (self.field@, self.rule)
    }
}

/// The broken rules held in `v`, in order.
pub open spec fn errors_view(v: Seq<FieldError>) -> Seq<(Seq<char>, Rule)> {
    v.map_values(|e: FieldError| e@)
}

/// The entry that a check of `field` adds: none when the check passed.
pub open spec fn flag(ok: bool, field: Seq<char>, rule: Rule) -> Seq<(Seq<char>, Rule)> {
    if ok {
        Seq::empty()
    } else {
        seq![(field, rule)]
    }
}

/// `r` is the result of a validation whose broken rules are `expected`: `Ok` when there are
/// none, otherwise `Err` listing exactly those, in order.
pub open spec fn validation_outcome(
    r: Result<(), Vec<FieldError>>,
    expected: Seq<(Seq<char>, Rule)>,
) -> bool {
    match r {
        Ok(_) => expected.len() == 0,
        Err(e) => expected.len() > 0 && errors_view(e@) == expected,
    }
}

/// The text passes a `length(min = min)` rule: at least `min` characters.
pub open spec fn min_len(s: Seq<char>, min: nat) -> bool {
    s.len() >= min
}

/// The text passes a `length(min = n, max = n)` rule: exactly `n` characters.
pub open spec fn exact_len(s: Seq<char>, n: nat) -> bool {
    s.len() == n
}

/// An optional text passes a `length(min = min)` rule: absent, or long enough.
pub open spec fn opt_min_len(s: Option<Seq<char>>, min: nat) -> bool {
    match s {
        Some(t) => t.len() >= min,
        None => true,
    }
}

/// The view of an optional `String`.
pub open spec fn opt_view(s: Option<String>) -> Option<Seq<char>> {
    match s {
        Some(t) => Some(t@),
        None => None,
    }
}

/// Records `rule` as broken for `field` unless `ok`.
pub fn note(ok: bool, field: &str, rule: Rule, errs: &mut Vec<FieldError>)
    ensures
        errors_view(final(errs)@) == errors_view(old(errs)@) + flag(ok, field@, rule),
{
    if !ok {
        let name = string_from_chars(&chars_of(field));
        let e = FieldError { field: name, rule };
        errs.push(e);
        assert(errors_view(errs@) =~= errors_view(old(errs)@) + flag(ok, field@, rule));
    } else {
        assert(errors_view(errs@) =~= errors_view(old(errs)@) + flag(ok, field@, rule));
    }
}

/// `Ok` when nothing was recorded, otherwise `Err` with the records.
pub fn finish(errs: Vec<FieldError>) -> (r: Result<(), Vec<FieldError>>)
    ensures
        validation_outcome(r, errors_view(errs@)),
        r matches Err(e) ==> e@ == errs@,
{
    if errs.len() == 0 {
        Ok(())
    } else {
        Err(errs)
    }
}

/// A `length(min = min)` check of a text.
pub fn check_min_len(s: &String, min: u64) -> (r: bool)
    ensures
        r == min_len(s@, min as nat),
{
    length_ok(s.as_str(), Some(min), None)
}

/// A `length(min = n, max = n)` check of a text.
pub fn check_exact_len(s: &String, n: u64) -> (r: bool)
    ensures
        r == exact_len(s@, n as nat),
{
    length_ok(s.as_str(), Some(n), Some(n))
}

/// A `length(min = min)` check of an optional text: an absent text passes.
pub fn check_opt_min_len(s: &Option<String>, min: u64) -> (r: bool)
    ensures
        r == opt_min_len(opt_view(*s), min as nat),
{
    match s {
        Some(t) => check_min_len(t, min),
        None => true,
    }
}

/// An `email` check of a text.
pub fn check_email(s: &String) -> (r: bool)
    ensures
        r == email_is_valid(s@),
        s@.len() == 0 ==> !r,
        !s@.contains('@') ==> !r,
{
    email_ok(s.as_str())
}

} // verus!
