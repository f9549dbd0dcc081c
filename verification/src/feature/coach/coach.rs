use vstd::prelude::*;

use super::coach_model::{CreateCoachRequest, UpdateCoachRequest};
use crate::text::{field_if, views_of};

verus! {

/// The details of a coach that a request can set.
#[derive(Clone, Debug)]
pub struct CoachProfile {
    pub full_name: String,
    pub email: String,
    pub gender: String,
    pub phone_number: String,
}

impl View for CoachProfile {
    type V = (Seq<char>, Seq<char>, Seq<char>, Seq<char>);

    open spec fn view(&self) -> (Seq<char>, Seq<char>, Seq<char>, Seq<char>) {
        (self.full_name@, self.email@, self.gender@, self.phone_number@)
    }
}

/// `current`, replaced by `given` when a value is given.
pub open spec fn overridden(current: Seq<char>, given: Option<String>) -> Seq<char> {
    match given {
        Some(v) => v@,
        None => current,
    }
}

/// A copy of `given`'s text when there is one, otherwise of `current`.
pub fn pick(current: &String, given: &Option<String>) -> (r: String)
    ensures
        r@ == overridden(current@, *given),
{
    match given {
        Some(v) => v.clone(),
        None => current.clone(),
    }
}

impl UpdateCoachRequest {
    /// The coach after the update: every field given replaces the stored one. The address is
    /// not stored on a coach, so a new address changes nothing.
    pub open spec fn patched(&self, c: (Seq<char>, Seq<char>, Seq<char>, Seq<char>)) -> (
        Seq<char>,
        Seq<char>,
        Seq<char>,
        Seq<char>,
    ) {
        (
            overridden(c.0, self.full_name),
            overridden(c.1, self.email),
            overridden(c.2, self.gender),
            overridden(c.3, self.phone_number),
        )
    }

    /// Applies the update to a coach's details.
    pub fn apply_to(&self, coach: &CoachProfile) -> (r: CoachProfile)
        ensures
            r@ == self.patched(coach@),
            self.full_name matches Some(v) ==> r.full_name@ == v@,
            self.full_name is None ==> r.full_name@ == coach.full_name@,
            self.email matches Some(v) ==> r.email@ == v@,
            self.email is None ==> r.email@ == coach.email@,
            self.gender matches Some(v) ==> r.gender@ == v@,
            self.gender is None ==> r.gender@ == coach.gender@,
            self.phone_number matches Some(v) ==> r.phone_number@ == v@,
            self.phone_number is None ==> r.phone_number@ == coach.phone_number@,
    {
        CoachProfile {
            full_name: pick(&coach.full_name, &self.full_name),
            email: pick(&coach.email, &self.email),
            gender: pick(&coach.gender, &self.gender),
            phone_number: pick(&coach.phone_number, &self.phone_number),
        }
    }

    /// The fields the update writes to the coach's record, in order: each of full name,
    /// e-mail, gender and phone number that is given (an address given is not written).
    pub open spec fn written_fields(&self) -> Seq<Seq<char>> {
        field_if(self.full_name, "full_name"@) + field_if(self.email, "email"@) + field_if(
            self.gender,
            "gender"@,
        ) + field_if(self.phone_number, "phone_number"@)
    }

    /// The names of the fields the update writes to the coach's record.
    pub fn record_fields(&self) -> (r: Vec<String>)
        ensures
            views_of(r@) == self.written_fields(),
    {
        let mut r: Vec<String> = Vec::new();
        if self.full_name.is_some() {
            r.push("full_name".to_string());
        }
        let ghost f1 = r@;
        if self.email.is_some() {
            r.push("email".to_string());
        }
        let ghost f2 = r@;
        if self.gender.is_some() {
            r.push("gender".to_string());
        }
        let ghost f3 = r@;
        if self.phone_number.is_some() {
            r.push("phone_number".to_string());
        }
        proof {
            reveal_strlit("full_name");
            reveal_strlit("email");
            reveal_strlit("gender");
            reveal_strlit("phone_number");
            assert(views_of(f1) =~= field_if(self.full_name, "full_name"@));
            assert(views_of(f2) =~= views_of(f1) + field_if(self.email, "email"@));
            assert(views_of(f3) =~= views_of(f2) + field_if(self.gender, "gender"@));
            assert(views_of(r@) =~= views_of(f3) + field_if(self.phone_number, "phone_number"@));
        }
        r
    }

    /// No field is given.
    pub open spec fn is_empty(&self) -> bool {
        self.full_name is None && self.email is None && self.gender is None
            && self.phone_number is None
    }
}

impl CreateCoachRequest {
    /// The details a new coach starts with.
    pub fn to_profile(&self) -> (r: CoachProfile)
        ensures
            r@ == (self.full_name@, self.email@, self.gender@, self.phone_number@),
    {
        CoachProfile {
            full_name: self.full_name.clone(),
            email: self.email.clone(),
            gender: self.gender.clone(),
            phone_number: self.phone_number.clone(),
        }
    }
}

/// An update that gives no field leaves the coach as it was and writes no field.
pub proof fn law_coach_empty_update(u: UpdateCoachRequest, c: (Seq<char>, Seq<char>, Seq<char>, Seq<char>))
    requires
        u.is_empty(),
    ensures
        u.patched(c) == c,
        u.written_fields().len() == 0,
{
}

/// Each detail given replaces the stored one and each detail not given is kept; every field
/// the update reports as written holds the value given.
pub proof fn law_coach_update_replaces_given(
    u: UpdateCoachRequest,
    c: (Seq<char>, Seq<char>, Seq<char>, Seq<char>),
)
    ensures
        u.full_name matches Some(v) ==> u.patched(c).0 == v@,
        u.full_name is None ==> u.patched(c).0 == c.0,
        u.email matches Some(v) ==> u.patched(c).1 == v@,
        u.email is None ==> u.patched(c).1 == c.1,
        u.gender matches Some(v) ==> u.patched(c).2 == v@,
        u.gender is None ==> u.patched(c).2 == c.2,
        u.phone_number matches Some(v) ==> u.patched(c).3 == v@,
        u.phone_number is None ==> u.patched(c).3 == c.3,
        u.written_fields().contains("gender"@) ==> (u.gender matches Some(v) && u.patched(c).2
            == v@),
        u.written_fields().contains("full_name"@) ==> (u.full_name matches Some(v)
            && u.patched(c).0 == v@),
{
    reveal_strlit("full_name");
    reveal_strlit("email");
    reveal_strlit("gender");
    reveal_strlit("phone_number");
    let w = u.written_fields();
    if w.contains("gender"@) && u.gender is None {
        let k = choose|k: int| 0 <= k < w.len() && w[k] == "gender"@;
        assert(w =~= field_if(u.full_name, "full_name"@) + field_if(u.email, "email"@) + field_if(
            u.phone_number,
            "phone_number"@,
        ));
        assert(w[k][0] == 'g');
    }
    if w.contains("full_name"@) && u.full_name is None {
        let k = choose|k: int| 0 <= k < w.len() && w[k] == "full_name"@;
        assert(w =~= field_if(u.email, "email"@) + field_if(u.gender, "gender"@) + field_if(
            u.phone_number,
            "phone_number"@,
        ));
        assert(w[k][0] == 'f');
    }
}

/// Applying the same update twice changes nothing more than applying it once.
pub proof fn law_coach_update_idempotent(u: UpdateCoachRequest, c: (Seq<char>, Seq<char>, Seq<char>, Seq<char>))
    ensures
        u.patched(u.patched(c)) == u.patched(c),
{
}

} // verus!
