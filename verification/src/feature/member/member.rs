use vstd::prelude::*;

use super::member_model::{CreateMemberRequest, UpdateMemberRequest};
use crate::object_id::{key_of_text, key_view, parse_object_id, ObjectKey};
use crate::outside::{is_object_id_text, object_id_bytes};
use crate::text::{
    concat_str, equal_str, field_if, index_of_text, string_from_chars, text_view, views_of,
};

verus! {

/// The details of a member that an update can set.
#[derive(Clone, Debug)]
pub struct MemberProfile {
    pub full_name: String,
    pub email: Option<String>,
    pub gender: Option<String>,
    pub identity_number: Option<String>,
    pub phone_number: Option<String>,
    pub coach_id: Option<ObjectKey>,
}

/// The view of a member's details.
pub struct MemberProfileView {
    pub full_name: Seq<char>,
    pub email: Option<Seq<char>>,
    pub gender: Option<Seq<char>>,
    pub identity_number: Option<Seq<char>>,
    pub phone_number: Option<Seq<char>>,
    pub coach_id: Option<Seq<u8>>,
}

impl View for MemberProfile {
    type V = MemberProfileView;

    open spec fn view(&self) -> MemberProfileView {
        MemberProfileView {
            full_name: self.full_name@,
            email: text_view(self.email),
            gender: text_view(self.gender),
            identity_number: text_view(self.identity_number),
            phone_number: text_view(self.phone_number),
            coach_id: key_view(self.coach_id),
        }
    }
}

/// `current`, replaced by `given` when a value is given.
pub open spec fn opt_overridden(current: Option<Seq<char>>, given: Option<String>) -> Option<
    Seq<char>,
> {
    match given {
        Some(v) => Some(v@),
        None => current,
    }
}

impl UpdateMemberRequest {
    /// The member after the update: every field given replaces the stored one; a coach id
    /// that is not a record id clears the member's coach.
    pub open spec fn patched(&self, m: MemberProfileView) -> MemberProfileView {
        MemberProfileView {
            full_name: match self.full_name {
                Some(v) => v@,
                None => m.full_name,
            },
            email: opt_overridden(m.email, self.email),
            gender: opt_overridden(m.gender, self.gender),
            identity_number: opt_overridden(m.identity_number, self.identity_number),
            phone_number: opt_overridden(m.phone_number, self.phone_number),
            coach_id: match self.coach_id {
                Some(t) => key_of_text(t@),
                None => m.coach_id,
            },
        }
    }

    /// The fields the update writes to the member's record, in order: each one given, except
    /// a coach id that is not a record id, which is left as stored.
    pub open spec fn written_fields(&self) -> Seq<Seq<char>> {
        field_if(self.full_name, "full_name"@) + field_if(self.email, "email"@) + field_if(
            self.gender,
            "gender"@,
        ) + field_if(self.identity_number, "identity_number"@) + (if self.coach_id matches Some(t)
            && key_of_text(t@) is Some {
            seq!["coach_id"@]
        } else {
            Seq::empty()
        }) + field_if(self.phone_number, "phone_number"@)
    }

    /// The names of the fields the update writes to the member's record.
    pub fn record_fields(&self) -> (r: Vec<String>)
        ensures
            views_of(r@) == self.written_fields(),
    {
        let mut r: Vec<String> = Vec::new();
        let ghost f0 = r@;
        if self.full_name.is_some() {
            r.push("full_name".to_string());
        }
        let ghost f1 = r@;
        if self.email.is_some() {
            r.push("email".to_string());
        }
        let ghost f2 = r@;
        if self.gender.is_some() {
            r.push("gender".to_string());
        }
        let ghost f3 = r@;
        if self.identity_number.is_some() {
            r.push("identity_number".to_string());
        }
        let ghost f4 = r@;
        if let Some(t) = &self.coach_id {
            if parse_object_id(t.as_str()).is_some() {
                r.push("coach_id".to_string());
            }
        }
        let ghost f5 = r@;
        if self.phone_number.is_some() {
            r.push("phone_number".to_string());
        }
        proof {
            reveal_strlit("full_name");
            reveal_strlit("email");
            reveal_strlit("gender");
            reveal_strlit("identity_number");
            reveal_strlit("coach_id");
            reveal_strlit("phone_number");
            assert(views_of(f1) =~= field_if(self.full_name, "full_name"@));
            assert(views_of(f2) =~= views_of(f1) + field_if(self.email, "email"@));
            assert(views_of(f3) =~= views_of(f2) + field_if(self.gender, "gender"@));
            assert(views_of(f4) =~= views_of(f3) + field_if(self.identity_number, "identity_number"@));
            assert(views_of(f5) =~= views_of(f4) + (if self.coach_id matches Some(t) && key_of_text(
                t@,
            ) is Some {
                seq!["coach_id"@]
            } else {
                Seq::empty()
            }));
            assert(views_of(r@) =~= views_of(f5) + field_if(self.phone_number, "phone_number"@));
        }
        r
    }

    /// No field is given.
    pub open spec fn is_empty(&self) -> bool {
        &&& self.full_name is None
        &&& self.email is None
        &&& self.gender is None
        &&& self.identity_number is None
        &&& self.phone_number is None
        &&& self.coach_id is None
    }

    /// Applies the update to a member's details.
    pub fn apply_to(&self, member: &MemberProfile) -> (r: MemberProfile)
        ensures
            r@ == self.patched(member@),
            self.full_name matches Some(v) ==> r.full_name@ == v@,
            self.full_name is None ==> r.full_name@ == member.full_name@,
            self.email matches Some(v) ==> (r.email matches Some(e) && e@ == v@),
            self.email is None ==> text_view(r.email) == text_view(member.email),
            self.gender matches Some(v) ==> (r.gender matches Some(g) && g@ == v@),
            self.gender is None ==> text_view(r.gender) == text_view(member.gender),
            self.identity_number matches Some(v) ==> (r.identity_number matches Some(n) && n@ == v@),
            self.identity_number is None ==> text_view(r.identity_number) == text_view(
                member.identity_number,
            ),
            self.phone_number matches Some(v) ==> (r.phone_number matches Some(n) && n@ == v@),
            self.phone_number is None ==> text_view(r.phone_number) == text_view(member.phone_number),
            self.coach_id is None ==> key_view(r.coach_id) == key_view(member.coach_id),
    {
        let full_name = match &self.full_name {
            Some(v) => v.clone(),
            None => member.full_name.clone(),
        };
        let coach_id = match &self.coach_id {
            Some(t) => parse_object_id(t.as_str()),
            None => copy_key(&member.coach_id),
        };
        MemberProfile {
            full_name,
            email: pick_opt(&member.email, &self.email),
            gender: pick_opt(&member.gender, &self.gender),
            identity_number: pick_opt(&member.identity_number, &self.identity_number),
            phone_number: pick_opt(&member.phone_number, &self.phone_number),
            coach_id,
        }
    }
}

/// A copy of `given` when there is one, otherwise of `current`.
pub fn pick_opt(current: &Option<String>, given: &Option<String>) -> (r: Option<String>)
    ensures
        text_view(r) == opt_overridden(text_view(*current), *given),
{
    match given {
        Some(v) => Some(v.clone()),
        None => match current {
            Some(c) => Some(c.clone()),
            None => None,
        },
    }
}

/// A copy of an optional record id.
pub fn copy_key(k: &Option<ObjectKey>) -> (r: Option<ObjectKey>)
    ensures
        key_view(r) == key_view(*k),
{
    match k {
        Some(v) => Some(ObjectKey { bytes: v.bytes.clone() }),
        None => None,
    }
}

/// An update that gives no field leaves the member as it was and writes no field.
pub proof fn law_member_empty_update(u: UpdateMemberRequest, m: MemberProfileView)
    requires
        u.is_empty(),
    ensures
        u.patched(m) == m,
        u.written_fields().len() == 0,
{
}

/// Each detail given replaces the stored one and each detail not given is kept; a coach id
/// given sets the coach to the record it names, or clears it when it names none. Every field
/// the update reports as written holds the value given.
pub proof fn law_member_update_replaces_given(u: UpdateMemberRequest, m: MemberProfileView)
    ensures
        u.full_name matches Some(v) ==> u.patched(m).full_name == v@,
        u.full_name is None ==> u.patched(m).full_name == m.full_name,
        u.email matches Some(v) ==> u.patched(m).email == Some(v@),
        u.email is None ==> u.patched(m).email == m.email,
        u.gender matches Some(v) ==> u.patched(m).gender == Some(v@),
        u.gender is None ==> u.patched(m).gender == m.gender,
        u.identity_number matches Some(v) ==> u.patched(m).identity_number == Some(v@),
        u.identity_number is None ==> u.patched(m).identity_number == m.identity_number,
        u.phone_number matches Some(v) ==> u.patched(m).phone_number == Some(v@),
        u.phone_number is None ==> u.patched(m).phone_number == m.phone_number,
        u.coach_id matches Some(t) ==> (is_object_id_text(t@) ==> u.patched(m).coach_id == Some(
            object_id_bytes(t@),
        )) && (!is_object_id_text(t@) ==> u.patched(m).coach_id is None),
        u.coach_id is None ==> u.patched(m).coach_id == m.coach_id,
        u.written_fields().contains("full_name"@) ==> (u.full_name matches Some(v)
            && u.patched(m).full_name == v@),
        u.written_fields().contains("coach_id"@) ==> (u.coach_id matches Some(t)
            && u.patched(m).coach_id == Some(object_id_bytes(t@))),
{
    reveal_strlit("full_name");
    reveal_strlit("email");
    reveal_strlit("gender");
    reveal_strlit("identity_number");
    reveal_strlit("coach_id");
    reveal_strlit("phone_number");
    let w = u.written_fields();
    if w.contains("full_name"@) {
        let k = choose|k: int| 0 <= k < w.len() && w[k] == "full_name"@;
        if u.full_name is None {
            let rest = field_if(u.email, "email"@) + field_if(u.gender, "gender"@) + field_if(
                u.identity_number,
                "identity_number"@,
            ) + (if u.coach_id matches Some(t) && key_of_text(t@) is Some {
                seq!["coach_id"@]
            } else {
                Seq::empty()
            }) + field_if(u.phone_number, "phone_number"@);
            assert(w =~= rest);
            assert(w[k][0] == 'f');
        }
    }
    if w.contains("coach_id"@) {
        let k = choose|k: int| 0 <= k < w.len() && w[k] == "coach_id"@;
        if !(u.coach_id matches Some(t) && key_of_text(t@) is Some) {
            let a = field_if(u.full_name, "full_name"@) + field_if(u.email, "email"@) + field_if(
                u.gender,
                "gender"@,
            ) + field_if(u.identity_number, "identity_number"@);
            assert(w =~= a + field_if(u.phone_number, "phone_number"@));
            assert(w[k][0] == 'c');
        }
    }
}

/// Applying the same update twice changes nothing more than applying it once.
pub proof fn law_member_update_idempotent(u: UpdateMemberRequest, m: MemberProfileView)
    ensures
        u.patched(u.patched(m)) == u.patched(m),
{
}

impl CreateMemberRequest {
    /// The record id under which a new member's coach (and membership) is looked up: the
    /// coach id given, when it is a record id. Without one the member is refused.
    pub fn coach_key(&self) -> (r: Option<ObjectKey>)
        ensures
            match r {
                Some(k) => self.coach_id matches Some(t) && key_of_text(t@) == Some(k@),
                None => self.coach_id is None || key_of_text(self.coach_id->0@) is None,
            },
    {
        match &self.coach_id {
            Some(t) => parse_object_id(t.as_str()),
            None => None,
        }
    }
}

/// A progress upload is complete when it holds both a `data-image` and a `body-image` part.
pub fn has_progress_parts(parts: &Vec<String>) -> (r: bool)
    ensures
        r == (views_of(parts@).contains("data-image"@) && views_of(parts@).contains("body-image"@)),
{
    index_of_text(parts, "data-image").is_some() && index_of_text(parts, "body-image").is_some()
}

/// The note on the transaction that sells a new member its first membership package.
pub const MEMBERSHIP_PURCHASE_NOTE: &'static str = "Pembelian paket langganan";

/// The note on the transaction that bills a member's change of membership package.
pub const MEMBERSHIP_SWITCH_NOTE: &'static str = "Pembelian pergantian paket langganan";

/// How a member's subscription takes a membership package that is billed again.
#[derive(Clone, Copy, Debug, PartialEq, Eq, Structural)]
pub enum SubscriptionChange {
    /// The existing subscription's quota grows by the package's quota.
    RaiseQuota,
    /// A subscription to the package is created with its price and quota.
    Subscribe,
}

/// The change a member update makes to the member's subscription, given the membership id
/// asked for, whether the member has a subscription, and the membership that subscription
/// holds: a package is billed only when the id asked for is a record id equal to the
/// subscription's current membership; it then raises the quota of an existing subscription,
/// or creates one.
pub open spec fn subscription_change(
    requested: Option<Seq<char>>,
    has_subscription: bool,
    current: Option<Seq<u8>>,
) -> Option<SubscriptionChange> {
    match requested {
        Some(t) => if key_of_text(t) is Some && key_of_text(t) == current {
            if has_subscription {
                Some(SubscriptionChange::RaiseQuota)
            } else {
                Some(SubscriptionChange::Subscribe)
            }
        } else {
            None
        },
        None => None,
    }
}

/// Decides whether a member update bills a membership package, and how the subscription
/// takes it. A record id asked for while the subscription holds no membership is refused
/// by `requires`: there the check has no membership to compare with.
pub fn plan_subscription_change(
    requested: &Option<String>,
    has_subscription: bool,
    current: &Option<ObjectKey>,
) -> (r: Option<SubscriptionChange>)
    requires
        requested matches Some(t) && key_of_text(t@) is Some ==> current is Some,
    ensures
        r == subscription_change(text_view(*requested), has_subscription, key_view(*current)),
{
    match requested {
        None => None,
        Some(t) => match parse_object_id(t.as_str()) {
            None => None,
            Some(k) => {
                let c = match current {
                    Some(c) => c,
                    None => {
                        return None;
                    },
                };
                if same_bytes(&k.bytes, &c.bytes) {
                    if has_subscription {
                        Some(SubscriptionChange::RaiseQuota)
                    } else {
                        Some(SubscriptionChange::Subscribe)
                    }
                } else {
                    None
                }
            },
        },
    }
}

/// Whether two byte sequences are equal.
fn same_bytes(a: &Vec<u8>, b: &Vec<u8>) -> (r: bool)
    ensures
        r == (a@ == b@),
{
    if a.len() != b.len() {
        return false;
    }
    let mut i: usize = 0;
    while i < a.len()
        invariant
            a.len() == b.len(),
            i <= a.len(),
            forall|j: int| 0 <= j < i ==> a@[j] == b@[j],
        decreases a.len() - i,
    {
        if a[i] != b[i] {
            return false;
        }
        i = i + 1;
    }
    assert(a@ =~= b@);
    true
}

/// The note on the sale of a membership package in a transaction's detail: `Paket langganan`,
/// a space, then the package's name.
pub fn membership_detail_note(package_name: &str) -> (r: String)
    ensures
        r@ == "Paket langganan "@ + package_name@,
{
    concat_str("Paket langganan ", package_name)
}

/// The kind under which an uploaded progress picture is filed: `MEMBER-PROGRESS` for the
/// `data-image` part, `MEMBER-BODY-IMAGE` for any other.
pub fn progress_image_kind(part: &str) -> (r: String)
    ensures
        part@ == seq!['d', 'a', 't', 'a', '-', 'i', 'm', 'a', 'g', 'e'] ==> r@ == seq![
            'M', 'E', 'M', 'B', 'E', 'R', '-', 'P', 'R', 'O', 'G', 'R', 'E', 'S', 'S',
        ],
        part@ != seq!['d', 'a', 't', 'a', '-', 'i', 'm', 'a', 'g', 'e'] ==> r@ == seq![
            'M', 'E', 'M', 'B', 'E', 'R', '-', 'B', 'O', 'D', 'Y', '-', 'I', 'M', 'A', 'G', 'E',
        ],
{
    let data_image = vec!['d', 'a', 't', 'a', '-', 'i', 'm', 'a', 'g', 'e'];
    let key = string_from_chars(&data_image);
    if equal_str(part, key.as_str()) {
        string_from_chars(
            &vec!['M', 'E', 'M', 'B', 'E', 'R', '-', 'P', 'R', 'O', 'G', 'R', 'E', 'S', 'S'],
        )
    } else {
        string_from_chars(
            &vec!['M', 'E', 'M', 'B', 'E', 'R', '-', 'B', 'O', 'D', 'Y', '-', 'I', 'M', 'A', 'G', 'E'],
        )
    }
}

} // verus!
