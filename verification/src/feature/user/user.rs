use vstd::prelude::*;

use crate::text::{has_prefix, starts_with_str, views_of};

verus! {

/// A permission a new staff account is given: any that does not belong to the branch,
/// account or admin areas.
pub open spec fn staff_default(value: Seq<char>) -> bool {
    !has_prefix(value, "app::branch"@) && !has_prefix(value, "app::account"@) && !has_prefix(
        value,
        "app::admin"@,
    )
}

/// The permissions of `values` that a new staff account is given, in order.
pub open spec fn staff_defaults(values: Seq<Seq<char>>) -> Seq<Seq<char>>
    decreases values.len(),
{
    if values.len() == 0 {
        Seq::empty()
    } else if staff_default(values.last()) {
        staff_defaults(values.drop_last()).push(values.last())
    } else {
        staff_defaults(values.drop_last())
    }
}

/// Whether a new staff account is given this permission.
pub fn is_staff_default(value: &str) -> (r: bool)
    ensures
        r == staff_default(value@),
{
    !starts_with_str(value, "app::branch") && !starts_with_str(value, "app::account")
        && !starts_with_str(value, "app::admin")
}

/// Of all permissions, the ones a new staff account is granted, in order.
pub fn default_staff_permissions(values: &Vec<String>) -> (r: Vec<String>)
    ensures
        views_of(r@) == staff_defaults(views_of(values@)),
{
    let mut out: Vec<String> = Vec::new();
    let mut i: usize = 0;
    while i < values.len()
        invariant
            i <= values.len(),
            views_of(out@) == staff_defaults(views_of(values@.take(i as int))),
        decreases values.len() - i,
    {
        let ghost before = out@;
        assert(views_of(values@.take(i + 1)).drop_last() =~= views_of(values@.take(i as int)));
        assert(views_of(values@.take(i + 1)).last() == values@[i as int]@);
        if is_staff_default(values[i].as_str()) {
            let v = values[i].clone();
            out.push(v);
            assert(views_of(before.push(values@[i as int])) =~= views_of(before).push(values@[i as int]@));
        }
        i = i + 1;
    }
    assert(values@.take(values.len() as int) =~= values@);
    out
}

/// No permission of the branch, account or admin areas is granted, and every one granted is
/// among those offered.
pub proof fn law_staff_defaults_sound(values: Seq<Seq<char>>)
    ensures
        forall|i: int| 0 <= i < staff_defaults(values).len() ==> staff_default(
            #[trigger] staff_defaults(values)[i],
        ) && values.contains(staff_defaults(values)[i]),
        staff_defaults(values).len() <= values.len(),
    decreases values.len(),
{
    if values.len() > 0 {
        law_staff_defaults_sound(values.drop_last());
        let prev = staff_defaults(values.drop_last());
        assert forall|i: int| 0 <= i < staff_defaults(values).len() implies staff_default(
            #[trigger] staff_defaults(values)[i],
        ) && values.contains(staff_defaults(values)[i]) by {
            if staff_default(values.last()) && i == prev.len() {
                assert(values[values.len() - 1] == values.last());
            } else {
                assert(staff_defaults(values)[i] == prev[i]);
                assert(prev.contains(prev[i]));
                let k = choose|k: int| 0 <= k < values.drop_last().len() && values.drop_last()[k]
                    == prev[i];
                assert(values[k] == prev[i]);
            }
        }
    }
}

/// Selecting the staff permissions twice selects the same ones as once.
pub proof fn law_staff_defaults_idempotent(values: Seq<Seq<char>>)
    ensures
        staff_defaults(staff_defaults(values)) == staff_defaults(values),
    decreases values.len(),
{
    if values.len() > 0 {
        law_staff_defaults_idempotent(values.drop_last());
        let prev = staff_defaults(values.drop_last());
        if staff_default(values.last()) {
            assert(prev.push(values.last()).drop_last() =~= prev);
        }
    }
}

} // verus!
