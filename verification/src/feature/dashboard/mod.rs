use vstd::prelude::*;

use crate::outside::{utc_day_of_millis, utc_day_text};
use crate::text::{index_of_text, text_view, views_of};

verus! {

/// How many entries of `flags` are set.
pub open spec fn count_set(flags: Seq<bool>) -> nat
    decreases flags.len(),
{
    if flags.len() == 0 {
        0
    } else {
        count_set(flags.drop_last()) + if flags.last() {
            1nat
        } else {
            0nat
        }
    }
}

/// The product counts of a branch's dashboard.
#[derive(Clone, Copy, Debug, PartialEq, Eq, Structural)]
pub struct ProductCounts {
    pub total_membership_product: i64,
    pub total_non_membership_product: i64,
}

/// Counts a branch's products: those that are memberships, and the others. `is_membership`
/// holds one flag per product.
pub fn count_products(is_membership: &Vec<bool>) -> (r: ProductCounts)
    requires
        is_membership.len() <= i64::MAX,
    ensures
        r.total_membership_product == count_set(is_membership@),
        r.total_non_membership_product == is_membership.len() - count_set(is_membership@),
{
    let mut members: i64 = 0;
    let mut others: i64 = 0;
    let mut i: usize = 0;
    while i < is_membership.len()
        invariant
            i <= is_membership.len() <= i64::MAX,
            members == count_set(is_membership@.take(i as int)),
            others == i - count_set(is_membership@.take(i as int)),
            count_set(is_membership@.take(i as int)) <= i,
        decreases is_membership.len() - i,
    {
        assert(is_membership@.take(i + 1).drop_last() =~= is_membership@.take(i as int));
        if is_membership[i] {
            members = members + 1;
        } else {
            others = others + 1;
        }
        i = i + 1;
    }
    assert(is_membership@.take(is_membership.len() as int) =~= is_membership@);
    ProductCounts { total_membership_product: members, total_non_membership_product: others }
}

/// Every product is counted once: the two counts add up to the number of products.
pub proof fn law_product_counts_cover(flags: Seq<bool>)
    ensures
        count_set(flags) <= flags.len(),
    decreases flags.len(),
{
    if flags.len() > 0 {
        law_product_counts_cover(flags.drop_last());
    }
}

/// The texts of a sequence of optional days.
pub open spec fn day_views(days: Seq<Option<String>>) -> Seq<Option<Seq<char>>> {
    days.map_values(|d: Option<String>| text_view(d))
}

/// The days of a month's trend chart, after the first `n` transaction details: every day
/// that a detail of the wanted kind (`flags[i] == want`) falls on, once, in the order the days
/// first occur. A detail without a day is left out.
pub open spec fn trend_days(days: Seq<Option<Seq<char>>>, flags: Seq<bool>, want: bool, n: nat) -> Seq<
    Seq<char>,
>
    decreases n,
{
    if n == 0 {
        Seq::empty()
    } else {
        let prev = trend_days(days, flags, want, (n - 1) as nat);
        let i = n - 1;
        if flags[i] == want && days[i] is Some && !prev.contains(days[i]->0) {
            prev.push(days[i]->0)
        } else {
            prev
        }
    }
}

/// One trend chart of the dashboard: its days, and for each transaction detail the index of
/// the day whose point it adds to (none for a detail the chart leaves out).
pub struct TrendPlan {
    pub days: Vec<String>,
    pub group_of: Vec<Option<usize>>,
}

/// `p` charts the details of kind `want`: its days are [`trend_days`] of all details, and
/// each detail of that kind with a day adds to the point of its own day, the others to none.
pub open spec fn charts(p: TrendPlan, days: Seq<Option<Seq<char>>>, flags: Seq<bool>, want: bool) -> bool {
    &&& views_of(p.days@) == trend_days(days, flags, want, days.len())
    &&& p.group_of@.len() == days.len()
    &&& forall|i: int|
        0 <= i < days.len() ==> ((#[trigger] p.group_of@[i]) is Some <==> (flags[i] == want
            && days[i] is Some))
    &&& forall|i: int|
        0 <= i < days.len() && (#[trigger] p.group_of@[i]) is Some ==> p.group_of@[i]->0
            < p.days@.len() && Some(p.days@[p.group_of@[i]->0 as int]@) == days[i]
}

/// Builds the trend chart of the details of kind `want` (`true` for memberships), given each
/// detail's day and kind.
pub fn group_trend(days: &Vec<Option<String>>, flags: &Vec<bool>, want: bool) -> (r: TrendPlan)
    requires
        days.len() == flags.len(),
    ensures
        charts(r, day_views(days@), flags@, want),
{
    let ghost dv = day_views(days@);
    let mut out_days: Vec<String> = Vec::new();
    let mut group_of: Vec<Option<usize>> = Vec::new();
    let mut i: usize = 0;
    while i < days.len()
        invariant
            days.len() == flags.len(),
            dv == day_views(days@),
            i <= days.len(),
            views_of(out_days@) == trend_days(dv, flags@, want, i as nat),
            group_of@.len() == i,
            forall|j: int|
                0 <= j < i ==> ((#[trigger] group_of@[j]) is Some <==> (flags@[j] == want
                    && dv[j] is Some)),
            forall|j: int|
                0 <= j < i && (#[trigger] group_of@[j]) is Some ==> group_of@[j]->0
                    < out_days@.len() && Some(out_days@[group_of@[j]->0 as int]@) == dv[j],
        decreases days.len() - i,
    {
        let ghost before = out_days@;
        assert(dv[i as int] == match days@[i as int] {
            Some(s) => Some(s@),
            None => None::<Seq<char>>,
        });
        if flags[i] == want {
            match &days[i] {
                Some(d) => {
                    match index_of_text(&out_days, d.as_str()) {
                        Some(k) => {
                            assert(views_of(out_days@)[k as int] == d@);
                            assert(views_of(out_days@).contains(d@));
                            group_of.push(Some(k));
                        },
                        None => {
                            let n = out_days.len();
                            out_days.push(d.clone());
                            group_of.push(Some(n));
                            assert(views_of(out_days@) =~= views_of(before).push(d@));
                        },
                    }
                },
                None => {
                    group_of.push(None);
                },
            }
        } else {
            group_of.push(None);
        }
        proof {
            let prev = trend_days(dv, flags@, want, i as nat);
            assert(trend_days(dv, flags@, want, (i + 1) as nat) == (if flags@[i as int] == want
                && dv[i as int] is Some && !prev.contains(dv[i as int]->0) {
                prev.push(dv[i as int]->0)
            } else {
                prev
            }));
            assert forall|j: int|
                0 <= j < i + 1 && (#[trigger] group_of@[j]) is Some implies group_of@[j]->0
                    < out_days@.len() && Some(out_days@[group_of@[j]->0 as int]@) == dv[j] by {
                if j < i {
                    assert(out_days@[group_of@[j]->0 as int] == before[group_of@[j]->0 as int]);
                }
            }
        }
        i = i + 1;
    }
    TrendPlan { days: out_days, group_of }
}

/// A trend chart lists each day once.
pub proof fn law_trend_days_distinct(days: Seq<Option<Seq<char>>>, flags: Seq<bool>, want: bool, n: nat)
    ensures
        forall|a: int, b: int|
            0 <= a < b < trend_days(days, flags, want, n).len() ==> trend_days(days, flags, want, n)[a]
                != trend_days(days, flags, want, n)[b],
    decreases n,
{
    if n > 0 {
        law_trend_days_distinct(days, flags, want, (n - 1) as nat);
        let prev = trend_days(days, flags, want, (n - 1) as nat);
        let cur = trend_days(days, flags, want, n);
        assert forall|a: int, b: int| 0 <= a < b < cur.len() implies cur[a] != cur[b] by {
            if b == prev.len() && cur.len() > prev.len() {
                assert(cur[a] == prev[a]);
                assert(prev.contains(prev[a]));
            } else {
                assert(cur[a] == prev[a] && cur[b] == prev[b]);
            }
        }
    }
}

/// Every detail with a day is charted exactly once: on the membership chart when it sold a
/// membership, on the other chart when not; a detail without a day is on neither.
pub proof fn law_trend_charts_partition(
    membership: TrendPlan,
    others: TrendPlan,
    days: Seq<Option<Seq<char>>>,
    flags: Seq<bool>,
)
    requires
        flags.len() == days.len(),
        charts(membership, days, flags, true),
        charts(others, days, flags, false),
    ensures
        forall|i: int|
            0 <= i < days.len() ==> (days[i] is Some <==> ((#[trigger] membership.group_of@[i]) is Some
                != others.group_of@[i] is Some)),
{
    assert forall|i: int| 0 <= i < days.len() implies (days[i] is Some <==> ((
    #[trigger] membership.group_of@[i]) is Some != others.group_of@[i] is Some)) by {
        assert(membership.group_of@[i] is Some <==> (flags[i] == true && days[i] is Some));
        assert(others.group_of@[i] is Some <==> (flags[i] == false && days[i] is Some));
    }
}

/// The two trend charts of the dashboard.
pub struct DashboardTrends {
    /// Membership sales per day.
    pub membership: TrendPlan,
    /// Other sales per day.
    pub others: TrendPlan,
}

/// The day of each transaction detail, read from the creation time of its transaction.
pub open spec fn detail_days(created_at_millis: Seq<i64>) -> Seq<Option<Seq<char>>> {
    created_at_millis.map_values(|m: i64| utc_day_text(m))
}

/// Plans the dashboard's two trend charts of a month's transaction details, given the
/// creation time (milliseconds since the epoch) of each detail's transaction and whether the
/// detail sold a membership.
pub fn plan_dashboard_trends(created_at_millis: &Vec<i64>, is_membership: &Vec<bool>) -> (r:
    DashboardTrends)
    requires
        created_at_millis.len() == is_membership.len(),
    ensures
        charts(r.membership, detail_days(created_at_millis@), is_membership@, true),
        charts(r.others, detail_days(created_at_millis@), is_membership@, false),
{
    let mut days: Vec<Option<String>> = Vec::new();
    let mut i: usize = 0;
    while i < created_at_millis.len()
        invariant
            i <= created_at_millis.len(),
            day_views(days@) == detail_days(created_at_millis@.take(i as int)),
        decreases created_at_millis.len() - i,
    {
        let d = utc_day_of_millis(created_at_millis[i]);
        let ghost before = days@;
        days.push(d);
        assert(day_views(days@) =~= day_views(before).push(
            match d {
                Some(s) => Some(s@),
                None => None,
            },
        ));
        assert(created_at_millis@.take(i + 1) =~= created_at_millis@.take(i as int).push(
            created_at_millis@[i as int],
        ));
        assert(day_views(days@) =~= detail_days(created_at_millis@.take(i + 1)));
        i = i + 1;
    }
    assert(created_at_millis@.take(created_at_millis.len() as int) =~= created_at_millis@);
    let membership = group_trend(&days, is_membership, true);
    let others = group_trend(&days, is_membership, false);
    DashboardTrends { membership, others }
}

} // verus!
