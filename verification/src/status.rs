use vstd::prelude::*;

verus! {

/// Whether a battery status text reports a full battery.
pub open spec fn is_full_text(status: Seq<char>) -> bool {
    status == "Full"@ || status == "Fully Charged"@
}

/// Whether two texts are equal.
pub fn text_eq(a: &str, b: &str) -> (r: bool)
    ensures
        r == (a@ == b@),
{
    String::from_str(a) == String::from_str(b)
}

/// Whether a battery status text reports a full battery.
pub fn is_full_status(status: &str) -> (r: bool)
    ensures
        r == is_full_text(status@),
{
    text_eq(status, "Full") || text_eq(status, "Fully Charged")
}

/// The first of `statuses` that does not report a full battery, if any.
pub open spec fn first_not_full(statuses: Seq<Seq<char>>) -> Option<Seq<char>>
    decreases statuses.len(),
{
    if statuses.len() == 0 {
        None
    } else if !is_full_text(statuses[0]) {
        Some(statuses[0])
    } else {
        first_not_full(statuses.drop_first())
    }
}

/// The status of several batteries taken together: `Full` when every one reports
/// full, else the status of the first that does not.
pub open spec fn combined_status_text(statuses: Seq<Seq<char>>) -> Seq<char> {
    match first_not_full(statuses) {
        Some(s) => s,
        None => "Full"@,
    }
}

/// Combines the status texts of all batteries into the one the applet shows.
pub fn combined_status(statuses: &Vec<String>) -> (r: String)
    ensures
        r@ == combined_status_text(statuses@.map_values(|s: String| s@)),
{
    let ghost views = statuses@.map_values(|s: String| s@);
    assert(views.skip(0) =~= views);
    let mut i: usize = 0;
    while i < statuses.len()
        invariant
            i <= statuses.len(),
            views == statuses@.map_values(|s: String| s@),
            first_not_full(views) == first_not_full(views.skip(i as int)),
        decreases statuses.len() - i,
    {
        assert(views.skip(i as int)[0] == statuses@[i as int]@);
        if !is_full_status(statuses[i].as_str()) {
            return statuses[i].clone();
        }
        assert(views.skip(i as int).drop_first() =~= views.skip(i + 1));
        i = i + 1;
    }
    assert(views.skip(i as int).len() == 0);
    String::from_str("Full")
}

/// When every battery reports full, the combined status is `Full`; otherwise it
/// is the status of a battery that is not full, the first such in the list.
pub proof fn lemma_combined_status(statuses: Seq<Seq<char>>)
    ensures
        (forall|i: int| 0 <= i < statuses.len() ==> is_full_text(#[trigger] statuses[i]))
            ==> combined_status_text(statuses) == "Full"@,
        !(forall|i: int| 0 <= i < statuses.len() ==> is_full_text(#[trigger] statuses[i]))
            ==> exists|k: int|
            0 <= k < statuses.len() && combined_status_text(statuses) == statuses[k]
                && !is_full_text(statuses[k]) && (forall|j: int|
                0 <= j < k ==> is_full_text(#[trigger] statuses[j])),
    decreases statuses.len(),
{
    if statuses.len() > 0 {
        let rest = statuses.drop_first();
        lemma_combined_status(rest);
        if is_full_text(statuses[0]) {
            if forall|i: int| 0 <= i < statuses.len() ==> is_full_text(#[trigger] statuses[i]) {
                assert forall|i: int| 0 <= i < rest.len() implies is_full_text(#[trigger] rest[i]) by {
                    assert(rest[i] == statuses[i + 1]);
                }
            } else {
                let w = choose|i: int| 0 <= i < statuses.len() && !is_full_text(#[trigger] statuses[i]);
                assert(rest[w - 1] == statuses[w]);
                let k = choose|k: int|
                    0 <= k < rest.len() && combined_status_text(rest) == rest[k]
                        && !is_full_text(rest[k]) && (forall|j: int|
                        0 <= j < k ==> is_full_text(#[trigger] rest[j]));
                assert(statuses[k + 1] == rest[k]);
                assert forall|j: int| 0 <= j < k + 1 implies is_full_text(#[trigger] statuses[j]) by {
                    if j > 0 {
                        assert(statuses[j] == rest[j - 1]);
                    }
                }
            }
        } else {
            assert(!is_full_text(statuses[0]));
        }
    }
}

/// Which remaining time a reading allows to estimate.
#[derive(Clone, Copy, Debug, PartialEq, Eq, Structural)]
pub enum TimeEstimate {
    /// No estimate: the battery neither charges nor discharges at a positive rate.
    Unknown,
    /// Time until the battery is empty, from the energy left and the rate.
    UntilEmpty,
    /// Time until the battery is full, from the energy missing and the rate.
    UntilFull,
}

/// Which remaining time to estimate for a combined status and a rate that is or
/// is not above zero.
pub open spec fn time_estimate_spec(status: Seq<char>, rate_positive: bool) -> TimeEstimate {
    if !rate_positive {
        TimeEstimate::Unknown
    } else if status == "Discharging"@ {
        TimeEstimate::UntilEmpty
    } else if status == "Charging"@ {
        TimeEstimate::UntilFull
    } else {
        TimeEstimate::Unknown
    }
}

/// Chooses which remaining time a reading allows to estimate.
pub fn time_estimate(status: &str, rate_positive: bool) -> (r: TimeEstimate)
    ensures
        r == time_estimate_spec(status@, rate_positive),
{
    if !rate_positive {
        TimeEstimate::Unknown
    } else if text_eq(status, "Discharging") {
        TimeEstimate::UntilEmpty
    } else if text_eq(status, "Charging") {
        TimeEstimate::UntilFull
    } else {
        TimeEstimate::Unknown
    }
}

/// The indices of the power supplies whose type is `Battery`, in order.
pub open spec fn battery_positions(kinds: Seq<Seq<char>>) -> Seq<int>
    decreases kinds.len(),
{
    if kinds.len() == 0 {
        Seq::empty()
    } else {
        let rest = battery_positions(kinds.drop_last());
        if kinds.last() == "Battery"@ {
            rest.push(kinds.len() - 1)
        } else {
            rest
        }
    }
}

/// Picks the batteries among the power supplies, given the type text of each
/// (empty where it could not be read). Refuses a system with no battery.
pub fn select_batteries(kinds: &Vec<String>) -> (r: Result<Vec<usize>, String>)
    ensures
        match r {
            Ok(found) => found@.map_values(|i: usize| i as int) == battery_positions(
                kinds@.map_values(|s: String| s@),
            ) && found@.len() > 0,
            Err(e) => battery_positions(kinds@.map_values(|s: String| s@)).len() == 0
                && e@ == "No battery detected"@,
        },
{
    let ghost views = kinds@.map_values(|s: String| s@);
    let mut found: Vec<usize> = Vec::new();
    let mut i: usize = 0;
    while i < kinds.len()
        invariant
            i <= kinds.len(),
            views == kinds@.map_values(|s: String| s@),
            found@.map_values(|j: usize| j as int) == battery_positions(views.take(i as int)),
        decreases kinds.len() - i,
    {
        assert(views.take(i + 1).drop_last() =~= views.take(i as int));
        assert(views.take(i + 1).last() == kinds@[i as int]@);
        if text_eq(kinds[i].as_str(), "Battery") {
            found.push(i);
            assert(found@.map_values(|j: usize| j as int) =~= battery_positions(views.take(i as int)).push(i as int));
        }
        i = i + 1;
    }
    assert(views.take(i as int) =~= views);
    if found.len() == 0 {
        Err(String::from_str("No battery detected"))
    } else {
        Ok(found)
    }
}

/// A status reports a full battery exactly when it reads `Full` or `Fully Charged`.
pub proof fn law_full_statuses(status: Seq<char>)
    ensures
        is_full_text(status) <==> (status == "Full"@ || status == "Fully Charged"@),
{
}

/// The time until empty is estimated exactly for a discharging battery with a
/// positive rate, and the time until full exactly for a charging one.
pub proof fn law_time_estimate_cases(status: Seq<char>, rate_positive: bool)
    ensures
        (time_estimate_spec(status, rate_positive) == TimeEstimate::UntilEmpty) <==> (rate_positive && status
            == "Discharging"@),
        (time_estimate_spec(status, rate_positive) == TimeEstimate::UntilFull) <==> (rate_positive && status
            == "Charging"@),
{
    reveal_strlit("Charging");
    reveal_strlit("Discharging");
    assert("Charging"@.len() != "Discharging"@.len());
}

/// The batteries picked are exactly the power supplies whose type is `Battery`,
/// wherever they stand in the list (the first included), in increasing order.
pub proof fn law_battery_positions(kinds: Seq<Seq<char>>)
    ensures
        forall|i: int|
            #![trigger battery_positions(kinds).contains(i)]
            #![trigger kinds[i]]
            battery_positions(kinds).contains(i) <==> (0 <= i < kinds.len() && kinds[i] == "Battery"@),
        forall|a: int, b: int|
            0 <= a < b < battery_positions(kinds).len() ==> battery_positions(kinds)[a] < battery_positions(kinds)[b],
    decreases kinds.len(),
{
    if kinds.len() > 0 {
        let front = kinds.drop_last();
        law_battery_positions(front);
        let rest = battery_positions(front);
        let last = kinds.len() - 1;
        let all = battery_positions(kinds);
        assert forall|i: int| #![trigger all.contains(i)] #![trigger kinds[i]]
            all.contains(i) <==> (0 <= i < kinds.len() && kinds[i] == "Battery"@) by {
            if 0 <= i < last {
                assert(front[i] == kinds[i]);
            }
            if all.contains(i) {
                let k = choose|k: int| 0 <= k < all.len() && all[k] == i;
                if k < rest.len() {
                    assert(all[k] == rest[k]);
                    assert(rest.contains(i));
                } else {
                    assert(kinds.last() == "Battery"@ && i == last);
                }
            }
            if 0 <= i < kinds.len() && kinds[i] == "Battery"@ {
                if i < last {
                    assert(rest.contains(i));
                    let k = choose|k: int| 0 <= k < rest.len() && rest[k] == i;
                    assert(all[k] == i);
                } else {
                    assert(all[rest.len() as int] == i);
                }
            }
        }
        if kinds.last() == "Battery"@ {
            assert forall|a: int, b: int| 0 <= a < b < all.len() implies all[a] < all[b] by {
                if b == rest.len() {
                    assert(rest.contains(rest[a]));
                }
            }
        }
    }
}

} // verus!
