//! Month- and week-range rollups: sums over per-day activity records,
//! category ranking, day tables and the week summary data.

use vstd::prelude::*;
use vstd::pervasive::VecAdditionalExecFns;
use vstd::seq_lib::group_to_multiset_ensures;
use vstd::string::StringExecFns;

use crate::dates::{date_le, date_le_spec, date_text, format_date, has_next_day, month_label,
    month_label_text, next_day, plus_days, DateYmd, WeekBounds};
use crate::metrics::{distraction_minutes_spec, effort_spec, focus_minutes_spec,
    productivity_spec, ratio_spec, WeekFocusMetrics, WeekScoreConfig};
use crate::model::ActivityRollup;
use crate::text::{chars_to_string, dec_int, dec_nat, i64_to_string, join_strings, join_views,
    pad2_spec, str_to_chars, string_views, u64_pad2, u64_to_string, year4, year4_spec};

verus! {

broadcast use group_to_multiset_ensures;

/// The most per-day records a rollup accepts: one per day of a date range
/// spanning at most a year.
pub const MAX_ROLLUP_DAYS: usize = 372;

/// Every record is well-formed and there are no more than a year's worth:
/// what the per-day fetch hands a rollup.
pub open spec fn rollup_input_ok(acts: Seq<ActivityRollup>) -> bool {
    &&& acts.len() <= MAX_ROLLUP_DAYS
    &&& forall|i: int| 0 <= i < acts.len() ==> (#[trigger] acts[i]).wf()
}

/// The text with every line break flattened to a space.
pub open spec fn cleaned_of(s: Seq<char>) -> Seq<char> {
    s.map(|i: int, c: char| if c == '\n' || c == '\r' {
        ' '
    } else {
        c
    })
}

/// The newline-stripped text, cut to `max_len` characters and suffixed with
/// an ellipsis when it was longer.
pub open spec fn compact_spec(s: Seq<char>, max_len: int) -> Seq<char> {
    let c = cleaned_of(s);
    if c.len() <= max_len {
        c
    } else {
        c.take(max_len) + "..."@
    }
}

/// Flattens line breaks to spaces and truncates to `max_len` characters
/// with an ellipsis suffix.
pub fn compact_summary_text(text: &str, max_len: usize) -> (r: String)
    ensures
        r@ == compact_spec(text@, max_len as int),
{
    let chars = str_to_chars(text);
    let n = chars.len();
    let mut cleaned: Vec<char> = Vec::new();
    let mut i: usize = 0;
    while i < n
        invariant
            0 <= i <= n == chars.len(),
            chars@ == text@,
            cleaned@ =~= cleaned_of(text@).take(i as int),
        decreases n - i,
    {
        let c = chars[i];
        if c == '\n' || c == '\r' {
            cleaned.push(' ');
        } else {
            cleaned.push(c);
        }
        i = i + 1;
    }
    proof {
        assert(cleaned@ =~= cleaned_of(text@));
    }
    if cleaned.len() <= max_len {
        chars_to_string(&cleaned)
    } else {
        let mut cut: Vec<char> = Vec::new();
        let mut j: usize = 0;
        while j < max_len
            invariant
                0 <= j <= max_len < cleaned.len(),
                cleaned@ == cleaned_of(text@),
                cut@ =~= cleaned@.take(j as int),
            decreases max_len - j,
        {
            cut.push(cleaned[j]);
            j = j + 1;
        }
        let mut s = chars_to_string(&cut);
        s.append("...");
        proof {
            assert(s@ =~= compact_spec(text@, max_len as int));
        }
        s
    }
}

/// Total sessions over the records.
pub open spec fn sum_sessions(acts: Seq<ActivityRollup>) -> int
    decreases acts.len(),
{
    if acts.len() == 0 {
        0
    } else {
        sum_sessions(acts.drop_last()) + acts.last().session_count
    }
}

/// Total minutes over the records.
pub open spec fn sum_minutes(acts: Seq<ActivityRollup>) -> int
    decreases acts.len(),
{
    if acts.len() == 0 {
        0
    } else {
        sum_minutes(acts.drop_last()) + acts.last().total_duration_minutes
    }
}

/// Sums session counts and minutes over the records.
pub fn sum_activity_totals(acts: &Vec<ActivityRollup>) -> (r: (i64, i64))
    requires
        rollup_input_ok(acts@),
    ensures
        r.0 as int == sum_sessions(acts@),
        r.1 as int == sum_minutes(acts@),
        0 <= r.0,
        0 <= r.1,
{
    let mut sessions: i64 = 0;
    let mut minutes: i64 = 0;
    let mut i: usize = 0;
    while i < acts.len()
        invariant
            0 <= i <= acts.len(),
            rollup_input_ok(acts@),
            sessions as int == sum_sessions(acts@.take(i as int)),
            minutes as int == sum_minutes(acts@.take(i as int)),
            0 <= sessions as int <= (i as int) * 1_000_000_000,
            0 <= minutes as int <= (i as int) * 1_000_000_000,
        decreases acts.len() - i,
    {
        proof {
            let t = acts@.take(i + 1);
            assert(t.drop_last() =~= acts@.take(i as int));
            assert(t.last() == acts@[i as int]);
            assert(acts@[i as int].wf());
        }
        sessions = sessions + acts[i].session_count;
        minutes = minutes + acts[i].total_duration_minutes;
        i = i + 1;
    }
    proof {
        assert(acts@.take(acts@.len() as int) =~= acts@);
    }
    (sessions, minutes)
}

/// Minutes per session, floored; 0 without sessions.
pub open spec fn avg_spec(minutes: int, sessions: int) -> int {
    if sessions > 0 {
        minutes / sessions
    } else {
        0
    }
}

pub fn avg_session_minutes(minutes: i64, sessions: i64) -> (r: i64)
    requires
        0 <= minutes,
        0 <= sessions,
    ensures
        r as int == avg_spec(minutes as int, sessions as int),
        0 <= r,
{
    if sessions > 0 {
        ((minutes as u64) / (sessions as u64)) as i64
    } else {
        0
    }
}

/// The records in calendar order.
pub open spec fn sorted_by_date(s: Seq<ActivityRollup>) -> bool {
    forall|i: int, j: int| 0 <= i < j < s.len() ==> date_le_spec(s[i].date, s[j].date)
}

/// Sorts the records by their date, earliest first.
pub fn sort_activities_by_date(v: Vec<ActivityRollup>) -> (r: Vec<ActivityRollup>)
    ensures
        sorted_by_date(r@),
        r@.to_multiset() == v@.to_multiset(),
        r@.len() == v@.len(),
{
    let ghost orig = v@;
    let mut work = v;
    let mut out: Vec<ActivityRollup> = Vec::new();
    while work.len() > 0
        invariant
            out@.to_multiset().add(work@.to_multiset()) =~= orig.to_multiset(),
            out@.len() + work@.len() == orig.len(),
            sorted_by_date(out@),
            forall|oi: int, wi: int|
                0 <= oi < out@.len() && 0 <= wi < work@.len() ==> date_le_spec(
                    (#[trigger] out@[oi]).date,
                    (#[trigger] work@[wi]).date,
                ),
        decreases work.len(),
    {
        let mut min_idx: usize = 0;
        let mut k: usize = 1;
        while k < work.len()
            invariant
                0 <= min_idx < k <= work.len(),
                forall|j: int|
                    0 <= j < k ==> date_le_spec(work@[min_idx as int].date, (#[trigger] work@[j]).date),
            decreases work.len() - k,
        {
            if !date_le(&work[min_idx].date, &work[k].date) {
                min_idx = k;
            }
            k = k + 1;
        }
        let ghost work_before = work@;
        let picked = work.remove(min_idx);
        proof {
            assert(work_before.contains(picked)) by {
                assert(work_before[min_idx as int] == picked);
            }
            assert(work@ == work_before.remove(min_idx as int));
            assert(forall|wi: int|
                0 <= wi < work@.len() ==> date_le_spec(picked.date, (#[trigger] work@[wi]).date))
                by {
                work_before.remove_ensures(min_idx as int);
            }
        }
        let ghost out_before = out@;
        out.push(picked);
        proof {
            assert(out@ == out_before.push(picked));
            assert(out@.to_multiset().add(work@.to_multiset()) =~= orig.to_multiset());
            assert(forall|oi: int|
                0 <= oi < out@.len() ==> date_le_spec((#[trigger] out@[oi]).date, picked.date));
            assert(sorted_by_date(out@));
        }
    }
    proof {
        assert(work@.to_multiset().len() == 0);
        assert(out@.to_multiset() =~= orig.to_multiset());
    }
    out
}

/// Occurrences of a category name in one day's main-category list.
pub open spec fn count_in_list(l: Seq<String>, c: Seq<char>) -> int
    decreases l.len(),
{
    if l.len() == 0 {
        0
    } else {
        count_in_list(l.drop_last(), c) + if l.last()@ == c {
            1int
        } else {
            0int
        }
    }
}

/// How many records list the category among their main categories (once per
/// listing).
pub open spec fn count_cat(acts: Seq<ActivityRollup>, c: Seq<char>) -> int
    decreases acts.len(),
{
    if acts.len() == 0 {
        0
    } else {
        count_cat(acts.drop_last(), c) + count_in_list(acts.last().main_categories@, c)
    }
}

proof fn lemma_count_in_list_nonneg(l: Seq<String>, c: Seq<char>)
    ensures
        0 <= count_in_list(l, c) <= l.len(),
    decreases l.len(),
{
    if l.len() > 0 {
        lemma_count_in_list_nonneg(l.drop_last(), c);
    }
}

proof fn lemma_count_cat_bound(acts: Seq<ActivityRollup>, c: Seq<char>)
    requires
        forall|i: int| 0 <= i < acts.len() ==> (#[trigger] acts[i]).wf(),
    ensures
        0 <= count_cat(acts, c) <= acts.len() * 1000,
    decreases acts.len(),
{
    if acts.len() > 0 {
        assert(forall|i: int|
            0 <= i < acts.drop_last().len() ==> (#[trigger] acts.drop_last()[i]).wf());
        lemma_count_cat_bound(acts.drop_last(), c);
        assert(acts.last().wf());
        lemma_count_in_list_nonneg(acts.last().main_categories@, c);
    }
}

proof fn lemma_count_in_list_zero(l: Seq<String>, c: Seq<char>)
    requires
        forall|j: int| 0 <= j < l.len() ==> (#[trigger] l[j])@ != c,
    ensures
        count_in_list(l, c) == 0,
    decreases l.len(),
{
    if l.len() > 0 {
        assert(forall|j: int|
            0 <= j < l.drop_last().len() ==> (#[trigger] l.drop_last()[j])@ != c);
        lemma_count_in_list_zero(l.drop_last(), c);
    }
}

proof fn lemma_count_cat_zero(acts: Seq<ActivityRollup>, c: Seq<char>)
    requires
        forall|i: int, j: int|
            0 <= i < acts.len() && 0 <= j < (#[trigger] acts[i]).main_categories@.len() ==> (
            #[trigger] acts[i].main_categories@[j])@ != c,
    ensures
        count_cat(acts, c) == 0,
    decreases acts.len(),
{
    if acts.len() > 0 {
        assert(forall|i: int, j: int|
            0 <= i < acts.drop_last().len() && 0 <= j < (
            #[trigger] acts.drop_last()[i]).main_categories@.len() ==> (
            #[trigger] acts.drop_last()[i].main_categories@[j])@ != c);
        lemma_count_cat_zero(acts.drop_last(), c);
        assert(forall|j: int|
            0 <= j < acts.last().main_categories@.len() ==> (
            #[trigger] acts.last().main_categories@[j])@ != c) by {
            assert(forall|j: int|
                0 <= j < acts.last().main_categories@.len() ==> acts.last().main_categories@[j]
                    == acts[acts.len() - 1].main_categories@[j]);
        }
        lemma_count_in_list_zero(acts.last().main_categories@, c);
    }
}

fn find_key(counts: &Vec<(String, u64)>, c: &str) -> (r: Option<usize>)
    ensures
        match r {
            Some(k) => k < counts@.len() && counts@[k as int].0@ == c@,
            None => forall|k: int| 0 <= k < counts@.len() ==> (#[trigger] counts@[k]).0@ != c@,
        },
{
    let mut k: usize = 0;
    while k < counts.len()
        invariant
            0 <= k <= counts@.len(),
            forall|j: int| 0 <= j < k ==> (#[trigger] counts@[j]).0@ != c@,
        decreases counts.len() - k,
    {
        if crate::text::str_eq(counts[k].0.as_str(), c) {
            return Some(k);
        }
        k = k + 1;
    }
    None
}

/// Whether some entry of the tally carries this category name.
pub open spec fn has_key(counts: Seq<(String, u64)>, c: Seq<char>) -> bool {
    exists|k: int| 0 <= k < counts.len() && (#[trigger] counts[k]).0@ == c
}

proof fn lemma_has_key_extend(before: Seq<(String, u64)>, after: Seq<(String, u64)>, c: Seq<char>)
    requires
        has_key(before, c),
        before.len() <= after.len(),
        forall|k: int| 0 <= k < before.len() ==> (#[trigger] after[k]).0@ == before[k].0@,
    ensures
        has_key(after, c),
{
    let k0 = choose|k: int| 0 <= k < before.len() && (#[trigger] before[k]).0@ == c;
    assert(after[k0].0@ == c);
}

/// Tallies how often each category name occurs across the records, keyed
/// once per distinct name, in first-seen order.
pub fn count_categories(acts: &Vec<ActivityRollup>) -> (r: Vec<(String, u64)>)
    requires
        rollup_input_ok(acts@),
    ensures
        forall|k: int|
            0 <= k < r@.len() ==> (#[trigger] r@[k]).1 as int == count_cat(acts@, r@[k].0@),
        forall|k: int| 0 <= k < r@.len() ==> (#[trigger] r@[k]).1 >= 1,
        forall|k1: int, k2: int| 0 <= k1 < k2 < r@.len() ==> r@[k1].0@ != r@[k2].0@,
        forall|i: int, j: int|
            #![trigger acts@[i].main_categories@[j]]
            0 <= i < acts@.len() && 0 <= j < acts@[i].main_categories@.len() ==> has_key(
                r@,
                acts@[i].main_categories@[j]@,
            ),
{
    let mut counts: Vec<(String, u64)> = Vec::new();
    let mut i: usize = 0;
    while i < acts.len()
        invariant
            0 <= i <= acts.len(),
            rollup_input_ok(acts@),
            forall|k: int|
                0 <= k < counts@.len() ==> (#[trigger] counts@[k]).1 as int == count_cat(
                    acts@.take(i as int),
                    counts@[k].0@,
                ),
            forall|k: int| 0 <= k < counts@.len() ==> (#[trigger] counts@[k]).1 >= 1,
            forall|k1: int, k2: int|
                0 <= k1 < k2 < counts@.len() ==> counts@[k1].0@ != counts@[k2].0@,
            forall|i2: int, j2: int|
                #![trigger acts@[i2].main_categories@[j2]]
                0 <= i2 < i && 0 <= j2 < acts@[i2].main_categories@.len() ==> has_key(
                    counts@,
                    acts@[i2].main_categories@[j2]@,
                ),
        decreases acts.len() - i,
    {
        let list = &acts[i].main_categories;
        let ghost inner = acts@[i as int].main_categories@;
        let mut j: usize = 0;
        proof {
            assert forall|k: int| 0 <= k < counts@.len() implies (#[trigger] counts@[k]).1 as int
                == count_cat(acts@.take(i as int), counts@[k].0@) + count_in_list(
                inner.take(0),
                counts@[k].0@,
            ) by {
                assert(inner.take(0).len() == 0);
                assert(count_in_list(inner.take(0), counts@[k].0@) == 0);
            }
        }
        while j < list.len()
            invariant
                0 <= j <= list@.len(),
                0 <= i < acts.len(),
                rollup_input_ok(acts@),
                list@ == acts@[i as int].main_categories@,
                inner == list@,
                forall|k: int|
                    0 <= k < counts@.len() ==> (#[trigger] counts@[k]).1 as int == count_cat(
                        acts@.take(i as int),
                        counts@[k].0@,
                    ) + count_in_list(inner.take(j as int), counts@[k].0@),
                forall|k: int| 0 <= k < counts@.len() ==> (#[trigger] counts@[k]).1 >= 1,
                forall|k1: int, k2: int|
                    0 <= k1 < k2 < counts@.len() ==> counts@[k1].0@ != counts@[k2].0@,
                forall|i2: int, j2: int|
                    #![trigger acts@[i2].main_categories@[j2]]
                    0 <= i2 < i && 0 <= j2 < acts@[i2].main_categories@.len() ==> has_key(
                        counts@,
                        acts@[i2].main_categories@[j2]@,
                    ),
                forall|j2: int|
                    #![trigger inner[j2]]
                    0 <= j2 < j ==> has_key(counts@, inner[j2]@),
            decreases list@.len() - j,
        {
            let c: &String = &list[j];
            proof {
                assert(c@ == inner[j as int]@);
                assert(inner.take(j + 1).drop_last() =~= inner.take(j as int));
                assert(inner.take(j + 1).last() == inner[j as int]);
                assert(acts@[i as int].wf());
                assert(inner.len() <= 1000);
                lemma_count_cat_bound(acts@.take(i as int), c@);
                lemma_count_in_list_nonneg(inner.take(j as int), c@);
            }
            match find_key(&counts, c.as_str()) {
                Some(k) => {
                    proof {
                        assert(counts@[k as int].1 as int <= 372 * 1000 + 1000);
                    }
                    let ghost before = counts@;
                    let bumped = counts[k].1 + 1;
                    let name = counts[k].0.clone();
                    counts.set(k, (name, bumped));
                    proof {
                        assert(counts@[k as int].0@ == before[k as int].0@);
                        assert(forall|k2: int|
                            0 <= k2 < counts@.len() && k2 != k ==> counts@[k2] == before[k2]);
                        assert(forall|k2: int|
                            0 <= k2 < before.len() ==> (#[trigger] counts@[k2]).0@
                                == before[k2].0@);
                        assert forall|k2: int| 0 <= k2 < counts@.len() implies (
                        #[trigger] counts@[k2]).1 as int == count_cat(
                            acts@.take(i as int),
                            counts@[k2].0@,
                        ) + count_in_list(inner.take(j + 1), counts@[k2].0@) by {
                            if k2 == k {
                                assert(counts@[k2].0@ == c@);
                                assert(count_in_list(inner.take(j + 1), c@) == count_in_list(
                                    inner.take(j as int),
                                    c@,
                                ) + 1);
                            } else {
                                assert(counts@[k2].0@ != c@);
                                assert(count_in_list(inner.take(j + 1), counts@[k2].0@)
                                    == count_in_list(inner.take(j as int), counts@[k2].0@));
                            }
                        }
                        assert forall|i2: int, j2: int|
                            #![trigger acts@[i2].main_categories@[j2]]
                            0 <= i2 < i && 0 <= j2
                                < acts@[i2].main_categories@.len() implies has_key(
                            counts@,
                            acts@[i2].main_categories@[j2]@,
                        ) by {
                            lemma_has_key_extend(before, counts@, acts@[i2].main_categories@[j2]@);
                        }
                        assert forall|j2: int| #![trigger inner[j2]] 0 <= j2 < j
                            + 1 implies has_key(counts@, inner[j2]@) by {
                            if j2 == j {
                                assert(counts@[k as int].0@ == inner[j2]@);
                            } else {
                                lemma_has_key_extend(before, counts@, inner[j2]@);
                            }
                        }
                    }
                }
                None => {
                    let ghost before = counts@;
                    proof {
                        assert forall|j2: int| #![trigger inner[j2]] 0 <= j2 < j implies inner[j2]@
                            != c@ by {
                            if inner[j2]@ == c@ {
                                assert(has_key(counts@, inner[j2]@));
                                let k0 = choose|k2: int|
                                    0 <= k2 < counts@.len() && (#[trigger] counts@[k2]).0@
                                        == inner[j2]@;
                                assert(false);
                            }
                        }
                        assert forall|j2: int|
                            0 <= j2 < inner.take(j as int).len() implies (#[trigger] inner.take(
                            j as int,
                        )[j2])@ != c@ by {
                            assert(inner.take(j as int)[j2] == inner[j2]);
                        }
                        lemma_count_in_list_zero(inner.take(j as int), c@);
                        assert forall|i2: int, j2: int|
                            #![trigger acts@[i2].main_categories@[j2]]
                            0 <= i2 < i && 0 <= j2
                                < acts@[i2].main_categories@.len() implies acts@[i2].main_categories@[j2]@
                            != c@ by {
                            if acts@[i2].main_categories@[j2]@ == c@ {
                                assert(has_key(counts@, acts@[i2].main_categories@[j2]@));
                                let k0 = choose|k2: int|
                                    0 <= k2 < counts@.len() && (#[trigger] counts@[k2]).0@
                                        == acts@[i2].main_categories@[j2]@;
                                assert(false);
                            }
                        }
                        assert forall|i2: int, j2: int|
                            0 <= i2 < acts@.take(i as int).len() && 0 <= j2 < (#[trigger] acts@.take(
                            i as int,
                        )[i2]).main_categories@.len() implies (#[trigger] acts@.take(
                            i as int,
                        )[i2].main_categories@[j2])@ != c@ by {
                            assert(acts@.take(i as int)[i2] == acts@[i2]);
                            assert(acts@[i2].main_categories@[j2]@ != c@);
                        }
                        lemma_count_cat_zero(acts@.take(i as int), c@);
                    }
                    counts.push((c.clone(), 1));
                    proof {
                        assert(counts@ =~= before.push((*c, 1)));
                        assert(forall|k2: int|
                            0 <= k2 < before.len() ==> (#[trigger] counts@[k2]) == before[k2]);
                        assert(forall|k2: int|
                            0 <= k2 < before.len() ==> (#[trigger] counts@[k2]).0@
                                == before[k2].0@);
                        assert(counts@[counts@.len() - 1].0@ == c@);
                        assert forall|k2: int| 0 <= k2 < counts@.len() implies (
                        #[trigger] counts@[k2]).1 as int == count_cat(
                            acts@.take(i as int),
                            counts@[k2].0@,
                        ) + count_in_list(inner.take(j + 1), counts@[k2].0@) by {
                            if k2 == counts@.len() - 1 {
                                assert(counts@[k2].0@ == c@);
                                assert(count_in_list(inner.take(j + 1), c@) == count_in_list(
                                    inner.take(j as int),
                                    c@,
                                ) + 1);
                                assert(counts@[k2].1 == 1);
                            } else {
                                assert(counts@[k2].0@ != c@);
                                assert(count_in_list(inner.take(j + 1), counts@[k2].0@)
                                    == count_in_list(inner.take(j as int), counts@[k2].0@));
                            }
                        }
                        assert forall|i2: int, j2: int|
                            #![trigger acts@[i2].main_categories@[j2]]
                            0 <= i2 < i && 0 <= j2
                                < acts@[i2].main_categories@.len() implies has_key(
                            counts@,
                            acts@[i2].main_categories@[j2]@,
                        ) by {
                            lemma_has_key_extend(before, counts@, acts@[i2].main_categories@[j2]@);
                        }
                        assert forall|j2: int| #![trigger inner[j2]] 0 <= j2 < j
                            + 1 implies has_key(counts@, inner[j2]@) by {
                            if j2 == j {
                                assert(counts@[counts@.len() - 1].0@ == inner[j2]@);
                            } else {
                                lemma_has_key_extend(before, counts@, inner[j2]@);
                            }
                        }
                    }
                }
            }
            j = j + 1;
        }
        proof {
            assert(inner.take(inner.len() as int) =~= inner);
            assert(acts@.take(i + 1).drop_last() =~= acts@.take(i as int));
            assert(acts@.take(i + 1).last() == acts@[i as int]);
            assert forall|k: int| 0 <= k < counts@.len() implies (#[trigger] counts@[k]).1 as int
                == count_cat(acts@.take(i + 1), counts@[k].0@) by {
                assert(count_cat(acts@.take(i + 1), counts@[k].0@) == count_cat(
                    acts@.take(i as int),
                    counts@[k].0@,
                ) + count_in_list(inner, counts@[k].0@));
            }
            assert forall|i2: int, j2: int|
                #![trigger acts@[i2].main_categories@[j2]]
                0 <= i2 < i + 1 && 0 <= j2 < acts@[i2].main_categories@.len() implies has_key(
                counts@,
                acts@[i2].main_categories@[j2]@,
            ) by {
                if i2 == i {
                    assert(acts@[i2].main_categories@[j2] == inner[j2]);
                    assert(has_key(counts@, inner[j2]@));
                }
            }
        }
        i = i + 1;
    }
    proof {
        assert(acts@.take(acts@.len() as int) =~= acts@);
    }
    counts
}

/// Counts in descending order.
pub open spec fn sorted_by_count_desc(s: Seq<(String, u64)>) -> bool {
    forall|i: int, j: int| 0 <= i < j < s.len() ==> (#[trigger] s[i]).1 >= (#[trigger] s[j]).1
}

/// No two entries of the tally share a name.
pub open spec fn distinct_keys(s: Seq<(String, u64)>) -> bool {
    forall|k1: int, k2: int|
        0 <= k1 < k2 < s.len() ==> (#[trigger] s[k1]).0@ != (#[trigger] s[k2]).0@
}

/// Where a name sits in the tally, front to back; -1 when it is absent.
pub open spec fn key_index(s: Seq<(String, u64)>, name: Seq<char>) -> int
    decreases s.len(),
{
    if s.len() == 0 {
        -1
    } else if s[0].0@ == name {
        0
    } else {
        let rest = key_index(s.drop_first(), name);
        if rest < 0 {
            -1
        } else {
            1 + rest
        }
    }
}

proof fn lemma_key_index_of_position(s: Seq<(String, u64)>, i: int)
    requires
        distinct_keys(s),
        0 <= i < s.len(),
    ensures
        key_index(s, s[i].0@) == i,
    decreases s.len(),
{
    if i > 0 {
        assert(s[0].0@ != s[i].0@);
        assert(distinct_keys(s.drop_first())) by {
            assert(forall|k1: int, k2: int|
                0 <= k1 < k2 < s.drop_first().len() ==> (#[trigger] s.drop_first()[k1]).0@ != (
                #[trigger] s.drop_first()[k2]).0@) by {
                assert(forall|k: int|
                    0 <= k < s.drop_first().len() ==> #[trigger] s.drop_first()[k] == s[k + 1]);
            }
        }
        lemma_key_index_of_position(s.drop_first(), i - 1);
        assert(s.drop_first()[i - 1] == s[i]);
    }
}

/// Sorts the tally descending by count. Ties keep their first-seen order:
/// each round takes the first entry that no later entry beats strictly, so
/// entries with equal counts come out in the order they went in.
pub fn rank_categories(v: Vec<(String, u64)>) -> (r: Vec<(String, u64)>)
    requires
        distinct_keys(v@),
    ensures
        sorted_by_count_desc(r@),
        r@.to_multiset() == v@.to_multiset(),
        r@.len() == v@.len(),
        forall|k1: int, k2: int|
            0 <= k1 < k2 < r@.len() && (#[trigger] r@[k1]).1 == (#[trigger] r@[k2]).1
                ==> key_index(v@, r@[k1].0@) < key_index(v@, r@[k2].0@),
{
    let ghost orig = v@;
    let mut work = v;
    let mut out: Vec<(String, u64)> = Vec::new();
    proof {
        assert forall|w1: int, w2: int|
            0 <= w1 < w2 < work@.len() implies key_index(orig, (#[trigger] work@[w1]).0@)
            < key_index(orig, (#[trigger] work@[w2]).0@) by {
            lemma_key_index_of_position(orig, w1);
            lemma_key_index_of_position(orig, w2);
        }
    }
    while work.len() > 0
        invariant
            out@.to_multiset().add(work@.to_multiset()) =~= orig.to_multiset(),
            out@.len() + work@.len() == orig.len(),
            sorted_by_count_desc(out@),
            forall|oi: int, wi: int|
                0 <= oi < out@.len() && 0 <= wi < work@.len() ==> (#[trigger] out@[oi]).1 >= (
                #[trigger] work@[wi]).1,
            forall|w1: int, w2: int|
                0 <= w1 < w2 < work@.len() ==> key_index(orig, (#[trigger] work@[w1]).0@)
                    < key_index(orig, (#[trigger] work@[w2]).0@),
            forall|oi: int, wi: int|
                0 <= oi < out@.len() && 0 <= wi < work@.len() && (#[trigger] out@[oi]).1 == (
                #[trigger] work@[wi]).1 ==> key_index(orig, out@[oi].0@) < key_index(
                    orig,
                    work@[wi].0@,
                ),
            forall|o1: int, o2: int|
                0 <= o1 < o2 < out@.len() && (#[trigger] out@[o1]).1 == (#[trigger] out@[o2]).1
                    ==> key_index(orig, out@[o1].0@) < key_index(orig, out@[o2].0@),
        decreases work.len(),
    {
        let mut max_idx: usize = 0;
        let mut k: usize = 1;
        while k < work.len()
            invariant
                0 <= max_idx < k <= work.len(),
                forall|j: int|
                    0 <= j < k ==> (#[trigger] work@[j]).1 <= work@[max_idx as int].1,
                forall|j: int|
                    0 <= j < max_idx ==> (#[trigger] work@[j]).1 < work@[max_idx as int].1,
            decreases work.len() - k,
        {
            if work[k].1 > work[max_idx].1 {
                max_idx = k;
            }
            k = k + 1;
        }
        let ghost work_before = work@;
        let picked = work.remove(max_idx);
        proof {
            assert(work_before.contains(picked)) by {
                assert(work_before[max_idx as int] == picked);
            }
            work_before.remove_ensures(max_idx as int);
            assert(forall|wi: int|
                0 <= wi < work@.len() ==> (#[trigger] work@[wi]).1 <= picked.1);
            // entries of the remainder map to their old positions
            assert(forall|wi: int|
                0 <= wi < work@.len() ==> #[trigger] work@[wi] == if wi < max_idx {
                    work_before[wi]
                } else {
                    work_before[wi + 1]
                });
            // ties left in the queue sat after the picked entry, so their
            // names are later in the input
            assert forall|wi: int|
                0 <= wi < work@.len() && (#[trigger] work@[wi]).1 == picked.1 implies key_index(
                orig,
                picked.0@,
            ) < key_index(orig, work@[wi].0@) by {
                if wi < max_idx {
                    assert(work_before[wi].1 < picked.1);
                } else {
                    assert(work@[wi] == work_before[wi + 1]);
                }
            }
            assert forall|w1: int, w2: int|
                0 <= w1 < w2 < work@.len() implies key_index(orig, (#[trigger] work@[w1]).0@)
                < key_index(orig, (#[trigger] work@[w2]).0@) by {
                let b1 = if w1 < max_idx { w1 } else { w1 + 1 };
                let b2 = if w2 < max_idx { w2 } else { w2 + 1 };
                assert(work@[w1] == work_before[b1]);
                assert(work@[w2] == work_before[b2]);
            }
        }
        let ghost out_before = out@;
        out.push(picked);
        proof {
            assert(out@ == out_before.push(picked));
            assert(out@.to_multiset().add(work@.to_multiset()) =~= orig.to_multiset());
            assert(sorted_by_count_desc(out@));
            assert forall|o1: int, o2: int|
                0 <= o1 < o2 < out@.len() && (#[trigger] out@[o1]).1 == (
                #[trigger] out@[o2]).1 implies key_index(orig, out@[o1].0@) < key_index(
                orig,
                out@[o2].0@,
            ) by {
                if o2 == out@.len() - 1 {
                    assert(out@[o1] == out_before[o1]);
                    assert(out_before[o1].1 == work_before[max_idx as int].1);
                }
            }
        }
    }
    proof {
        assert(work@.to_multiset().len() == 0);
        assert(out@.to_multiset() =~= orig.to_multiset());
    }
    out
}


/// Everything the ranked tally promises: descending counts, each entry's
/// count correct for the records, distinct names, and a name for every
/// listed category. The order among equal counts is first-seen.
pub open spec fn ranking_ok(ranked: Seq<(String, u64)>, acts: Seq<ActivityRollup>) -> bool {
    &&& sorted_by_count_desc(ranked)
    &&& forall|k: int|
        0 <= k < ranked.len() ==> (#[trigger] ranked[k]).1 as int == count_cat(
            acts,
            ranked[k].0@,
        )
    &&& forall|k: int| 0 <= k < ranked.len() ==> (#[trigger] ranked[k]).1 >= 1
    &&& forall|k1: int, k2: int| 0 <= k1 < k2 < ranked.len() ==> ranked[k1].0@ != ranked[k2].0@
    &&& forall|i: int, j: int|
        #![trigger acts[i].main_categories@[j]]
        0 <= i < acts.len() && 0 <= j < acts[i].main_categories@.len() ==> has_key(
            ranked,
            acts[i].main_categories@[j]@,
        )
}

proof fn lemma_rank_preserves(counts: Seq<(String, u64)>, ranked: Seq<(String, u64)>, acts: Seq<
    ActivityRollup,
>)
    requires
        ranked.to_multiset() == counts.to_multiset(),
        ranked.len() == counts.len(),
        sorted_by_count_desc(ranked),
        forall|k: int|
            0 <= k < counts.len() ==> (#[trigger] counts[k]).1 as int == count_cat(
                acts,
                counts[k].0@,
            ),
        forall|k: int| 0 <= k < counts.len() ==> (#[trigger] counts[k]).1 >= 1,
        forall|k1: int, k2: int| 0 <= k1 < k2 < counts.len() ==> counts[k1].0@ != counts[k2].0@,
        forall|i: int, j: int|
            #![trigger acts[i].main_categories@[j]]
            0 <= i < acts.len() && 0 <= j < acts[i].main_categories@.len() ==> has_key(
                counts,
                acts[i].main_categories@[j]@,
            ),
    ensures
        ranking_ok(ranked, acts),
{
    assert forall|k: int| 0 <= k < ranked.len() implies {
        &&& (#[trigger] ranked[k]).1 as int == count_cat(acts, ranked[k].0@)
        &&& ranked[k].1 >= 1
    } by {
        assert(ranked.contains(ranked[k]));
        assert(ranked.to_multiset().count(ranked[k]) > 0);
        assert(counts.to_multiset().count(ranked[k]) > 0);
        assert(counts.contains(ranked[k]));
        let k0 = choose|k0: int| 0 <= k0 < counts.len() && counts[k0] == ranked[k];
        assert(counts[k0].1 as int == count_cat(acts, counts[k0].0@));
    }
    assert forall|k1: int, k2: int| 0 <= k1 < k2 < ranked.len() implies ranked[k1].0@
        != ranked[k2].0@ by {
        if ranked[k1].0@ == ranked[k2].0@ {
            assert(ranked.contains(ranked[k1]));
            assert(counts.to_multiset().count(ranked[k1]) > 0);
            assert(counts.contains(ranked[k1]));
            assert(counts.to_multiset().count(ranked[k2]) > 0);
            assert(counts.contains(ranked[k2]));
            let a1 = choose|a: int| 0 <= a < counts.len() && counts[a] == ranked[k1];
            let a2 = choose|a: int| 0 <= a < counts.len() && counts[a] == ranked[k2];
            if ranked[k1] == ranked[k2] {
                // the same pair twice: its multiplicity in `ranked` is at
                // least two, so `counts` repeats it too, against distinctness
                let sub = ranked.remove(k2);
                assert(sub.to_multiset() =~= ranked.to_multiset().remove(ranked[k2]));
                assert(sub[k1] == ranked[k1]);
                assert(sub.contains(ranked[k1]));
                assert(sub.to_multiset().count(ranked[k1]) > 0);
                assert(ranked.to_multiset().count(ranked[k1]) >= 2);
                assert(counts.to_multiset().count(ranked[k1]) >= 2);
                let c1 = counts.to_multiset();
                let subc = counts.remove(a1);
                assert(subc.to_multiset() =~= c1.remove(counts[a1]));
                assert(subc.to_multiset().count(ranked[k1]) > 0);
                assert(subc.contains(ranked[k1]));
                let b = choose|b: int| 0 <= b < subc.len() && subc[b] == ranked[k1];
                counts.remove_ensures(a1);
                if b < a1 {
                    assert(counts[b] == subc[b]);
                    assert(counts[b].0@ == counts[a1].0@);
                } else {
                    assert(counts[b + 1] == subc[b]);
                    assert(counts[b + 1].0@ == counts[a1].0@);
                }
                assert(false);
            } else {
                assert(a1 != a2);
                assert(counts[a1].0@ == counts[a2].0@);
                assert(false);
            }
        }
    }
    assert forall|i: int, j: int|
        #![trigger acts[i].main_categories@[j]]
        0 <= i < acts.len() && 0 <= j < acts[i].main_categories@.len() implies has_key(
        ranked,
        acts[i].main_categories@[j]@,
    ) by {
        let c = acts[i].main_categories@[j]@;
        let k0 = choose|k: int| 0 <= k < counts.len() && (#[trigger] counts[k]).0@ == c;
        assert(counts.contains(counts[k0]));
        assert(counts.to_multiset().count(counts[k0]) > 0);
        assert(ranked.to_multiset().count(counts[k0]) > 0);
        assert(ranked.contains(counts[k0]));
        let k1 = choose|k: int| 0 <= k < ranked.len() && ranked[k] == counts[k0];
        assert(ranked[k1].0@ == c);
    }
}

/// Counts, ranks and keeps the promises of `ranking_ok` for the records.
pub fn ranked_categories(acts: &Vec<ActivityRollup>) -> (r: Vec<(String, u64)>)
    requires
        rollup_input_ok(acts@),
    ensures
        ranking_ok(r@, acts@),
{
    let counts = count_categories(acts);
    let ghost counts_view = counts@;
    let ranked = rank_categories(counts);
    proof {
        lemma_rank_preserves(counts_view, ranked@, acts@);
    }
    ranked
}

/// One ranked entry as display text: `name(count)`.
pub open spec fn cat_entry_text(p: (String, u64)) -> Seq<char> {
    p.0@ + "("@ + dec_nat(p.1 as nat) + ")"@
}

/// The ranked entries joined with commas.
pub open spec fn cats_join_text(rs: Seq<(String, u64)>) -> Seq<char>
    decreases rs.len(),
{
    if rs.len() == 0 {
        Seq::empty()
    } else if rs.len() == 1 {
        cat_entry_text(rs[0])
    } else {
        cats_join_text(rs.drop_last()) + ", "@ + cat_entry_text(rs.last())
    }
}

/// The display string of the top five ranked categories, or a marker when
/// nothing was tracked.
pub open spec fn top_categories_text(ranked: Seq<(String, u64)>) -> Seq<char> {
    if ranked.len() == 0 {
        "none"@
    } else if ranked.len() <= 5 {
        cats_join_text(ranked)
    } else {
        cats_join_text(ranked.take(5))
    }
}

/// Joins the top five ranked categories into a display string.
pub fn top_categories(ranked: &Vec<(String, u64)>) -> (r: String)
    ensures
        r@ == top_categories_text(ranked@),
{
    if ranked.len() == 0 {
        return String::from_str("none");
    }
    let n = if ranked.len() <= 5 {
        ranked.len()
    } else {
        5
    };
    let ghost shown = if ranked@.len() <= 5 {
        ranked@
    } else {
        ranked@.take(5)
    };
    proof {
        assert(shown =~= ranked@.take(n as int));
        assert(shown.take(0).len() == 0);
    }
    let mut s = String::new();
    let mut i: usize = 0;
    while i < n
        invariant
            0 <= i <= n <= ranked.len(),
            shown =~= ranked@.take(n as int),
            s@ == cats_join_text(shown.take(i as int)),
        decreases n - i,
    {
        proof {
            assert(shown.take(i + 1).drop_last() =~= shown.take(i as int));
            assert(shown.take(i + 1).last() == shown[i as int]);
            assert(shown[i as int] == ranked@[i as int]);
        }
        if i > 0 {
            s.append(", ");
        }
        s.append(ranked[i].0.as_str());
        s.append("(");
        let count_text = u64_to_string(ranked[i].1);
        s.append(count_text.as_str());
        s.append(")");
        proof {
            assert(s@ =~= cats_join_text(shown.take(i + 1)));
        }
        i = i + 1;
    }
    proof {
        assert(shown.take(shown.len() as int) =~= shown);
        assert(s@ == top_categories_text(ranked@));
    }
    s
}

/// The category cell of a day row: the day's main categories joined, or a
/// dash when it has none.
pub open spec fn cats_list_text(l: Seq<String>) -> Seq<char> {
    if l.len() == 0 {
        "-"@
    } else {
        join_views(string_views(l), ", "@)
    }
}

/// One day's row of the breakdown table.
pub open spec fn activity_row_text(a: ActivityRollup) -> Seq<char> {
    "| [[Daily/"@ + date_text(a.date.year as int, a.date.month as int, a.date.day as int)
        + "]] | "@ + dec_int(a.session_count as int) + " | "@ + dec_int(
        a.total_duration_minutes as int,
    ) + " | "@ + cats_list_text(a.main_categories@) + " |"@
}

/// The whole breakdown table: header, separator, then one row per record,
/// or a placeholder row when there are none.
pub open spec fn day_table_views(acts: Seq<ActivityRollup>) -> Seq<Seq<char>> {
    let header = seq![
        "| Date | Sessions | Minutes | Top Categories |"@,
        "| --- | --- | --- | --- |"@,
    ];
    if acts.len() == 0 {
        header + seq!["| - | 0 | 0 | - |"@]
    } else {
        header + acts.map(|i: int, a: ActivityRollup| activity_row_text(a))
    }
}

/// Builds the day-level breakdown table of a rollup document.
pub fn build_day_table(acts: &Vec<ActivityRollup>) -> (r: Vec<String>)
    requires
        rollup_input_ok(acts@),
    ensures
        string_views(r@) == day_table_views(acts@),
{
    let mut lines: Vec<String> = Vec::new();
    lines.push(String::from_str("| Date | Sessions | Minutes | Top Categories |"));
    lines.push(String::from_str("| --- | --- | --- | --- |"));
    if acts.len() == 0 {
        lines.push(String::from_str("| - | 0 | 0 | - |"));
        proof {
            assert(string_views(lines@) =~= day_table_views(acts@));
        }
        return lines;
    }
    let mut i: usize = 0;
    while i < acts.len()
        invariant
            0 <= i <= acts.len(),
            rollup_input_ok(acts@),
            lines@.len() == 2 + i,
            lines@[0]@ == "| Date | Sessions | Minutes | Top Categories |"@,
            lines@[1]@ == "| --- | --- | --- | --- |"@,
            forall|k: int|
                0 <= k < i ==> (#[trigger] lines@[2 + k])@ == activity_row_text(acts@[k]),
        decreases acts.len() - i,
    {
        proof {
            assert(acts@[i as int].wf());
        }
        let a = &acts[i];
        let mut row = String::from_str("| [[Daily/");
        let date_str = format_date(&a.date);
        row.append(date_str.as_str());
        row.append("]] | ");
        let sessions_text = i64_to_string(a.session_count);
        row.append(sessions_text.as_str());
        row.append(" | ");
        let minutes_text = i64_to_string(a.total_duration_minutes);
        row.append(minutes_text.as_str());
        row.append(" | ");
        if a.main_categories.len() == 0 {
            row.append("-");
        } else {
            let joined = join_strings(&a.main_categories, ", ");
            row.append(joined.as_str());
        }
        row.append(" |");
        proof {
            assert(row@ =~= activity_row_text(acts@[i as int]));
        }
        lines.push(row);
        i = i + 1;
    }
    proof {
        let dtv = day_table_views(acts@);
        assert(dtv.len() == 2 + acts@.len());
        assert forall|t: int| 0 <= t < lines@.len() implies string_views(lines@)[t] == dtv[t] by {
            if t >= 2 {
                let k = t - 2;
                assert(lines@[2 + k]@ == activity_row_text(acts@[k]));
                assert(dtv[t] == acts@.map(|i: int, a: ActivityRollup| activity_row_text(a))[t
                    - 2]);
            }
        }
        assert(string_views(lines@) =~= dtv);
    }
    lines
}


/// The month index document for the given label, totals, category display
/// string and joined day table.
pub open spec fn month_index_text(
    label: Seq<char>,
    sessions: int,
    minutes: int,
    avg: int,
    top: Seq<char>,
    table: Seq<char>,
) -> Seq<char> {
    "---\ntype: screen-analyzer-index\nmonth: "@ + label + "\ntotal_sessions: "@ + dec_int(
        sessions,
    ) + "\ntotal_minutes: "@ + dec_int(minutes) + "\navg_session_minutes: "@ + dec_int(avg)
        + "\nsource: screen-analyzer\n---\n\n# "@ + label + " Monthly Index\n\n## Overview\n- Total sessions: "@
        + dec_int(sessions) + "\n- Total minutes: "@ + dec_int(minutes)
        + "\n- Average session minutes: "@ + dec_int(avg) + "\n- Top categories: "@ + top
        + "\n\n## Daily Breakdown\n"@ + table + "\n"@
}

/// Builds the month index: its vault-relative path and its full document,
/// from the month's per-day records in calendar order.
pub fn build_month_index(date: &DateYmd, activities: &Vec<ActivityRollup>) -> (r: (String, String))
    requires
        date.wf(),
        rollup_input_ok(activities@),
        sorted_by_date(activities@),
    ensures
        r.0@ == "Index/sessions-"@ + month_label_text(date.year as int, date.month as int)
            + ".md"@,
        exists|ranked: Seq<(String, u64)>|
            #[trigger] ranking_ok(ranked, activities@) && r.1@ == month_index_text(
                month_label_text(date.year as int, date.month as int),
                sum_sessions(activities@),
                sum_minutes(activities@),
                avg_spec(sum_minutes(activities@), sum_sessions(activities@)),
                top_categories_text(ranked),
                join_views(day_table_views(activities@), "\n"@),
            ),
{
    let label = month_label(date);
    let mut path = String::from_str("Index/sessions-");
    path.append(label.as_str());
    path.append(".md");
    proof {
        assert(path@ =~= "Index/sessions-"@ + month_label_text(
            date.year as int,
            date.month as int,
        ) + ".md"@);
    }
    let (total_sessions, total_minutes) = sum_activity_totals(activities);
    let avg = avg_session_minutes(total_minutes, total_sessions);
    let ranked = ranked_categories(activities);
    let top = top_categories(&ranked);
    let table_lines = build_day_table(activities);
    let table = join_strings(&table_lines, "\n");
    let mut content = String::from_str("---\ntype: screen-analyzer-index\nmonth: ");
    content.append(label.as_str());
    content.append("\ntotal_sessions: ");
    let t1 = i64_to_string(total_sessions);
    content.append(t1.as_str());
    content.append("\ntotal_minutes: ");
    let t2 = i64_to_string(total_minutes);
    content.append(t2.as_str());
    content.append("\navg_session_minutes: ");
    let t3 = i64_to_string(avg);
    content.append(t3.as_str());
    content.append("\nsource: screen-analyzer\n---\n\n# ");
    content.append(label.as_str());
    content.append(" Monthly Index\n\n## Overview\n- Total sessions: ");
    content.append(t1.as_str());
    content.append("\n- Total minutes: ");
    content.append(t2.as_str());
    content.append("\n- Average session minutes: ");
    content.append(t3.as_str());
    content.append("\n- Top categories: ");
    content.append(top.as_str());
    content.append("\n\n## Daily Breakdown\n");
    content.append(table.as_str());
    content.append("\n");
    proof {
        assert(content@ =~= month_index_text(
            month_label_text(date.year as int, date.month as int),
            sum_sessions(activities@),
            sum_minutes(activities@),
            avg_spec(sum_minutes(activities@), sum_sessions(activities@)),
            top_categories_text(ranked@),
            join_views(day_table_views(activities@), "\n"@),
        ));
        assert(ranking_ok(ranked@, activities@));
    }
    (path, content)
}

/// One highlight line of the weekly report: a link to the day's note and
/// its compacted summary, or a marker when the day has none.
pub open spec fn highlight_text(d: DateYmd, summary: Option<String>) -> Seq<char> {
    "- [[Daily/"@ + date_text(d.year as int, d.month as int, d.day as int) + "]]: "@ + match summary {
        Some(s) => compact_spec(s@, 140),
        None => "No summary yet"@,
    }
}

/// The `YYYY-Www` label of an ISO week.
pub open spec fn week_label_text(wy: int, wn: int) -> Seq<char> {
    year4_spec(wy) + "-W"@ + pad2_spec(wn)
}

/// Everything one week's documents are rendered from; built fresh per
/// export, never persisted.
pub struct WeekSummaryData {
    pub week_label: String,
    pub week_start: String,
    pub week_end: String,
    pub total_sessions: i64,
    pub total_minutes: i64,
    pub avg_session_minutes: i64,
    pub top_categories: String,
    pub table_lines: Vec<String>,
    pub focus_metrics: WeekFocusMetrics,
    pub score_config: WeekScoreConfig,
    pub daily_highlights: Vec<String>,
}

impl WeekSummaryData {
    pub open spec fn wf(self) -> bool {
        &&& self.focus_metrics.wf()
        &&& self.score_config.wf()
        &&& 0 <= self.total_sessions
        &&& 0 <= self.total_minutes
        &&& 0 <= self.avg_session_minutes
    }
}

/// The scoring configuration derived from the export settings: the focus
/// weight clamped to at most 100, the effort weight as its complement, and
/// the target floored at one minute.
pub fn score_config_from(focus_weight_raw: i64, target_raw: i64) -> (r: WeekScoreConfig)
    requires
        0 <= focus_weight_raw,
    ensures
        r.focus_weight == if focus_weight_raw <= 100 {
            focus_weight_raw
        } else {
            100
        },
        r.effort_weight == 100 - r.focus_weight,
        r.target_minutes == if target_raw >= 1 {
            target_raw
        } else {
            1
        },
        r.wf(),
{
    let fw: i64 = if focus_weight_raw <= 100 {
        focus_weight_raw
    } else {
        100
    };
    let target: i64 = if target_raw >= 1 {
        target_raw
    } else {
        1
    };
    WeekScoreConfig { focus_weight: fw, effort_weight: 100 - fw, target_minutes: target }
}

/// Assembles one week's summary from its bounds, its per-day records in
/// calendar order, the accumulated focus metrics, the scoring settings and
/// the seven fetched day summaries (Monday first).
pub fn build_week_summary(
    week: &WeekBounds,
    activities: &Vec<ActivityRollup>,
    focus_metrics: WeekFocusMetrics,
    score_config: WeekScoreConfig,
    day_summaries: &Vec<Option<String>>,
) -> (r: WeekSummaryData)
    requires
        week.wf(),
        rollup_input_ok(activities@),
        sorted_by_date(activities@),
        focus_metrics.wf(),
        score_config.wf(),
        day_summaries@.len() == 7,
    ensures
        r.wf(),
        r.week_label@ == week_label_text(week.week_year as int, week.week_number as int),
        r.week_start@ == date_text(
            week.start.year as int,
            week.start.month as int,
            week.start.day as int,
        ),
        r.week_end@ == date_text(
            week.end.year as int,
            week.end.month as int,
            week.end.day as int,
        ),
        r.total_sessions as int == sum_sessions(activities@),
        r.total_minutes as int == sum_minutes(activities@),
        r.avg_session_minutes as int == avg_spec(
            sum_minutes(activities@),
            sum_sessions(activities@),
        ),
        exists|ranked: Seq<(String, u64)>|
            #[trigger] ranking_ok(ranked, activities@) && r.top_categories@
                == top_categories_text(ranked),
        string_views(r.table_lines@) == day_table_views(activities@),
        r.focus_metrics == focus_metrics,
        r.score_config == score_config,
        r.daily_highlights@.len() == 7,
        forall|i: int|
            0 <= i < 7 ==> (#[trigger] r.daily_highlights@[i])@ == highlight_text(
                plus_days(week.start, i as nat),
                day_summaries@[i],
            ),
{
    let mut week_label = year4(week.week_year);
    week_label.append("-W");
    let wn_text = u64_pad2(week.week_number);
    week_label.append(wn_text.as_str());
    let week_start = format_date(&week.start);
    let week_end = format_date(&week.end);
    let (total_sessions, total_minutes) = sum_activity_totals(activities);
    let avg = avg_session_minutes(total_minutes, total_sessions);
    let ranked = ranked_categories(activities);
    let top = top_categories(&ranked);
    let table_lines = build_day_table(activities);
    let mut daily_highlights: Vec<String> = Vec::new();
    let mut cur = week.start;
    let mut i: usize = 0;
    while i < 7
        invariant
            0 <= i <= 7,
            week.wf(),
            day_summaries@.len() == 7,
            i < 7 ==> cur == plus_days(week.start, i as nat),
            cur.wf(),
            daily_highlights@.len() == i,
            forall|k: int|
                0 <= k < i ==> (#[trigger] daily_highlights@[k])@ == highlight_text(
                    plus_days(week.start, k as nat),
                    day_summaries@[k],
                ),
        decreases 7 - i,
    {
        let mut line = String::from_str("- [[Daily/");
        let date_str = format_date(&cur);
        line.append(date_str.as_str());
        line.append("]]: ");
        match &day_summaries[i] {
            Some(text) => {
                let compacted = compact_summary_text(text.as_str(), 140);
                line.append(compacted.as_str());
            }
            None => {
                line.append("No summary yet");
            }
        }
        proof {
            assert(line@ =~= highlight_text(
                plus_days(week.start, i as nat),
                day_summaries@[i as int],
            ));
        }
        daily_highlights.push(line);
        if i < 6 {
            proof {
                assert(plus_days(week.start, i as nat).wf());
                assert(has_next_day(plus_days(week.start, i as nat)));
            }
            cur = next_day(&cur);
            proof {
                assert(cur == plus_days(week.start, (i + 1) as nat));
            }
        }
        i = i + 1;
    }
    proof {
        assert(week_label@ =~= week_label_text(week.week_year as int, week.week_number as int));
        assert(ranking_ok(ranked@, activities@));
    }
    WeekSummaryData {
        week_label,
        week_start,
        week_end,
        total_sessions,
        total_minutes,
        avg_session_minutes: avg,
        top_categories: top,
        table_lines,
        focus_metrics,
        score_config,
        daily_highlights,
    }
}


/// The advisory lines of a weekly report, decided by fixed thresholds on
/// the focus ratio, the productivity score, the total minutes and the
/// average session length.
pub open spec fn insights_views(fr: int, ps: int, total: int, avg: int) -> Seq<Seq<char>> {
    let focus_part = if fr >= 70 {
        seq!["High focus this week; keep the current rhythm"@]
    } else if fr <= 40 {
        seq!["Low focus this week; consider reducing high-distraction activities"@]
    } else {
        seq!["Moderate focus this week; task switching could be optimized"@]
    };
    let prod_part = if ps >= 70 {
        seq!["High productivity score; effort and focus are well balanced"@]
    } else if ps <= 40 {
        seq!["Low productivity score; watch total effort and focus share"@]
    } else {
        Seq::<Seq<char>>::empty()
    };
    let total_part = if total < 300 {
        seq!["Low total time this week; likely a light-load week"@]
    } else if total >= 1200 {
        seq!["High total time this week; beware of fatigue"@]
    } else {
        Seq::<Seq<char>>::empty()
    };
    let avg_part = if avg < 20 {
        seq!["Short average sessions suggest fragmentation"@]
    } else if avg >= 60 {
        seq!["Long average sessions show deep-work tendency"@]
    } else {
        Seq::<Seq<char>>::empty()
    };
    focus_part + prod_part + total_part + avg_part
}

/// Derives the weekly insight lines from a week summary.
pub fn build_week_insights(summary: &WeekSummaryData) -> (r: Vec<String>)
    requires
        summary.wf(),
    ensures
        string_views(r@) == insights_views(
            ratio_spec(
                focus_minutes_spec(summary.focus_metrics),
                summary.focus_metrics.total_minutes as int,
            ),
            productivity_spec(
                ratio_spec(
                    focus_minutes_spec(summary.focus_metrics),
                    summary.focus_metrics.total_minutes as int,
                ),
                effort_spec(
                    summary.focus_metrics.total_minutes as int,
                    summary.score_config.target_minutes as int,
                ),
                summary.score_config.focus_weight as int,
                summary.score_config.effort_weight as int,
            ),
            summary.total_minutes as int,
            summary.avg_session_minutes as int,
        ),
        r@.len() >= 1,
{
    let fr = summary.focus_metrics.focus_ratio();
    let ps = summary.focus_metrics.productivity_score(
        summary.score_config.focus_weight,
        summary.score_config.effort_weight,
        summary.score_config.target_minutes,
    );
    let mut lines: Vec<String> = Vec::new();
    if fr >= 70 {
        lines.push(String::from_str("High focus this week; keep the current rhythm"));
    } else if fr <= 40 {
        lines.push(
            String::from_str("Low focus this week; consider reducing high-distraction activities"),
        );
    } else {
        lines.push(String::from_str("Moderate focus this week; task switching could be optimized"));
    }
    if ps >= 70 {
        lines.push(String::from_str("High productivity score; effort and focus are well balanced"));
    } else if ps <= 40 {
        lines.push(String::from_str("Low productivity score; watch total effort and focus share"));
    }
    if summary.total_minutes < 300 {
        lines.push(String::from_str("Low total time this week; likely a light-load week"));
    } else if summary.total_minutes >= 1200 {
        lines.push(String::from_str("High total time this week; beware of fatigue"));
    }
    if summary.avg_session_minutes < 20 {
        lines.push(String::from_str("Short average sessions suggest fragmentation"));
    } else if summary.avg_session_minutes >= 60 {
        lines.push(String::from_str("Long average sessions show deep-work tendency"));
    }
    proof {
        assert(string_views(lines@) =~= insights_views(
            ratio_spec(
                focus_minutes_spec(summary.focus_metrics),
                summary.focus_metrics.total_minutes as int,
            ),
            productivity_spec(
                ratio_spec(
                    focus_minutes_spec(summary.focus_metrics),
                    summary.focus_metrics.total_minutes as int,
                ),
                effort_spec(
                    summary.focus_metrics.total_minutes as int,
                    summary.score_config.target_minutes as int,
                ),
                summary.score_config.focus_weight as int,
                summary.score_config.effort_weight as int,
            ),
            summary.total_minutes as int,
            summary.avg_session_minutes as int,
        ));
    }
    lines
}

/// The flat preview of one week's numbers, handed to callers that only
/// display them.
pub struct WeekSummaryPreview {
    pub week_label: String,
    pub week_start: String,
    pub week_end: String,
    pub total_sessions: i64,
    pub total_minutes: i64,
    pub avg_session_minutes: i64,
    pub top_categories: String,
    pub focus_minutes: i64,
    pub distraction_minutes: i64,
    pub focus_ratio: i64,
    pub distraction_ratio: i64,
    pub focus_score: i64,
    pub effort_score: i64,
    pub productivity_score: i64,
    pub focus_weight: i64,
    pub effort_weight: i64,
    pub target_minutes: i64,
}

/// Flattens a week summary into its preview numbers.
pub fn build_week_preview(summary: &WeekSummaryData) -> (r: WeekSummaryPreview)
    requires
        summary.wf(),
    ensures
        r.week_label@ == summary.week_label@,
        r.week_start@ == summary.week_start@,
        r.week_end@ == summary.week_end@,
        r.total_sessions == summary.total_sessions,
        r.total_minutes == summary.total_minutes,
        r.avg_session_minutes == summary.avg_session_minutes,
        r.top_categories@ == summary.top_categories@,
        r.focus_minutes as int == focus_minutes_spec(summary.focus_metrics),
        r.distraction_minutes as int == distraction_minutes_spec(summary.focus_metrics),
        r.focus_ratio as int == ratio_spec(
            focus_minutes_spec(summary.focus_metrics),
            summary.focus_metrics.total_minutes as int,
        ),
        r.distraction_ratio as int == ratio_spec(
            distraction_minutes_spec(summary.focus_metrics),
            summary.focus_metrics.total_minutes as int,
        ),
        r.focus_score == r.focus_ratio,
        r.effort_score as int == effort_spec(
            summary.focus_metrics.total_minutes as int,
            summary.score_config.target_minutes as int,
        ),
        r.productivity_score as int == productivity_spec(
            r.focus_ratio as int,
            r.effort_score as int,
            summary.score_config.focus_weight as int,
            summary.score_config.effort_weight as int,
        ),
        r.focus_weight == summary.score_config.focus_weight,
        r.effort_weight == summary.score_config.effort_weight,
        r.target_minutes == summary.score_config.target_minutes,
{
    WeekSummaryPreview {
        week_label: summary.week_label.clone(),
        week_start: summary.week_start.clone(),
        week_end: summary.week_end.clone(),
        total_sessions: summary.total_sessions,
        total_minutes: summary.total_minutes,
        avg_session_minutes: summary.avg_session_minutes,
        top_categories: summary.top_categories.clone(),
        focus_minutes: summary.focus_metrics.focus_minutes(),
        distraction_minutes: summary.focus_metrics.distraction_minutes(),
        focus_ratio: summary.focus_metrics.focus_ratio(),
        distraction_ratio: summary.focus_metrics.distraction_ratio(),
        focus_score: summary.focus_metrics.focus_score(),
        effort_score: summary.focus_metrics.effort_score(summary.score_config.target_minutes),
        productivity_score: summary.focus_metrics.productivity_score(
            summary.score_config.focus_weight,
            summary.score_config.effort_weight,
            summary.score_config.target_minutes,
        ),
        focus_weight: summary.score_config.focus_weight,
        effort_weight: summary.score_config.effort_weight,
        target_minutes: summary.score_config.target_minutes,
    }
}

} // verus!
