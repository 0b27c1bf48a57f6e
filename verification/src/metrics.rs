//! Per-session fragmentation statistics and per-week focus-time
//! accumulation with its derived ratios and scores.

use vstd::prelude::*;
use vstd::arithmetic::div_mod::{
    lemma_div_is_ordered,
    lemma_div_multiples_vanish,
    lemma_div_pos_is_pos,
    lemma_fundamental_div_mod,
};
use vstd::arithmetic::mul::lemma_mul_inequality;
use vstd::string::StringExecFns;

use crate::category::{classify_spec, lower_of, lowercase, normalize_timeline_category,
    ActivityCategory};
use crate::dates::{card_minutes, card_minutes_of};
use crate::model::TimelineCardRecord;
use crate::text::{dec_int, dec_nat, i64_to_string, str_eq, u64_to_string};

verus! {

/// The largest total a focus accumulator tracks; keeps every derived
/// `value * 100` product inside `i64`.
pub const MAX_TRACKED_MINUTES: i64 = 92_233_720_368_547_758;

/// The case-folded category labels of a card list, in order.
pub open spec fn lowered_categories(cards: Seq<TimelineCardRecord>) -> Seq<Seq<char>> {
    cards.map(|i: int, c: TimelineCardRecord| lower_of(c.category@))
}

/// How many adjacent pairs of the list differ; the first element starts no
/// transition.
pub open spec fn switches_count(cats: Seq<Seq<char>>) -> int
    decreases cats.len(),
{
    if cats.len() <= 1 {
        0
    } else {
        switches_count(cats.drop_last()) + if cats[cats.len() - 1] != cats[cats.len() - 2] {
            1int
        } else {
            0int
        }
    }
}

/// Counts the transitions where a card's case-insensitive category differs
/// from the card before it.
pub fn count_context_switches(cards: &Vec<TimelineCardRecord>) -> (r: usize)
    ensures
        r as int == switches_count(lowered_categories(cards@)),
        r <= cards.len(),
{
    let ghost cs = lowered_categories(cards@);
    let mut switches: usize = 0;
    let mut last: Option<String> = None;
    let mut i: usize = 0;
    proof {
        assert(cs.take(0).len() == 0);
    }
    while i < cards.len()
        invariant
            0 <= i <= cards.len(),
            cs == lowered_categories(cards@),
            cs.len() == cards.len(),
            switches as int == switches_count(cs.take(i as int)),
            switches <= i,
            match last {
                Some(l) => i > 0 && l@ == lower_of(cards@[i - 1].category@),
                None => i == 0,
            },
        decreases cards.len() - i,
    {
        let cat = lowercase(cards[i].category.as_str());
        let is_switch = match &last {
            Some(l) => !str_eq(l.as_str(), cat.as_str()),
            None => false,
        };
        proof {
            let t = cs.take(i + 1);
            assert(t.drop_last() =~= cs.take(i as int));
            assert(t[t.len() - 1] == cs[i as int]);
            if i > 0 {
                assert(t[t.len() - 2] == cs[i - 1]);
            }
        }
        if is_switch {
            switches = switches + 1;
        }
        last = Some(cat);
        i = i + 1;
    }
    proof {
        assert(cs.take(cards@.len() as int) =~= cs);
    }
    switches
}

/// Per-session fragmentation and context-switch statistics.
#[derive(Clone, Debug)]
pub struct SessionMetrics {
    pub timeline_cards: usize,
    pub context_switches: usize,
    pub avg_segment_minutes: i64,
    pub fragmentation_level: String,
}

/// The categorical fragmentation level for a switch count.
pub open spec fn frag_level_text(switches: int) -> Seq<char> {
    if switches <= 1 {
        "low"@
    } else if switches <= 3 {
        "medium"@
    } else {
        "high"@
    }
}

/// Whole minutes per timeline card: the session duration split evenly,
/// truncated; 0 when there are no cards.
pub open spec fn avg_segment_spec(duration: int, cards: int) -> int {
    if cards == 0 {
        0
    } else {
        duration / cards
    }
}

pub fn build_session_metrics(cards: &Vec<TimelineCardRecord>, duration_minutes: i64) -> (r:
    SessionMetrics)
    requires
        duration_minutes >= 0,
    ensures
        r.timeline_cards == cards.len(),
        r.context_switches as int == switches_count(lowered_categories(cards@)),
        r.avg_segment_minutes == avg_segment_spec(duration_minutes as int, cards.len() as int),
        r.fragmentation_level@ == frag_level_text(switches_count(lowered_categories(cards@))),
        r.avg_segment_minutes >= 0,
{
    let timeline_cards = cards.len();
    let context_switches = count_context_switches(cards);
    let avg_segment_minutes: i64 = if timeline_cards == 0 {
        0
    } else {
        ((duration_minutes as u64) / (timeline_cards as u64)) as i64
    };
    let fragmentation_level = if context_switches <= 1 {
        String::from_str("low")
    } else if context_switches <= 3 {
        String::from_str("medium")
    } else {
        String::from_str("high")
    };
    SessionMetrics { timeline_cards, context_switches, avg_segment_minutes, fragmentation_level }
}

/// The rendered metrics block of a session note; an explicit marker stands
/// in when the session has no timeline cards.
pub open spec fn metrics_text(m: SessionMetrics) -> Seq<char> {
    if m.timeline_cards == 0 {
        "No metrics available"@
    } else {
        "- Timeline cards: "@ + dec_nat(m.timeline_cards as nat) + "\n- Context switches: "@
            + dec_nat(m.context_switches as nat) + "\n- Average segment minutes: "@ + dec_int(
            m.avg_segment_minutes as int,
        ) + "\n- Fragmentation level: "@ + m.fragmentation_level@
    }
}

pub fn render_metrics(metrics: &SessionMetrics) -> (r: String)
    ensures
        r@ == metrics_text(*metrics),
{
    if metrics.timeline_cards == 0 {
        return String::from_str("No metrics available");
    }
    let mut s = String::from_str("- Timeline cards: ");
    let cards_text = u64_to_string(metrics.timeline_cards as u64);
    s.append(cards_text.as_str());
    s.append("\n- Context switches: ");
    let sw_text = u64_to_string(metrics.context_switches as u64);
    s.append(sw_text.as_str());
    s.append("\n- Average segment minutes: ");
    let avg_text = i64_to_string(metrics.avg_segment_minutes);
    s.append(avg_text.as_str());
    s.append("\n- Fragmentation level: ");
    s.append(metrics.fragmentation_level.as_str());
    proof {
        assert(s@ =~= metrics_text(*metrics));
    }
    s
}

/// Minute totals of one week, split over the six mutually exclusive
/// buckets; the bucket totals always sum to `total_minutes` exactly.
#[derive(Clone, Debug)]
pub struct WeekFocusMetrics {
    pub total_minutes: i64,
    pub work_minutes: i64,
    pub learning_minutes: i64,
    pub communication_minutes: i64,
    pub personal_minutes: i64,
    pub idle_minutes: i64,
    pub other_minutes: i64,
}

impl WeekFocusMetrics {
    pub open spec fn wf(self) -> bool {
        &&& 0 <= self.work_minutes
        &&& 0 <= self.learning_minutes
        &&& 0 <= self.communication_minutes
        &&& 0 <= self.personal_minutes
        &&& 0 <= self.idle_minutes
        &&& 0 <= self.other_minutes
        &&& self.work_minutes + self.learning_minutes + self.communication_minutes
            + self.personal_minutes + self.idle_minutes + self.other_minutes == self.total_minutes
        &&& self.total_minutes <= MAX_TRACKED_MINUTES
    }
}

impl Default for WeekFocusMetrics {
    /// The empty accumulator: every bucket at zero.
    fn default() -> (r: Self)
        ensures
            r.wf(),
            r.total_minutes == 0,
            r.work_minutes == 0,
            r.learning_minutes == 0,
            r.communication_minutes == 0,
            r.personal_minutes == 0,
            r.idle_minutes == 0,
            r.other_minutes == 0,
    {
        WeekFocusMetrics {
            total_minutes: 0,
            work_minutes: 0,
            learning_minutes: 0,
            communication_minutes: 0,
            personal_minutes: 0,
            idle_minutes: 0,
            other_minutes: 0,
        }
    }
}

/// The accumulator after one card: its whole minutes land in the bucket its
/// category classifies into. A card with no positive span is skipped, as is
/// one that would push the total past the tracked maximum.
pub open spec fn add_card_spec(m: WeekFocusMetrics, card: TimelineCardRecord) -> WeekFocusMetrics {
    let mins = card_minutes_of(card.start_time@, card.end_time@);
    if mins <= 0 || m.total_minutes + mins > MAX_TRACKED_MINUTES {
        m
    } else {
        let m2 = WeekFocusMetrics { total_minutes: (m.total_minutes + mins) as i64, ..m };
        match classify_spec(card.category@) {
            ActivityCategory::Work => WeekFocusMetrics {
                work_minutes: (m.work_minutes + mins) as i64,
                ..m2
            },
            ActivityCategory::Learning => WeekFocusMetrics {
                learning_minutes: (m.learning_minutes + mins) as i64,
                ..m2
            },
            ActivityCategory::Communication => WeekFocusMetrics {
                communication_minutes: (m.communication_minutes + mins) as i64,
                ..m2
            },
            ActivityCategory::Personal => WeekFocusMetrics {
                personal_minutes: (m.personal_minutes + mins) as i64,
                ..m2
            },
            ActivityCategory::Idle => WeekFocusMetrics {
                idle_minutes: (m.idle_minutes + mins) as i64,
                ..m2
            },
            ActivityCategory::Other => WeekFocusMetrics {
                other_minutes: (m.other_minutes + mins) as i64,
                ..m2
            },
        }
    }
}

/// The accumulator after a list of cards, added left to right.
pub open spec fn add_cards_spec(m: WeekFocusMetrics, cards: Seq<TimelineCardRecord>)
    -> WeekFocusMetrics
    decreases cards.len(),
{
    if cards.len() == 0 {
        m
    } else {
        add_cards_spec(add_card_spec(m, cards[0]), cards.drop_first())
    }
}

/// Minutes spent focused: the work and learning buckets.
pub open spec fn focus_minutes_spec(m: WeekFocusMetrics) -> int {
    m.work_minutes + m.learning_minutes
}

/// Minutes spent distracted: the personal, idle and other buckets.
pub open spec fn distraction_minutes_spec(m: WeekFocusMetrics) -> int {
    m.personal_minutes + m.idle_minutes + m.other_minutes
}

/// A bucket's percentage share of the total, floored; 0 when the total is 0.
pub open spec fn ratio_spec(part: int, total: int) -> int {
    if total == 0 {
        0
    } else {
        part * 100 / total
    }
}

/// Effort against a weekly target: 100 when the target is met, the floored
/// percentage below it; 0 when nothing is tracked or the target is not
/// positive.
pub open spec fn effort_spec(total: int, target: int) -> int {
    if total == 0 || target <= 0 {
        0
    } else if total * 100 / target > 100 {
        100
    } else {
        total * 100 / target
    }
}

/// The weighted blend of a focus score and an effort score.
pub open spec fn productivity_spec(focus_score: int, effort_score: int, fw: int, ew: int) -> int {
    let tw = if fw + ew < 1 {
        1
    } else {
        fw + ew
    };
    (focus_score * fw + effort_score * ew) / tw
}

proof fn lemma_ratio_bounds(part: int, total: int)
    requires
        0 <= part <= total,
    ensures
        0 <= ratio_spec(part, total) <= 100,
{
    if total != 0 {
        lemma_div_pos_is_pos(part * 100, total);
        lemma_mul_inequality(part, total, 100);
        lemma_div_is_ordered(part * 100, total * 100, total);
        lemma_div_multiples_vanish(100, total);
    }
}

impl WeekFocusMetrics {
    /// Adds one timeline card to the accumulator.
    pub fn add_card(&mut self, card: &TimelineCardRecord)
        requires
            old(self).wf(),
        ensures
            final(self).wf(),
            *final(self) == add_card_spec(*old(self), *card),
    {
        let mins = card_minutes(card.start_time.as_str(), card.end_time.as_str());
        if mins <= 0 {
            return ;
        }
        if self.total_minutes > MAX_TRACKED_MINUTES - mins {
            return ;
        }
        self.total_minutes = self.total_minutes + mins;
        match normalize_timeline_category(card.category.as_str()) {
            ActivityCategory::Work => {
                self.work_minutes = self.work_minutes + mins;
            }
            ActivityCategory::Learning => {
                self.learning_minutes = self.learning_minutes + mins;
            }
            ActivityCategory::Communication => {
                self.communication_minutes = self.communication_minutes + mins;
            }
            ActivityCategory::Personal => {
                self.personal_minutes = self.personal_minutes + mins;
            }
            ActivityCategory::Idle => {
                self.idle_minutes = self.idle_minutes + mins;
            }
            ActivityCategory::Other => {
                self.other_minutes = self.other_minutes + mins;
            }
        }
    }

    /// Adds every card of the list, left to right.
    pub fn add_cards(&mut self, cards: &Vec<TimelineCardRecord>)
        requires
            old(self).wf(),
        ensures
            final(self).wf(),
            *final(self) == add_cards_spec(*old(self), cards@),
    {
        let ghost m0 = *self;
        let mut i: usize = 0;
        proof {
            assert(cards@.skip(0) =~= cards@);
        }
        while i < cards.len()
            invariant
                0 <= i <= cards.len(),
                self.wf(),
                add_cards_spec(m0, cards@) == add_cards_spec(*self, cards@.skip(i as int)),
            decreases cards.len() - i,
        {
            let ghost before = *self;
            let ghost tail = cards@.skip(i as int);
            self.add_card(&cards[i]);
            proof {
                assert(tail[0] == cards@[i as int]);
                assert(add_cards_spec(before, tail) == add_cards_spec(
                    add_card_spec(before, cards@[i as int]),
                    tail.drop_first(),
                ));
                assert(tail.drop_first() =~= cards@.skip(i + 1));
            }
            i = i + 1;
        }
        proof {
            assert(cards@.skip(cards@.len() as int).len() == 0);
        }
    }

    pub fn focus_minutes(&self) -> (r: i64)
        requires
            self.wf(),
        ensures
            r == focus_minutes_spec(*self),
            0 <= r <= self.total_minutes,
    {
        self.work_minutes + self.learning_minutes
    }

    pub fn distraction_minutes(&self) -> (r: i64)
        requires
            self.wf(),
        ensures
            r == distraction_minutes_spec(*self),
            0 <= r <= self.total_minutes,
    {
        self.personal_minutes + self.idle_minutes + self.other_minutes
    }

    pub fn focus_ratio(&self) -> (r: i64)
        requires
            self.wf(),
        ensures
            r == ratio_spec(focus_minutes_spec(*self), self.total_minutes as int),
            0 <= r <= 100,
    {
        proof {
            lemma_ratio_bounds(focus_minutes_spec(*self), self.total_minutes as int);
        }
        if self.total_minutes == 0 {
            0
        } else {
            let part = self.work_minutes + self.learning_minutes;
            (((part as u64) * 100) / (self.total_minutes as u64)) as i64
        }
    }

    pub fn distraction_ratio(&self) -> (r: i64)
        requires
            self.wf(),
        ensures
            r == ratio_spec(distraction_minutes_spec(*self), self.total_minutes as int),
            0 <= r <= 100,
    {
        proof {
            lemma_ratio_bounds(distraction_minutes_spec(*self), self.total_minutes as int);
        }
        if self.total_minutes == 0 {
            0
        } else {
            let part = self.personal_minutes + self.idle_minutes + self.other_minutes;
            (((part as u64) * 100) / (self.total_minutes as u64)) as i64
        }
    }

    pub fn effort_score(&self, target_minutes: i64) -> (r: i64)
        requires
            self.wf(),
        ensures
            r == effort_spec(self.total_minutes as int, target_minutes as int),
            0 <= r <= 100,
    {
        if self.total_minutes == 0 || target_minutes <= 0 {
            return 0;
        }
        proof {
            lemma_div_pos_is_pos(self.total_minutes * 100, target_minutes as int);
        }
        let score = ((self.total_minutes as u64) * 100) / (target_minutes as u64);
        if score > 100 {
            100
        } else {
            score as i64
        }
    }

    pub fn focus_score(&self) -> (r: i64)
        requires
            self.wf(),
        ensures
            r == ratio_spec(focus_minutes_spec(*self), self.total_minutes as int),
            0 <= r <= 100,
    {
        self.focus_ratio()
    }

    pub fn productivity_score(&self, focus_weight: i64, effort_weight: i64, target_minutes: i64)
        -> (r: i64)
        requires
            self.wf(),
            0 <= focus_weight <= 100,
            0 <= effort_weight <= 100,
        ensures
            r == productivity_spec(
                ratio_spec(focus_minutes_spec(*self), self.total_minutes as int),
                effort_spec(self.total_minutes as int, target_minutes as int),
                focus_weight as int,
                effort_weight as int,
            ),
            0 <= r <= 100,
    {
        let fs = self.focus_score();
        let es = self.effort_score(target_minutes);
        let tw: i64 = if focus_weight + effort_weight < 1 {
            1
        } else {
            focus_weight + effort_weight
        };
        proof {
            lemma_mul_inequality(fs as int, 100, focus_weight as int);
            lemma_mul_inequality(es as int, 100, effort_weight as int);
            lemma_mul_inequality(0, fs as int, focus_weight as int);
            lemma_mul_inequality(0, es as int, effort_weight as int);
            let num = fs * focus_weight + es * effort_weight;
            lemma_div_pos_is_pos(num, tw as int);
            if focus_weight + effort_weight >= 1 {
                assert(num <= 100 * focus_weight + 100 * effort_weight);
                lemma_div_is_ordered(num, tw * 100, tw as int);
                lemma_div_multiples_vanish(100, tw as int);
            } else {
                assert(num == 0);
            }
        }
        let num = fs * focus_weight + es * effort_weight;
        ((num as u64) / (tw as u64)) as i64
    }
}

/// The scoring configuration of one week: complementary percentage weights
/// and a positive minute target.
#[derive(Clone, Copy, Debug, PartialEq, Eq, Structural)]
pub struct WeekScoreConfig {
    pub focus_weight: i64,
    pub effort_weight: i64,
    pub target_minutes: i64,
}

impl WeekScoreConfig {
    pub open spec fn wf(self) -> bool {
        &&& 0 <= self.focus_weight <= 100
        &&& self.effort_weight == 100 - self.focus_weight
        &&& self.target_minutes >= 1
    }
}

/// The six bucket totals partition the week's minutes exactly.
pub proof fn lemma_minutes_partition(m: WeekFocusMetrics)
    requires
        m.wf(),
    ensures
        focus_minutes_spec(m) + distraction_minutes_spec(m) + m.communication_minutes
            == m.total_minutes,
{
}

/// The focus and distraction shares of a tracked week never exceed the
/// whole.
pub proof fn lemma_ratio_sum_bound(m: WeekFocusMetrics)
    requires
        m.wf(),
        m.total_minutes > 0,
    ensures
        ratio_spec(focus_minutes_spec(m), m.total_minutes as int) + ratio_spec(
            distraction_minutes_spec(m),
            m.total_minutes as int,
        ) <= 100,
{
    let f = focus_minutes_spec(m);
    let d = distraction_minutes_spec(m);
    let t = m.total_minutes as int;
    let qf = f * 100 / t;
    let qd = d * 100 / t;
    lemma_fundamental_div_mod(f * 100, t);
    lemma_fundamental_div_mod(d * 100, t);
    let rf = f * 100 % t;
    let rd = d * 100 % t;
    assert(qf + qd <= 100) by (nonlinear_arith)
        requires
            f * 100 == t * qf + rf,
            d * 100 == t * qd + rd,
            0 <= rf < t,
            0 <= rd < t,
            f + d <= t,
            0 <= f,
            0 <= d,
            t > 0,
    ;
}

/// For a fixed target, a week that tracks more minutes never scores lower
/// effort; the score never exceeds 100.
pub proof fn lemma_effort_monotone(t1: int, t2: int, target: int)
    requires
        0 <= t1 <= t2,
    ensures
        effort_spec(t1, target) <= effort_spec(t2, target),
        0 <= effort_spec(t1, target) <= 100,
{
    if target > 0 {
        lemma_mul_inequality(t1, t2, 100);
        lemma_div_is_ordered(t1 * 100, t2 * 100, target);
        if t1 != 0 {
            lemma_div_pos_is_pos(t1 * 100, target);
        }
        if t2 != 0 {
            lemma_div_pos_is_pos(t2 * 100, target);
        }
    }
}

/// The rendered weekly focus block; a week with nothing tracked renders an
/// explicit marker instead of zero-filled scores.
pub open spec fn week_focus_text(m: WeekFocusMetrics, sc: WeekScoreConfig) -> Seq<char> {
    if m.total_minutes == 0 {
        "No focus data available"@
    } else {
        let fr = ratio_spec(focus_minutes_spec(m), m.total_minutes as int);
        let dr = ratio_spec(distraction_minutes_spec(m), m.total_minutes as int);
        let es = effort_spec(m.total_minutes as int, sc.target_minutes as int);
        let ps = productivity_spec(fr, es, sc.focus_weight as int, sc.effort_weight as int);
        "- Focus minutes: "@ + dec_int(focus_minutes_spec(m)) + " ("@ + dec_int(fr)
            + "%)\n- Communication minutes: "@ + dec_int(m.communication_minutes as int)
            + "\n- Distraction minutes: "@ + dec_int(distraction_minutes_spec(m)) + " ("@ + dec_int(
            dr,
        ) + "%)\n- Focus score: "@ + dec_int(fr) + " / 100\n- Effort score: "@ + dec_int(es)
            + " / 100 (target "@ + dec_int(sc.target_minutes as int)
            + " minutes)\n- Productivity score: "@ + dec_int(ps) + " / 100 (weights "@ + dec_int(
            sc.focus_weight as int,
        ) + "% / "@ + dec_int(sc.effort_weight as int) + "%)\n- Breakdown: work "@ + dec_int(
            m.work_minutes as int,
        ) + " / learning "@ + dec_int(m.learning_minutes as int) + " / personal "@ + dec_int(
            m.personal_minutes as int,
        ) + " / idle "@ + dec_int(m.idle_minutes as int) + " / other "@ + dec_int(
            m.other_minutes as int,
        )
    }
}

pub fn render_week_focus_metrics(metrics: &WeekFocusMetrics, score: &WeekScoreConfig) -> (r:
    String)
    requires
        metrics.wf(),
        score.wf(),
    ensures
        r@ == week_focus_text(*metrics, *score),
{
    if metrics.total_minutes == 0 {
        return String::from_str("No focus data available");
    }
    let focus = metrics.focus_minutes();
    let fr = metrics.focus_ratio();
    let dm = metrics.distraction_minutes();
    let dr = metrics.distraction_ratio();
    let es = metrics.effort_score(score.target_minutes);
    let ps = metrics.productivity_score(
        score.focus_weight,
        score.effort_weight,
        score.target_minutes,
    );
    let mut s = String::from_str("- Focus minutes: ");
    let t1 = i64_to_string(focus);
    s.append(t1.as_str());
    s.append(" (");
    let t2 = i64_to_string(fr);
    s.append(t2.as_str());
    s.append("%)\n- Communication minutes: ");
    let t3 = i64_to_string(metrics.communication_minutes);
    s.append(t3.as_str());
    s.append("\n- Distraction minutes: ");
    let t4 = i64_to_string(dm);
    s.append(t4.as_str());
    s.append(" (");
    let t5 = i64_to_string(dr);
    s.append(t5.as_str());
    s.append("%)\n- Focus score: ");
    let t6 = i64_to_string(fr);
    s.append(t6.as_str());
    s.append(" / 100\n- Effort score: ");
    let t7 = i64_to_string(es);
    s.append(t7.as_str());
    s.append(" / 100 (target ");
    let t8 = i64_to_string(score.target_minutes);
    s.append(t8.as_str());
    s.append(" minutes)\n- Productivity score: ");
    let t9 = i64_to_string(ps);
    s.append(t9.as_str());
    s.append(" / 100 (weights ");
    let t10 = i64_to_string(score.focus_weight);
    s.append(t10.as_str());
    s.append("% / ");
    let t11 = i64_to_string(score.effort_weight);
    s.append(t11.as_str());
    s.append("%)\n- Breakdown: work ");
    let t12 = i64_to_string(metrics.work_minutes);
    s.append(t12.as_str());
    s.append(" / learning ");
    let t13 = i64_to_string(metrics.learning_minutes);
    s.append(t13.as_str());
    s.append(" / personal ");
    let t14 = i64_to_string(metrics.personal_minutes);
    s.append(t14.as_str());
    s.append(" / idle ");
    let t15 = i64_to_string(metrics.idle_minutes);
    s.append(t15.as_str());
    s.append(" / other ");
    let t16 = i64_to_string(metrics.other_minutes);
    s.append(t16.as_str());
    proof {
        assert(s@ =~= week_focus_text(*metrics, *score));
    }
    s
}

} // verus!
