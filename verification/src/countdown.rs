//! The remaining-time calculator: turns the difference between "now" and
//! the deadline into a breakdown over the enabled units and the label
//! string that is rendered onto the wallpaper.
//!
//! The arithmetic keeps its documented approximations: a month is 30
//! days, counts are truncated (never rounded up), and the remainder of
//! a disabled coarser unit folds into the next enabled finer unit.

use vstd::arithmetic::div_mod::{
    lemma_div_denominator, lemma_div_is_ordered, lemma_div_pos_is_pos, lemma_fundamental_div_mod,
    lemma_mod_division_less_than_divisor,
};
use vstd::prelude::*;

verus! {

use crate::config::UnitVisibility;
use crate::errors::PipelineError;
use crate::numfmt::{dec_str, u64_to_dec};
use vstd::string::StringExecFns;

/// Whole remaining hours, before any unit folding.
pub open spec fn total_hours_of(diff: int) -> int {
    diff / 3600
}

/// Whole remaining days, before any unit folding.
pub open spec fn total_days_of(diff: int) -> int {
    diff / 86400
}

/// Whole remaining weeks, before any unit folding.
pub open spec fn total_weeks_of(diff: int) -> int {
    total_days_of(diff) / 7
}

/// The months count: remaining days over a 30-day month.
pub open spec fn months_count(diff: int) -> int {
    total_days_of(diff) / 30
}

/// Whole weeks contained in the months count's days.
pub open spec fn month_weeks_debit(diff: int) -> int {
    (months_count(diff) * 30) / 7
}

/// Days of the months count that its whole weeks do not cover.
pub open spec fn month_day_remainder(diff: int) -> int {
    months_count(diff) * 30 - month_weeks_debit(diff) * 7
}

/// Days that the months count removes from the days and hours pools.
pub open spec fn month_days_debit(diff: int) -> int {
    months_count(diff) * (30 - month_day_remainder(diff))
}

/// The weeks count: total weeks, less the weeks already counted inside
/// enabled months.
pub open spec fn weeks_count(diff: int, vis: UnitVisibility) -> int {
    if vis.months {
        total_weeks_of(diff) - month_weeks_debit(diff)
    } else {
        total_weeks_of(diff)
    }
}

/// The days pool after enabled months subtract their contribution.
pub open spec fn days_after_months(diff: int, vis: UnitVisibility) -> int {
    if vis.months {
        total_days_of(diff) - month_days_debit(diff)
    } else {
        total_days_of(diff)
    }
}

/// The hours pool after enabled months subtract their contribution.
pub open spec fn hours_after_months(diff: int, vis: UnitVisibility) -> int {
    if vis.months {
        total_hours_of(diff) - month_days_debit(diff) * 24
    } else {
        total_hours_of(diff)
    }
}

/// The days count: the days pool after enabled months and weeks.
pub open spec fn days_count(diff: int, vis: UnitVisibility) -> int {
    if vis.weeks {
        days_after_months(diff, vis) - weeks_count(diff, vis) * 7
    } else {
        days_after_months(diff, vis)
    }
}

/// The hours pool after enabled months and weeks subtract theirs.
pub open spec fn hours_after_weeks(diff: int, vis: UnitVisibility) -> int {
    if vis.weeks {
        hours_after_months(diff, vis) - weeks_count(diff, vis) * 7 * 24
    } else {
        hours_after_months(diff, vis)
    }
}

/// The hours count: whatever remains in the hours pool at the end.
pub open spec fn hours_count(diff: int, vis: UnitVisibility) -> int {
    if vis.days {
        hours_after_weeks(diff, vis) - days_count(diff, vis) * 24
    } else {
        hours_after_weeks(diff, vis)
    }
}

/// The label text: the enabled units in months, weeks, days, hours
/// order, joined with ", ", closed by " Left.".
pub open spec fn spec_label(diff: int, vis: UnitVisibility) -> Seq<char> {
    let part_m = if vis.months {
        dec_str(months_count(diff)) + " Months"@
    } else {
        Seq::<char>::empty()
    };
    let part_w = if vis.weeks {
        (if vis.months {
            ", "@
        } else {
            Seq::<char>::empty()
        }) + dec_str(weeks_count(diff, vis)) + " Weeks"@
    } else {
        Seq::<char>::empty()
    };
    let part_d = if vis.days {
        (if vis.months || vis.weeks {
            ", "@
        } else {
            Seq::<char>::empty()
        }) + dec_str(days_count(diff, vis)) + " Days"@
    } else {
        Seq::<char>::empty()
    };
    let part_h = if vis.hours {
        (if vis.months || vis.weeks || vis.days {
            ", "@
        } else {
            Seq::<char>::empty()
        }) + dec_str(hours_count(diff, vis)) + " Hours"@
    } else {
        Seq::<char>::empty()
    };
    part_m + part_w + part_d + part_h + " Left."@
}

/// No position of the sequence holds the character.
pub open spec fn seq_avoids(s: Seq<char>, c: char) -> bool {
    forall|i: int| 0 <= i < s.len() ==> s[i] != c
}

proof fn lemma_concat_avoids(a: Seq<char>, b: Seq<char>, c: char)
    requires
        seq_avoids(a, c),
        seq_avoids(b, c),
    ensures
        seq_avoids(a + b, c),
{
    assert forall|i: int| 0 <= i < (a + b).len() implies (a + b)[i] != c by {
        if i < a.len() {
            assert((a + b)[i] == a[i]);
        } else {
            assert((a + b)[i] == b[i - a.len()]);
        }
    }
}

proof fn lemma_dec_avoids(n: int, c: char)
    requires
        n >= 0,
        !crate::numfmt::is_dec_digit(c),
    ensures
        seq_avoids(dec_str(n), c),
{
    crate::numfmt::lemma_dec_str_digits(n);
}

/// A disabled unit never appears in the label: without months no 'M' is
/// printed, without weeks no 'W', without days no 'D', without hours no
/// 'H'.  Together with the fixed concatenation order of `spec_label`,
/// this pins which units the label shows.
pub proof fn lemma_disabled_units_absent(diff: int, vis: UnitVisibility)
    requires
        diff >= 0,
    ensures
        !vis.months ==> seq_avoids(spec_label(diff, vis), 'M'),
        !vis.weeks ==> seq_avoids(spec_label(diff, vis), 'W'),
        !vis.days ==> seq_avoids(spec_label(diff, vis), 'D'),
        !vis.hours ==> seq_avoids(spec_label(diff, vis), 'H'),
{
    lemma_cascade_bounds(diff, vis);
    reveal_strlit(" Months");
    reveal_strlit(" Weeks");
    reveal_strlit(" Days");
    reveal_strlit(" Hours");
    reveal_strlit(", ");
    reveal_strlit(" Left.");
    if !vis.months {
        lemma_label_avoids_one(diff, vis, 'M');
    }
    if !vis.weeks {
        lemma_label_avoids_one(diff, vis, 'W');
    }
    if !vis.days {
        lemma_label_avoids_one(diff, vis, 'D');
    }
    if !vis.hours {
        lemma_label_avoids_one(diff, vis, 'H');
    }
}

/// The label avoids any non-digit character that none of its enabled
/// unit words, the separator and the suffix contain.
proof fn lemma_label_avoids_one(diff: int, vis: UnitVisibility, c: char)
    requires
        diff >= 0,
        !crate::numfmt::is_dec_digit(c),
        months_count(diff) >= 0,
        weeks_count(diff, vis) >= 0,
        days_count(diff, vis) >= 0,
        hours_count(diff, vis) >= 0,
        vis.months ==> seq_avoids(" Months"@, c),
        vis.weeks ==> seq_avoids(" Weeks"@, c),
        vis.days ==> seq_avoids(" Days"@, c),
        vis.hours ==> seq_avoids(" Hours"@, c),
        seq_avoids(", "@, c),
        seq_avoids(" Left."@, c),
    ensures
        seq_avoids(spec_label(diff, vis), c),
{
    let empty = Seq::<char>::empty();
    assert(seq_avoids(empty, c));
    let part_m = if vis.months {
        dec_str(months_count(diff)) + " Months"@
    } else {
        empty
    };
    if vis.months {
        lemma_dec_avoids(months_count(diff), c);
        lemma_concat_avoids(dec_str(months_count(diff)), " Months"@, c);
    }
    assert(seq_avoids(part_m, c));
    let sep_w = if vis.months {
        ", "@
    } else {
        empty
    };
    let part_w = if vis.weeks {
        sep_w + dec_str(weeks_count(diff, vis)) + " Weeks"@
    } else {
        empty
    };
    if vis.weeks {
        lemma_dec_avoids(weeks_count(diff, vis), c);
        lemma_concat_avoids(sep_w, dec_str(weeks_count(diff, vis)), c);
        lemma_concat_avoids(sep_w + dec_str(weeks_count(diff, vis)), " Weeks"@, c);
    }
    assert(seq_avoids(part_w, c));
    let sep_d = if vis.months || vis.weeks {
        ", "@
    } else {
        empty
    };
    let part_d = if vis.days {
        sep_d + dec_str(days_count(diff, vis)) + " Days"@
    } else {
        empty
    };
    if vis.days {
        lemma_dec_avoids(days_count(diff, vis), c);
        lemma_concat_avoids(sep_d, dec_str(days_count(diff, vis)), c);
        lemma_concat_avoids(sep_d + dec_str(days_count(diff, vis)), " Days"@, c);
    }
    assert(seq_avoids(part_d, c));
    let sep_h = if vis.months || vis.weeks || vis.days {
        ", "@
    } else {
        empty
    };
    let part_h = if vis.hours {
        sep_h + dec_str(hours_count(diff, vis)) + " Hours"@
    } else {
        empty
    };
    if vis.hours {
        lemma_dec_avoids(hours_count(diff, vis), c);
        lemma_concat_avoids(sep_h, dec_str(hours_count(diff, vis)), c);
        lemma_concat_avoids(sep_h + dec_str(hours_count(diff, vis)), " Hours"@, c);
    }
    assert(seq_avoids(part_h, c));
    lemma_concat_avoids(part_m, part_w, c);
    lemma_concat_avoids(part_m + part_w, part_d, c);
    lemma_concat_avoids(part_m + part_w + part_d, part_h, c);
    lemma_concat_avoids(part_m + part_w + part_d + part_h, " Left."@, c);
}

/// The remaining time, split over the enabled units, with the label that
/// is rendered onto the wallpaper.  A disabled unit carries no count.
#[derive(Debug, Clone, PartialEq)]
pub struct RemainingBreakdown {
    pub months: Option<u64>,
    pub weeks: Option<u64>,
    pub days: Option<u64>,
    pub hours: Option<u64>,
    /// Whole minutes until the deadline; the sole basis of the
    /// past/future decision, never displayed.
    pub minutes: i64,
    pub label: String,
}

/// Every count of the cascade is non-negative, and each pool keeps
/// enough hours to cover its days.  This is what lets the truncating
/// subtractions of `compute` run on unsigned integers.
pub proof fn lemma_cascade_bounds(diff: int, vis: UnitVisibility)
    requires
        diff >= 0,
    ensures
        0 <= total_hours_of(diff),
        0 <= total_days_of(diff),
        0 <= total_weeks_of(diff),
        0 <= months_count(diff),
        30 * months_count(diff) <= total_days_of(diff),
        7 * total_weeks_of(diff) <= total_days_of(diff),
        24 * total_days_of(diff) <= total_hours_of(diff),
        0 <= month_day_remainder(diff) < 7,
        0 <= month_weeks_debit(diff) <= total_weeks_of(diff),
        0 <= month_days_debit(diff) <= 30 * months_count(diff),
        0 <= weeks_count(diff, vis),
        0 <= days_after_months(diff, vis),
        7 * weeks_count(diff, vis) <= days_after_months(diff, vis),
        24 * days_after_months(diff, vis) <= hours_after_months(diff, vis),
        0 <= days_count(diff, vis),
        24 * days_count(diff, vis) <= hours_after_weeks(diff, vis),
        0 <= hours_count(diff, vis),
{
    let th = total_hours_of(diff);
    let td = total_days_of(diff);
    let tw = total_weeks_of(diff);
    let m = months_count(diff);
    lemma_div_pos_is_pos(diff, 3600);
    lemma_div_pos_is_pos(diff, 86400);
    lemma_div_pos_is_pos(td, 7);
    lemma_div_pos_is_pos(td, 30);
    // td == th / 24, so 24 * td <= th.
    lemma_div_denominator(diff, 3600, 24);
    assert(td == th / 24);
    lemma_fundamental_div_mod(th, 24);
    lemma_mod_division_less_than_divisor(th, 24);
    assert(24 * td <= th);
    // 30 * m <= td and 7 * tw <= td.
    lemma_fundamental_div_mod(td, 30);
    lemma_mod_division_less_than_divisor(td, 30);
    assert(30 * m <= td);
    lemma_fundamental_div_mod(td, 7);
    lemma_mod_division_less_than_divisor(td, 7);
    assert(7 * tw <= td);
    // The weeks inside the months, and the day remainder they leave.
    let wim = month_weeks_debit(diff);
    let rem = month_day_remainder(diff);
    assert(m * 30 == 30 * m);
    lemma_div_pos_is_pos(m * 30, 7);
    lemma_div_is_ordered(m * 30, td, 7);
    assert(wim <= tw);
    lemma_fundamental_div_mod(m * 30, 7);
    lemma_mod_division_less_than_divisor(m * 30, 7);
    assert(rem == (m * 30) % 7);
    assert(0 <= rem < 7);
    // The days debit of the months is between 0 and 30 * m.
    let mdd = month_days_debit(diff);
    assert(m * (30 - rem) == m * 30 - m * rem) by (nonlinear_arith);
    assert(mdd == m * 30 - m * rem);
    assert(0 <= m * rem) by (nonlinear_arith)
        requires
            0 <= m,
            0 <= rem,
    ;
    assert(m * rem <= m * 30) by (nonlinear_arith)
        requires
            0 <= m,
            0 <= rem,
            rem < 7,
    ;
    assert(0 <= mdd <= 30 * m);
    // 7 * weeks_count <= days_after_months.
    if vis.months {
        assert(7 * wim == m * 30 - rem);
        if m == 0 {
            assert(mdd == 0 && m * rem == 0 && rem == 0);
        } else {
            assert(rem <= m * rem) by (nonlinear_arith)
                requires
                    1 <= m,
                    0 <= rem,
            ;
        }
        assert(7 * (tw - wim) <= td - mdd);
    }
    assert(7 * weeks_count(diff, vis) <= days_after_months(diff, vis));
    assert(24 * days_after_months(diff, vis) <= hours_after_months(diff, vis));
    assert(0 <= days_count(diff, vis));
    assert(24 * days_count(diff, vis) <= hours_after_weeks(diff, vis));
    assert(0 <= hours_count(diff, vis));
}

/// Computes the remaining-time breakdown, or reports a deadline that is
/// not at least one full minute in the future.
///
/// The deadline has passed exactly when fewer than sixty seconds
/// remain: the whole-minute count is then zero or negative.
pub fn compute(now_secs: i64, deadline_secs: i64, vis: UnitVisibility) -> (r: Result<
    RemainingBreakdown,
    PipelineError,
>)
    ensures
        ({
            let diff = deadline_secs as int - now_secs as int;
            &&& (diff < 60 <==> r is Err)
            &&& (r is Err ==> r == Err::<RemainingBreakdown, PipelineError>(
                PipelineError::PastDeadline,
            ))
            &&& (r is Ok ==> {
                let b = r.unwrap();
                &&& b.minutes as int == diff / 60
                &&& b.minutes >= 1
                &&& (if vis.months {
                    b.months matches Some(c) && c as int == months_count(diff)
                } else {
                    b.months is None
                })
                &&& (if vis.weeks {
                    b.weeks matches Some(c) && c as int == weeks_count(diff, vis)
                } else {
                    b.weeks is None
                })
                &&& (if vis.days {
                    b.days matches Some(c) && c as int == days_count(diff, vis)
                } else {
                    b.days is None
                })
                &&& (if vis.hours {
                    b.hours matches Some(c) && c as int == hours_count(diff, vis)
                } else {
                    b.hours is None
                })
                &&& b.label@ == spec_label(diff, vis)
            })
        }),
{
    let diff_wide: i128 = deadline_secs as i128 - now_secs as i128;
    if diff_wide < 60 {
        return Err(PipelineError::PastDeadline);
    }
    let diff: u64 = diff_wide as u64;
    let ghost di = diff as int;
    proof {
        assert(di == deadline_secs as int - now_secs as int);
        lemma_cascade_bounds(di, vis);
        lemma_div_is_ordered(60, di, 60);
        lemma_div_is_ordered(di, u64::MAX as int, 60);
    }
    let minutes: u64 = diff / 60;
    let total_hours: u64 = diff / 3600;
    let total_days: u64 = diff / 86400;
    let months: u64 = total_days / 30;
    let mut weeks: u64 = total_days / 7;
    let mut days: u64 = total_days;
    let mut hours: u64 = total_hours;

    if vis.months {
        let days_in_months: u64 = months * 30;
        let weeks_in_months: u64 = days_in_months / 7;
        let days_reminder: u64 = days_in_months - weeks_in_months * 7;
        weeks = weeks - weeks_in_months;
        let debit: u64 = months * (30 - days_reminder);
        days = days - debit;
        hours = hours - debit * 24;
    }
    assert(weeks as int == weeks_count(di, vis));
    assert(days as int == days_after_months(di, vis));
    assert(hours as int == hours_after_months(di, vis));

    if vis.weeks {
        let week_days: u64 = weeks * 7;
        days = days - week_days;
        hours = hours - week_days * 24;
    }
    assert(days as int == days_count(di, vis));
    assert(hours as int == hours_after_weeks(di, vis));

    let shown_hours: u64 = if vis.days {
        hours - days * 24
    } else {
        hours
    };
    assert(shown_hours as int == hours_count(di, vis));

    let label = format_label(
        vis,
        months,
        weeks,
        days,
        shown_hours,
        Ghost(di),
    );
    Ok(
        RemainingBreakdown {
            months: if vis.months { Some(months) } else { None },
            weeks: if vis.weeks { Some(weeks) } else { None },
            days: if vis.days { Some(days) } else { None },
            hours: if vis.hours { Some(shown_hours) } else { None },
            minutes: minutes as i64,
            label,
        },
    )
}

/// Joins the enabled counts into the label text, in fixed unit order.
fn format_label(
    vis: UnitVisibility,
    months: u64,
    weeks: u64,
    days: u64,
    hours: u64,
    Ghost(diff): Ghost<int>,
) -> (r: String)
    requires
        vis.months ==> months as int == months_count(diff),
        vis.weeks ==> weeks as int == weeks_count(diff, vis),
        vis.days ==> days as int == days_count(diff, vis),
        vis.hours ==> hours as int == hours_count(diff, vis),
    ensures
        r@ == spec_label(diff, vis),
{
    let mut s = String::new();
    if vis.months {
        let num = u64_to_dec(months);
        s.append(num.as_str());
        s.append(" Months");
    }
    let ghost part_m = if vis.months {
        dec_str(months_count(diff)) + " Months"@
    } else {
        Seq::<char>::empty()
    };
    assert(s@ =~= part_m);

    if vis.weeks {
        if vis.months {
            s.append(", ");
        }
        let num = u64_to_dec(weeks);
        s.append(num.as_str());
        s.append(" Weeks");
    }
    let ghost part_w = if vis.weeks {
        (if vis.months {
            ", "@
        } else {
            Seq::<char>::empty()
        }) + dec_str(weeks_count(diff, vis)) + " Weeks"@
    } else {
        Seq::<char>::empty()
    };
    assert(s@ =~= part_m + part_w);

    if vis.days {
        if vis.months || vis.weeks {
            s.append(", ");
        }
        let num = u64_to_dec(days);
        s.append(num.as_str());
        s.append(" Days");
    }
    let ghost part_d = if vis.days {
        (if vis.months || vis.weeks {
            ", "@
        } else {
            Seq::<char>::empty()
        }) + dec_str(days_count(diff, vis)) + " Days"@
    } else {
        Seq::<char>::empty()
    };
    assert(s@ =~= part_m + part_w + part_d);

    if vis.hours {
        if vis.months || vis.weeks || vis.days {
            s.append(", ");
        }
        let num = u64_to_dec(hours);
        s.append(num.as_str());
        s.append(" Hours");
    }
    let ghost part_h = if vis.hours {
        (if vis.months || vis.weeks || vis.days {
            ", "@
        } else {
            Seq::<char>::empty()
        }) + dec_str(hours_count(diff, vis)) + " Hours"@
    } else {
        Seq::<char>::empty()
    };
    assert(s@ =~= part_m + part_w + part_d + part_h);

    s.append(" Left.");
    assert(s@ =~= spec_label(diff, vis));
    s
}

} // verus!
