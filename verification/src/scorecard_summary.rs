//! The end-of-match scorecard: pars and strokes of the front nine (OUT) and
//! back nine (IN), each hole's score against its par, and the total.
use vstd::prelude::*;
use crate::state::{clamp_u16, saturating_strokes_sum, strokes_sum, lemma_saturating_sum_is_clamped_sum};
use crate::text::{append_decimal, decimal, decimal_string};

verus! {

/// The scorecard cell that shows the front nine's total.
pub const OUT_TOTAL_CELL: u8 = 20;

/// The scorecard cell that shows the back nine's total.
pub const IN_TOTAL_CELL: u8 = 21;

/// The scorecard cell that shows the round's total.
pub const ROUND_TOTAL_CELL: u8 = 22;

/// Which cell of the scorecard a text stands in: a hole (1 to 18) or a total
/// (20, 21, 22), on the par row, the score row, or neither.
#[derive(Debug, Clone, Copy, PartialEq, Eq, Structural)]
pub struct ScorecardCell {
    pub hole_num: u8,
    pub is_par: bool,
    pub is_score: bool,
}

/// The colour class of a score: under par, at par (or not played), over par.
#[derive(Debug, Clone, Copy, PartialEq, Eq, Structural)]
pub enum ScoreColor {
    UnderPar,
    Even,
    OverPar,
}

/// What a scorecard cell shows: its text and, where it changes, its colour.
#[derive(Debug, Clone)]
pub struct CellContent {
    pub text: String,
    pub color: Option<ScoreColor>,
}

/// The pars and strokes of the two nines, each added with saturation.
#[derive(Debug, Clone, Copy, PartialEq, Eq, Structural)]
pub struct ScorecardTotals {
    pub out_par: u16,
    pub in_par: u16,
    pub out_score: u16,
    pub in_score: u16,
}

/// The known pars of holes `from` to `to` (1-based), as `u16`s; `pars[h - 1]`
/// is the par of hole `h` where its preset is known.
pub open spec fn known_pars(pars: Seq<Option<u8>>, from: int, to: int) -> Seq<u16>
    decreases to - from + 1,
{
    if to < from {
        Seq::empty()
    } else {
        let rest = known_pars(pars, from, to - 1);
        if 0 <= to - 1 < pars.len() && pars[to - 1] is Some {
            rest.push(pars[to - 1]->0 as u16)
        } else {
            rest
        }
    }
}

/// The recorded strokes of holes `from` to `to` (1-based).
pub open spec fn known_strokes(strokes: Seq<u16>, from: int, to: int) -> Seq<u16> {
    let lo = if from - 1 < strokes.len() { from - 1 } else { strokes.len() as int };
    let hi = if to < strokes.len() { to } else { strokes.len() as int };
    strokes.subrange(lo, hi)
}

/// The totals of a scorecard: each nine's known pars and recorded strokes
/// added up, held to `u16`.
pub open spec fn totals_of(pars: Seq<Option<u8>>, strokes: Seq<u16>) -> ScorecardTotals {
    ScorecardTotals {
        out_par: clamp_u16(strokes_sum(known_pars(pars, 1, 9))),
        in_par: clamp_u16(strokes_sum(known_pars(pars, 10, 18))),
        out_score: clamp_u16(strokes_sum(known_strokes(strokes, 1, 9))),
        in_score: clamp_u16(strokes_sum(known_strokes(strokes, 10, 18))),
    }
}

fn sum_known_pars(pars: &Vec<Option<u8>>, from: u8, to: u8) -> (total: u16)
    requires
        1 <= from <= to + 1,
        to <= 18,
    ensures
        total == clamp_u16(strokes_sum(known_pars(pars@, from as int, to as int))),
{
    let mut total: u16 = 0;
    let mut hole: u8 = from;
    assert(known_pars(pars@, from as int, from - 1) =~= Seq::<u16>::empty());
    while hole <= to
        invariant
            1 <= from <= hole <= to + 1,
            to <= 18,
            total == saturating_strokes_sum(known_pars(pars@, from as int, hole - 1)),
        decreases to + 1 - hole,
    {
        let idx = (hole - 1) as usize;
        if idx < pars.len() {
            if let Some(par) = pars[idx] {
                let ghost prev = known_pars(pars@, from as int, hole - 1);
                assert(known_pars(pars@, from as int, hole as int) == prev.push(par as u16));
                assert(known_pars(pars@, from as int, hole as int).drop_last() =~= prev);
                total = total.saturating_add(par as u16);
            }
        }
        hole = hole + 1;
    }
    proof {
        lemma_saturating_sum_is_clamped_sum(known_pars(pars@, from as int, to as int));
    }
    total
}

fn sum_known_strokes(strokes: &Vec<u16>, from: u8, to: u8) -> (total: u16)
    requires
        1 <= from <= to + 1,
        to <= 18,
    ensures
        total == clamp_u16(strokes_sum(known_strokes(strokes@, from as int, to as int))),
{
    let ghost s = known_strokes(strokes@, from as int, to as int);
    let lo: usize = if ((from - 1) as usize) < strokes.len() { (from - 1) as usize } else { strokes.len() };
    let hi: usize = if (to as usize) < strokes.len() { to as usize } else { strokes.len() };
    let mut total: u16 = 0;
    let mut i: usize = lo;
    while i < hi
        invariant
            lo <= hi <= strokes@.len(),
            lo <= i <= hi || (lo > hi && i == lo),
            total == saturating_strokes_sum(strokes@.subrange(lo as int, if i <= hi { i as int } else { hi as int })),
        decreases hi - i,
    {
        assert(strokes@.subrange(lo as int, i + 1).drop_last() =~= strokes@.subrange(lo as int, i as int));
        total = total.saturating_add(strokes[i]);
        i = i + 1;
    }
    proof {
        if lo > hi {
            assert(s.len() == 0);
        }
        lemma_saturating_sum_is_clamped_sum(s);
    }
    if lo > hi {
        return 0;
    }
    total
}

/// Adds up the pars (`pars[h - 1]` for hole `h`, where known) and the
/// recorded strokes of each nine.
pub fn scorecard_totals(pars: &Vec<Option<u8>>, strokes: &Vec<u16>) -> (totals: ScorecardTotals)
    ensures
        totals == totals_of(pars@, strokes@),
{
    ScorecardTotals {
        out_par: sum_known_pars(pars, 1, 9),
        in_par: sum_known_pars(pars, 10, 18),
        out_score: sum_known_strokes(strokes, 1, 9),
        in_score: sum_known_strokes(strokes, 10, 18),
    }
}

/// The colour of a hole's score against its par.
pub open spec fn score_color(strokes: u16, par: u8) -> ScoreColor {
    if (strokes as int) - (par as int) < 0 {
        ScoreColor::UnderPar
    } else if (strokes as int) - (par as int) == 0 {
        ScoreColor::Even
    } else {
        ScoreColor::OverPar
    }
}

/// The round's total line: the strokes, and how far over or under par.
pub open spec fn round_total_text(totals: ScorecardTotals) -> Seq<char> {
    let total_par = clamp_u16(totals.out_par + totals.in_par);
    let total_score = clamp_u16(totals.out_score + totals.in_score);
    let diff = total_score - total_par;
    "TOTAL STROKES: "@ + decimal(total_score as nat) + if diff < 0 {
        " ("@ + decimal((-diff) as nat) + " Under Par)"@
    } else if diff == 0 {
        " (Even Par)"@
    } else {
        " ("@ + decimal(diff as nat) + " Over Par)"@
    }
}

/// What a cell shows, or `None` when it is left as it is: a hole's known par
/// on the par row; a hole's recorded strokes (coloured against a known par)
/// or a plain "-" on the score row; the nines' totals in cells 20 and 21;
/// and the round's total line in cell 22 off both rows.
pub open spec fn cell_content(
    cell: ScorecardCell,
    pars: Seq<Option<u8>>,
    strokes: Seq<u16>,
    totals: ScorecardTotals,
) -> Option<(Seq<char>, Option<ScoreColor>)> {
    let h = cell.hole_num as int;
    let par = if 1 <= h <= 18 && h - 1 < pars.len() { pars[h - 1] } else { None };
    if cell.is_par {
        if 1 <= h <= 18 {
            match par {
                Some(p) => Some((decimal(p as nat), None)),
                None => None,
            }
        } else if h == OUT_TOTAL_CELL {
            Some((decimal(totals.out_par as nat), None))
        } else if h == IN_TOTAL_CELL {
            Some((decimal(totals.in_par as nat), None))
        } else {
            None
        }
    } else if cell.is_score {
        if 1 <= h <= 18 {
            if h - 1 < strokes.len() {
                let s = strokes[h - 1];
                Some((decimal(s as nat), match par {
                    Some(p) => Some(score_color(s, p)),
                    None => None,
                }))
            } else {
                Some(("-"@, Some(ScoreColor::Even)))
            }
        } else if h == OUT_TOTAL_CELL {
            Some((decimal(totals.out_score as nat), None))
        } else if h == IN_TOTAL_CELL {
            Some((decimal(totals.in_score as nat), None))
        } else {
            None
        }
    } else if h == ROUND_TOTAL_CELL {
        Some((round_total_text(totals), None))
    } else {
        None
    }
}

/// Writes the round's total line.
pub fn round_total_string(totals: ScorecardTotals) -> (text: String)
    ensures
        text@ == round_total_text(totals),
{
    let total_par = totals.out_par.saturating_add(totals.in_par);
    let total_score = totals.out_score.saturating_add(totals.in_score);
    let diff: i32 = total_score as i32 - total_par as i32;
    let mut text = String::from_str("TOTAL STROKES: ");
    append_decimal(&mut text, total_score as u64);
    if diff < 0 {
        text.append(" (");
        append_decimal(&mut text, (-diff) as u64);
        text.append(" Under Par)");
    } else if diff == 0 {
        text.append(" (Even Par)");
    } else {
        text.append(" (");
        append_decimal(&mut text, diff as u64);
        text.append(" Over Par)");
    }
    text
}

/// What the scorecard cell `cell` shows, given the pars (`pars[h - 1]` for
/// hole `h`, where known), the recorded strokes and the totals.
pub fn scorecard_cell_content(
    cell: ScorecardCell,
    pars: &Vec<Option<u8>>,
    strokes: &Vec<u16>,
    totals: ScorecardTotals,
) -> (content: Option<CellContent>)
    ensures
        match cell_content(cell, pars@, strokes@, totals) {
            Some((text, color)) => content matches Some(c) && c.text@ == text && c.color == color,
            None => content is None,
        },
{
    let h = cell.hole_num;
    let par: Option<u8> = if 1 <= h && h <= 18 && ((h - 1) as usize) < pars.len() {
        pars[(h - 1) as usize]
    } else {
        None
    };
    if cell.is_par {
        if 1 <= h && h <= 18 {
            match par {
                Some(p) => Some(CellContent { text: decimal_string(p as u64), color: None }),
                None => None,
            }
        } else if h == OUT_TOTAL_CELL {
            Some(CellContent { text: decimal_string(totals.out_par as u64), color: None })
        } else if h == IN_TOTAL_CELL {
            Some(CellContent { text: decimal_string(totals.in_par as u64), color: None })
        } else {
            None
        }
    } else if cell.is_score {
        if 1 <= h && h <= 18 {
            if ((h - 1) as usize) < strokes.len() {
                let s = strokes[(h - 1) as usize];
                let color = match par {
                    Some(p) => {
                        let rel: i32 = s as i32 - p as i32;
                        Some(
                            if rel < 0 {
                                ScoreColor::UnderPar
                            } else if rel == 0 {
                                ScoreColor::Even
                            } else {
                                ScoreColor::OverPar
                            },
                        )
                    },
                    None => None,
                };
                Some(CellContent { text: decimal_string(s as u64), color })
            } else {
                Some(CellContent { text: String::from_str("-"), color: Some(ScoreColor::Even) })
            }
        } else if h == OUT_TOTAL_CELL {
            Some(CellContent { text: decimal_string(totals.out_score as u64), color: None })
        } else if h == IN_TOTAL_CELL {
            Some(CellContent { text: decimal_string(totals.in_score as u64), color: None })
        } else {
            None
        }
    } else if h == ROUND_TOTAL_CELL {
        Some(CellContent { text: round_total_string(totals), color: None })
    } else {
        None
    }
}

} // verus!
