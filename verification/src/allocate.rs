//! Proportional budget allocation.  Up to four optional text sources share a
//! fixed budget of abstract units according to fixed relative weights;
//! absent sources are skipped and the remaining weights renormalize the
//! shares.  Each present source's text is then cut to its share with a
//! cheap units-to-characters heuristic, and the labelled pieces are
//! concatenated in a fixed order into one assembled prompt.

use vstd::prelude::*;

use crate::text::{take_chars, str_chars, clip_chars, chars_to_string};
use vstd::arithmetic::div_mod::{lemma_fundamental_div_mod, lemma_mod_division_less_than_divisor};

verus! {

/// Total allocation budget for the final cross-source prompt; bounds
/// provider cost per report.
pub const TOTAL_BUDGET_UNITS: usize = 16_000;

/// Relative weight of the profile text.
pub const WEIGHT_PROFILE: usize = 1;

/// Relative weight of the commits text.
pub const WEIGHT_COMMITS: usize = 4;

/// Relative weight of the issues text.
pub const WEIGHT_ISSUES: usize = 4;

/// Relative weight of the discussions text.
pub const WEIGHT_DISCUSSIONS: usize = 2;

/// Characters granted per allocation unit: a deliberate cheap stand-in for
/// precise tokenization in the final assembly prompt.
pub const CHARS_PER_UNIT: usize = 3;

/// The four optional text sources of one report, in their fixed composition
/// order.
pub struct SourceSet {
    pub profile: Option<String>,
    pub commits: Option<String>,
    pub issues: Option<String>,
    pub discussions: Option<String>,
}

impl SourceSet {
    /// Sum of the weights of the present sources.
    pub open spec fn weight_sum(self) -> int {
        (if self.profile is Some {
            WEIGHT_PROFILE as int
        } else {
            0
        }) + (if self.commits is Some {
            WEIGHT_COMMITS as int
        } else {
            0
        }) + (if self.issues is Some {
            WEIGHT_ISSUES as int
        } else {
            0
        }) + (if self.discussions is Some {
            WEIGHT_DISCUSSIONS as int
        } else {
            0
        })
    }

    /// How many sources are present.
    pub open spec fn present_count(self) -> int {
        (if self.profile is Some {
            1int
        } else {
            0
        }) + (if self.commits is Some {
            1int
        } else {
            0
        }) + (if self.issues is Some {
            1int
        } else {
            0
        }) + (if self.discussions is Some {
            1int
        } else {
            0
        })
    }
}

/// A present source's share of the budget: `total * weight / weight_sum`.
pub open spec fn share(total: int, weight: int, wsum: int) -> int {
    if wsum > 0 {
        total * weight / wsum
    } else {
        0
    }
}

/// Units allocated to the profile text.
pub open spec fn alloc_profile(s: SourceSet, total: int) -> int {
    if s.profile is Some {
        share(total, WEIGHT_PROFILE as int, s.weight_sum())
    } else {
        0
    }
}

/// Units allocated to the commits text.
pub open spec fn alloc_commits(s: SourceSet, total: int) -> int {
    if s.commits is Some {
        share(total, WEIGHT_COMMITS as int, s.weight_sum())
    } else {
        0
    }
}

/// Units allocated to the issues text.
pub open spec fn alloc_issues(s: SourceSet, total: int) -> int {
    if s.issues is Some {
        share(total, WEIGHT_ISSUES as int, s.weight_sum())
    } else {
        0
    }
}

/// Units allocated to the discussions text.
pub open spec fn alloc_discussions(s: SourceSet, total: int) -> int {
    if s.discussions is Some {
        share(total, WEIGHT_DISCUSSIONS as int, s.weight_sum())
    } else {
        0
    }
}

/// Units allocated across all sources.
pub open spec fn alloc_sum(s: SourceSet, total: int) -> int {
    alloc_profile(s, total) + alloc_commits(s, total) + alloc_issues(s, total) + alloc_discussions(
        s,
        total,
    )
}

/// Bounds one present source's scaled share: within a remainder of the
/// exact proportional value.
proof fn lemma_share_bounds(total: int, w: int, wsum: int)
    requires
        total >= 0,
        1 <= w <= wsum,
    ensures
        share(total, w, wsum) >= 0,
        wsum * share(total, w, wsum) <= total * w,
        wsum * share(total, w, wsum) >= total * w - (wsum - 1),
{
    assert(total * w >= 0) by (nonlinear_arith)
        requires
            total >= 0,
            w >= 1,
    ;
    lemma_fundamental_div_mod(total * w, wsum);
    lemma_mod_division_less_than_divisor(total * w, wsum);
    assert(share(total, w, wsum) >= 0) by (nonlinear_arith)
        requires
            total * w >= 0,
            wsum >= 1,
            total * w == wsum * share(total, w, wsum) + (total * w) % wsum,
            0 <= (total * w) % wsum < wsum,
    ;
}

/// Allocation exhausts the budget up to rounding: the allocated units sum
/// to the total budget, short of it by less than one unit per present
/// source, and never exceed it.
pub proof fn lemma_alloc_sum_bounds(s: SourceSet, total: int)
    requires
        total >= 0,
        s.present_count() > 0,
    ensures
        alloc_sum(s, total) <= total,
        total - alloc_sum(s, total) < s.present_count(),
{
    let wsum = s.weight_sum();
    let n = s.present_count();
    let q1 = alloc_profile(s, total);
    let q2 = alloc_commits(s, total);
    let q3 = alloc_issues(s, total);
    let q4 = alloc_discussions(s, total);
    let w1: int = if s.profile is Some {
        WEIGHT_PROFILE as int
    } else {
        0
    };
    let w2: int = if s.commits is Some {
        WEIGHT_COMMITS as int
    } else {
        0
    };
    let w3: int = if s.issues is Some {
        WEIGHT_ISSUES as int
    } else {
        0
    };
    let w4: int = if s.discussions is Some {
        WEIGHT_DISCUSSIONS as int
    } else {
        0
    };
    assert(wsum >= 1);
    if s.profile is Some {
        lemma_share_bounds(total, WEIGHT_PROFILE as int, wsum);
    }
    if s.commits is Some {
        lemma_share_bounds(total, WEIGHT_COMMITS as int, wsum);
    }
    if s.issues is Some {
        lemma_share_bounds(total, WEIGHT_ISSUES as int, wsum);
    }
    if s.discussions is Some {
        lemma_share_bounds(total, WEIGHT_DISCUSSIONS as int, wsum);
    }
    assert(wsum * q1 <= total * w1 && wsum * q1 >= total * w1 - (wsum - 1) * (if s.profile
        is Some {
        1int
    } else {
        0int
    }));
    assert(wsum * q2 <= total * w2 && wsum * q2 >= total * w2 - (wsum - 1) * (if s.commits
        is Some {
        1int
    } else {
        0int
    }));
    assert(wsum * q3 <= total * w3 && wsum * q3 >= total * w3 - (wsum - 1) * (if s.issues
        is Some {
        1int
    } else {
        0int
    }));
    assert(wsum * q4 <= total * w4 && wsum * q4 >= total * w4 - (wsum - 1) * (if s.discussions
        is Some {
        1int
    } else {
        0int
    }));
    let sum = q1 + q2 + q3 + q4;
    let b1: int = if s.profile is Some {
        1
    } else {
        0
    };
    let b2: int = if s.commits is Some {
        1
    } else {
        0
    };
    let b3: int = if s.issues is Some {
        1
    } else {
        0
    };
    let b4: int = if s.discussions is Some {
        1
    } else {
        0
    };
    assert(wsum * q1 >= total * w1 - (wsum - 1) * b1);
    assert(wsum * q2 >= total * w2 - (wsum - 1) * b2);
    assert(wsum * q3 >= total * w3 - (wsum - 1) * b3);
    assert(wsum * q4 >= total * w4 - (wsum - 1) * b4);
    assert(wsum * sum <= total * wsum) by (nonlinear_arith)
        requires
            wsum * q1 <= total * w1,
            wsum * q2 <= total * w2,
            wsum * q3 <= total * w3,
            wsum * q4 <= total * w4,
            sum == q1 + q2 + q3 + q4,
            wsum == w1 + w2 + w3 + w4,
    ;
    assert(wsum * sum >= total * wsum - n * (wsum - 1)) by (nonlinear_arith)
        requires
            wsum * q1 >= total * w1 - (wsum - 1) * b1,
            wsum * q2 >= total * w2 - (wsum - 1) * b2,
            wsum * q3 >= total * w3 - (wsum - 1) * b3,
            wsum * q4 >= total * w4 - (wsum - 1) * b4,
            sum == q1 + q2 + q3 + q4,
            wsum == w1 + w2 + w3 + w4,
            n == b1 + b2 + b3 + b4,
    ;
    assert(sum <= total) by (nonlinear_arith)
        requires
            wsum >= 1,
            wsum * sum <= total * wsum,
    ;
    assert(total - sum < n) by (nonlinear_arith)
        requires
            wsum >= 1,
            n >= 1,
            wsum * sum >= total * wsum - n * (wsum - 1),
    ;
}

/// Computes one present source's allocation in units.
fn share_units(total: usize, weight: usize, wsum: usize) -> (r: usize)
    requires
        1 <= weight <= 4,
        weight <= wsum <= 11,
        total <= usize::MAX / 4,
    ensures
        r as int == share(total as int, weight as int, wsum as int),
        r <= total,
{
    proof {
        let t = total as int;
        let w = weight as int;
        let ws = wsum as int;
        let m = usize::MAX as int;
        assert(t * w <= t * ws) by (nonlinear_arith)
            requires
                t >= 0,
                w <= ws,
        ;
        assert(t * w >= 0) by (nonlinear_arith)
            requires
                t >= 0,
                w >= 0,
        ;
        assert(t * w <= 4 * t) by (nonlinear_arith)
            requires
                t >= 0,
                0 <= w <= 4,
        ;
        vstd::arithmetic::div_mod::lemma_fundamental_div_mod(m, 4);
        vstd::arithmetic::div_mod::lemma_mod_division_less_than_divisor(m, 4);
        assert(4 * t <= m);
        vstd::arithmetic::div_mod::lemma_fundamental_div_mod_converse(t * ws, ws, t, 0);
        vstd::arithmetic::div_mod::lemma_div_is_ordered(t * w, t * ws, ws);
    }
    (total * weight) / wsum
}

/// The allocations of the four sources, in composition order.
pub fn allocations(s: &SourceSet, total: usize) -> (r: (usize, usize, usize, usize))
    requires
        total <= usize::MAX / 4,
    ensures
        r.0 as int == alloc_profile(*s, total as int),
        r.1 as int == alloc_commits(*s, total as int),
        r.2 as int == alloc_issues(*s, total as int),
        r.3 as int == alloc_discussions(*s, total as int),
        r.0 <= total && r.1 <= total && r.2 <= total && r.3 <= total,
{
    let mut wsum: usize = 0;
    if s.profile.is_some() {
        wsum = wsum + WEIGHT_PROFILE;
    }
    if s.commits.is_some() {
        wsum = wsum + WEIGHT_COMMITS;
    }
    if s.issues.is_some() {
        wsum = wsum + WEIGHT_ISSUES;
    }
    if s.discussions.is_some() {
        wsum = wsum + WEIGHT_DISCUSSIONS;
    }
    proof {
        assert(wsum as int == s.weight_sum());
    }
    if wsum == 0 {
        return (0, 0, 0, 0);
    }
    let p = if s.profile.is_some() {
        share_units(total, WEIGHT_PROFILE, wsum)
    } else {
        0
    };
    let c = if s.commits.is_some() {
        share_units(total, WEIGHT_COMMITS, wsum)
    } else {
        0
    };
    let i = if s.issues.is_some() {
        share_units(total, WEIGHT_ISSUES, wsum)
    } else {
        0
    };
    let d = if s.discussions.is_some() {
        share_units(total, WEIGHT_DISCUSSIONS, wsum)
    } else {
        0
    };
    (p, c, i, d)
}

/// One labelled piece of the assembled prompt: the label, then the source
/// text cut to its allocated characters.
pub open spec fn labeled_piece(label: Seq<char>, text: Seq<char>, units: int) -> Seq<char> {
    label + take_chars(text, units * CHARS_PER_UNIT as int)
}

/// The assembled prompt: the labelled, truncated pieces of exactly the
/// present sources, in the fixed order profile, commits, issues,
/// discussions, separated by single spaces.
pub open spec fn assembled_spec(s: SourceSet, total: int) -> Seq<char> {
    let pieces = assembled_pieces(s, total);
    crate::text::join_words(pieces, ' ')
}

/// The labelled pieces of the present sources, in composition order.
pub open spec fn assembled_pieces(s: SourceSet, total: int) -> Seq<Seq<char>> {
    let p: Seq<Seq<char>> = if s.profile is Some {
        seq![labeled_piece("profile data: "@, s.profile.unwrap()@, alloc_profile(s, total))]
    } else {
        Seq::empty()
    };
    let c: Seq<Seq<char>> = if s.commits is Some {
        seq![labeled_piece("commit logs: "@, s.commits.unwrap()@, alloc_commits(s, total))]
    } else {
        Seq::empty()
    };
    let i: Seq<Seq<char>> = if s.issues is Some {
        seq![labeled_piece("issue posts: "@, s.issues.unwrap()@, alloc_issues(s, total))]
    } else {
        Seq::empty()
    };
    let d: Seq<Seq<char>> = if s.discussions is Some {
        seq![
            labeled_piece(
                "discussion posts: "@,
                s.discussions.unwrap()@,
                alloc_discussions(s, total),
            ),
        ]
    } else {
        Seq::empty()
    };
    p + c + i + d
}

/// The assembled prompt holds exactly one labelled piece per present
/// source: an absent source contributes no label and no placeholder.
pub proof fn lemma_one_piece_per_present_source(s: SourceSet, total: int)
    ensures
        assembled_pieces(s, total).len() == s.present_count(),
{
}

/// Builds one labelled piece.
fn build_piece(label: &str, text: &String, units: usize) -> (r: Vec<char>)
    requires
        units <= usize::MAX / 4,
    ensures
        r@ == labeled_piece(label@, text@, units as int),
{
    let mut out = str_chars(label);
    let chars = str_chars(text.as_str());
    let clipped = clip_chars(&chars, units * CHARS_PER_UNIT);
    crate::quote::extend_chars(&mut out, &clipped);
    out
}

/// Assembles the final cross-source prompt from the present sources.
///
/// Absent sources contribute nothing at all: no label, no placeholder.
pub fn assemble_prompt(s: &SourceSet, total: usize) -> (r: String)
    requires
        total <= usize::MAX / 4,
    ensures
        r@ == assembled_spec(*s, total as int),
{
    let (pu, cu, iu, du) = allocations(s, total);
    let mut pieces: Vec<Vec<char>> = Vec::new();
    match &s.profile {
        Some(t) => {
            let piece = build_piece("profile data: ", t, pu);
            pieces.push(piece);
        },
        None => {},
    }
    match &s.commits {
        Some(t) => {
            let piece = build_piece("commit logs: ", t, cu);
            pieces.push(piece);
        },
        None => {},
    }
    match &s.issues {
        Some(t) => {
            let piece = build_piece("issue posts: ", t, iu);
            pieces.push(piece);
        },
        None => {},
    }
    match &s.discussions {
        Some(t) => {
            let piece = build_piece("discussion posts: ", t, du);
            pieces.push(piece);
        },
        None => {},
    }
    proof {
        assert(crate::text::views_of(pieces@) =~= assembled_pieces(*s, total as int));
    }
    let joined = crate::text::join_with(&pieces, ' ');
    chars_to_string(&joined)
}

} // verus!
