//! The WCAG success criteria that two colors are held against.
use vstd::prelude::*;

use crate::color::Rgb;
#[allow(unused_imports)]
use crate::color::{level_for, WcagLevel};

verus! {

/// One thing that a criterion asks for.
#[derive(Debug, Clone, Copy)]
pub struct Criterion {
    pub label: &'static str,
    /// The ratio that it asks for, in halves.
    pub threshold_halves: u32,
}

/// A criterion, and what it asks for.
#[derive(Debug)]
pub struct CriterionGroup {
    pub heading: &'static str,
    pub rows: Vec<Criterion>,
}

/// The verdict on one thing that a criterion asks for.
#[derive(Debug, Clone, Copy)]
pub struct Badge {
    pub text: &'static str,
    pub color: Rgb,
    pub label: &'static str,
}

/// The color of a verdict that is good.
pub open spec fn pass_color() -> Rgb {
    Rgb { r: 0x2d, g: 0x9e, b: 0x2d }
}

/// The color of a verdict that is bad.
pub open spec fn fail_color() -> Rgb {
    Rgb { r: 0xfe, g: 0x41, b: 0x1a }
}

impl Criterion {
    /// Whether a ratio with so many whole halves in it is enough.
    pub open spec fn passed_by(self, ratio_halves: u32) -> bool {
        ratio_halves >= self.threshold_halves
    }

    /// Whether a badge is the verdict on a ratio with so many whole halves in it.
    pub open spec fn shown_by(self, badge: Badge, ratio_halves: u32) -> bool {
        &&& badge.label == self.label
        &&& self.passed_by(ratio_halves) ==> badge.text@ == "Pass"@ && badge.color == pass_color()
        &&& !self.passed_by(ratio_halves) ==> badge.text@ == "Fail"@ && badge.color == fail_color()
    }

    fn new(label: &'static str, threshold_halves: u32) -> (res: Self)
        ensures
            res.label == label,
            res.threshold_halves == threshold_halves,
    {
        Criterion { label, threshold_halves }
    }

    /// The verdict on a ratio with so many whole halves in it.
    pub fn badge(&self, ratio_halves: u32) -> (res: Badge)
        ensures
            self.shown_by(res, ratio_halves),
    {
        if ratio_halves >= self.threshold_halves {
            Badge { text: "Pass", color: Rgb::new(0x2d, 0x9e, 0x2d), label: self.label }
        } else {
            Badge { text: "Fail", color: Rgb::new(0xfe, 0x41, 0x1a), label: self.label }
        }
    }
}

impl CriterionGroup {
    /// The verdicts on a ratio, in the order of the rows.
    pub fn badges(&self, ratio_halves: u32) -> (res: Vec<Badge>)
        ensures
            res@.len() == self.rows@.len(),
            forall|i: int|
                0 <= i < res@.len() ==> self.rows@[i].shown_by(#[trigger] res@[i], ratio_halves),
    {
        let mut badges: Vec<Badge> = Vec::new();
        let mut i: usize = 0;
        while i < self.rows.len()
            invariant
                i <= self.rows@.len(),
                badges@.len() == i,
                forall|k: int|
                    0 <= k < i ==> self.rows@[k].shown_by(#[trigger] badges@[k], ratio_halves),
            decreases self.rows@.len() - i,
        {
            badges.push(self.rows[i].badge(ratio_halves));
            i = i + 1;
        }
        badges
    }
}

/// Whether a row has this label and this threshold.
pub open spec fn asks(row: Criterion, label: Seq<char>, threshold_halves: int) -> bool {
    row.label@ == label && row.threshold_halves == threshold_halves
}

/// Whether these are the criteria that are shown, in their order.
pub open spec fn are_shown_criteria(groups: Seq<CriterionGroup>) -> bool {
    &&& groups.len() == 3
    &&& groups[0].heading@ == "1.4.3 Contrast (Minimum) - AA"@
    &&& groups[0].rows@.len() == 2
    &&& asks(groups[0].rows@[0], "Regular text"@, 9)
    &&& asks(groups[0].rows@[1], "Large text"@, 6)
    &&& groups[1].heading@ == "1.4.6 Contrast (Enhanced) - AAA"@
    &&& groups[1].rows@.len() == 2
    &&& asks(groups[1].rows@[0], "Regular text"@, 14)
    &&& asks(groups[1].rows@[1], "Large text"@, 9)
    &&& groups[2].heading@ == "1.4.11 Non-text Contrast - AA"@
    &&& groups[2].rows@.len() == 1
    &&& asks(groups[2].rows@[0], "UI components"@, 6)
}

/// The criteria that are shown, in their order.
pub fn shown_criteria() -> (res: Vec<CriterionGroup>)
    ensures
        are_shown_criteria(res@),
{
    let mut minimum: Vec<Criterion> = Vec::new();
    minimum.push(Criterion::new("Regular text", 9));
    minimum.push(Criterion::new("Large text", 6));
    let mut enhanced: Vec<Criterion> = Vec::new();
    enhanced.push(Criterion::new("Regular text", 14));
    enhanced.push(Criterion::new("Large text", 9));
    let mut non_text: Vec<Criterion> = Vec::new();
    non_text.push(Criterion::new("UI components", 6));
    let mut groups: Vec<CriterionGroup> = Vec::new();
    groups.push(CriterionGroup { heading: "1.4.3 Contrast (Minimum) - AA", rows: minimum });
    groups.push(CriterionGroup { heading: "1.4.6 Contrast (Enhanced) - AAA", rows: enhanced });
    groups.push(CriterionGroup { heading: "1.4.11 Non-text Contrast - AA", rows: non_text });
    groups
}

/// The verdicts that are shown agree with how the ratio is graded, for text of
/// either size.
pub proof fn law_verdicts_agree_with_levels(groups: Seq<CriterionGroup>, ratio_halves: u32)
    requires
        are_shown_criteria(groups),
    ensures
        groups[0].rows@[0].passed_by(ratio_halves) <==> level_for(ratio_halves, false).rank()
            >= WcagLevel::Aa.rank(),
        groups[0].rows@[1].passed_by(ratio_halves) <==> level_for(ratio_halves, true).rank()
            >= WcagLevel::Aa.rank(),
        groups[1].rows@[0].passed_by(ratio_halves) <==> level_for(ratio_halves, false)
            == WcagLevel::Aaa,
        groups[1].rows@[1].passed_by(ratio_halves) <==> level_for(ratio_halves, true)
            == WcagLevel::Aaa,
{
}

/// A badge says "Pass", in green, exactly if the ratio reaches what its criterion
/// asks for, whatever that is called; else it says "Fail", in red. It carries the
/// name of what is asked for.
pub proof fn law_badges_say_pass_or_fail(row: Criterion, badge: Badge, ratio_halves: u32)
    requires
        row.shown_by(badge, ratio_halves),
    ensures
        badge.label == row.label,
        badge.text@ == "Pass"@ <==> ratio_halves >= row.threshold_halves,
        badge.text@ == "Fail"@ <==> ratio_halves < row.threshold_halves,
        ratio_halves >= row.threshold_halves ==> badge.color == (Rgb { r: 0x2d, g: 0x9e, b: 0x2d }),
        ratio_halves < row.threshold_halves ==> badge.color == (Rgb { r: 0xfe, g: 0x41, b: 0x1a }),
{
    reveal_strlit("Pass");
    reveal_strlit("Fail");
    assert("Pass"@[0] != "Fail"@[0]);
}

/// Of the badges that are shown for a ratio, those on regular text say "Pass" from
/// 4.5:1 on for level AA and from 7:1 on for level AAA, those on large text from
/// 3:1 and 4.5:1 on, and that on user interface components from 3:1 on. Each says
/// "Fail" below, and stands in the place of what it is about.
pub proof fn law_shown_verdicts(
    groups: Seq<CriterionGroup>,
    minimum: Seq<Badge>,
    enhanced: Seq<Badge>,
    non_text: Seq<Badge>,
    ratio_halves: u32,
)
    requires
        are_shown_criteria(groups),
        minimum.len() == groups[0].rows@.len(),
        enhanced.len() == groups[1].rows@.len(),
        non_text.len() == groups[2].rows@.len(),
        forall|i: int|
            0 <= i < minimum.len() ==> groups[0].rows@[i].shown_by(
                #[trigger] minimum[i],
                ratio_halves,
            ),
        forall|i: int|
            0 <= i < enhanced.len() ==> groups[1].rows@[i].shown_by(
                #[trigger] enhanced[i],
                ratio_halves,
            ),
        forall|i: int|
            0 <= i < non_text.len() ==> groups[2].rows@[i].shown_by(
                #[trigger] non_text[i],
                ratio_halves,
            ),
    ensures
        groups.len() == 3,
        groups[0].heading@ == "1.4.3 Contrast (Minimum) - AA"@,
        groups[1].heading@ == "1.4.6 Contrast (Enhanced) - AAA"@,
        groups[2].heading@ == "1.4.11 Non-text Contrast - AA"@,
        minimum.len() == 2 && enhanced.len() == 2 && non_text.len() == 1,
        minimum[0].label@ == "Regular text"@ && minimum[1].label@ == "Large text"@,
        enhanced[0].label@ == "Regular text"@ && enhanced[1].label@ == "Large text"@,
        non_text[0].label@ == "UI components"@,
        minimum[0].text@ == (if ratio_halves >= 9 { "Pass"@ } else { "Fail"@ }),
        minimum[1].text@ == (if ratio_halves >= 6 { "Pass"@ } else { "Fail"@ }),
        enhanced[0].text@ == (if ratio_halves >= 14 { "Pass"@ } else { "Fail"@ }),
        enhanced[1].text@ == (if ratio_halves >= 9 { "Pass"@ } else { "Fail"@ }),
        non_text[0].text@ == (if ratio_halves >= 6 { "Pass"@ } else { "Fail"@ }),
{
    law_badges_say_pass_or_fail(groups[0].rows@[0], minimum[0], ratio_halves);
    law_badges_say_pass_or_fail(groups[0].rows@[1], minimum[1], ratio_halves);
    law_badges_say_pass_or_fail(groups[1].rows@[0], enhanced[0], ratio_halves);
    law_badges_say_pass_or_fail(groups[1].rows@[1], enhanced[1], ratio_halves);
    law_badges_say_pass_or_fail(groups[2].rows@[0], non_text[0], ratio_halves);
}

} // verus!
