//! Population of the heading-style resume template: education headings,
//! skill lines with markdown bold converted to LaTeX bold, and the
//! `__NAME__`-style placeholders.

use vstd::prelude::*;
use vstd::string::*;

use crate::text::{replace_all, replace_seq};

verus! {

#[derive(Clone, Debug)]
pub struct PersonalInfo {
    pub name: String,
    pub email: String,
    pub linkedin: String,
    pub github: String,
    pub website: String,
    pub summary: String,
}

pub struct PersonalInfoView {
    pub name: Seq<char>,
    pub email: Seq<char>,
    pub linkedin: Seq<char>,
    pub github: Seq<char>,
    pub website: Seq<char>,
    pub summary: Seq<char>,
}

impl View for PersonalInfo {
    type V = PersonalInfoView;

    open spec fn view(&self) -> PersonalInfoView {
        PersonalInfoView {
            name: self.name@,
            email: self.email@,
            linkedin: self.linkedin@,
            github: self.github@,
            website: self.website@,
            summary: self.summary@,
        }
    }
}

#[derive(Clone, Debug)]
pub struct Education {
    pub school: String,
    pub location: String,
    pub date: String,
    pub degree: String,
    pub coursework: String,
}

pub struct EducationView {
    pub school: Seq<char>,
    pub location: Seq<char>,
    pub date: Seq<char>,
    pub degree: Seq<char>,
    pub coursework: Seq<char>,
}

impl View for Education {
    type V = EducationView;

    open spec fn view(&self) -> EducationView {
        EducationView {
            school: self.school@,
            location: self.location@,
            date: self.date@,
            degree: self.degree@,
            coursework: self.coursework@,
        }
    }
}

#[derive(Clone, Debug)]
pub struct SkillCategory {
    pub name: String,
    pub skills: String,
}

pub struct SkillCategoryView {
    pub name: Seq<char>,
    pub skills: Seq<char>,
}

impl View for SkillCategory {
    type V = SkillCategoryView;

    open spec fn view(&self) -> SkillCategoryView {
        SkillCategoryView { name: self.name@, skills: self.skills@ }
    }
}

/// Markdown bold rewritten as LaTeX bold: the text is cut at each
/// `**` marker, and every second piece is wrapped in `\textbf{...}`.
/// `inside` says whether the scan stands inside such a piece; a piece
/// still open at the end of the text is closed.
pub open spec fn bold_converted(s: Seq<char>, inside: bool) -> Seq<char>
    decreases s.len(),
{
    if s.len() >= 2 && s[0] == '*' && s[1] == '*' {
        (if inside {
            "}"@
        } else {
            "\\textbf{"@
        }) + bold_converted(s.skip(2), !inside)
    } else if s.len() == 0 {
        if inside {
            "}"@
        } else {
            Seq::empty()
        }
    } else {
        seq![s[0]] + bold_converted(s.skip(1), inside)
    }
}

/// Rewrites every `**bold**` span of `s` as `\textbf{bold}`.
pub fn convert_bold(s: &str) -> (r: String)
    ensures
        r@ == bold_converted(s@, false),
{
    let n: usize = s.unicode_len();
    let mut out = String::new();
    let mut inside = false;
    let mut i: usize = 0;
    proof {
        assert(s@.skip(0) =~= s@);
        assert(out@ + bold_converted(s@, false) =~= bold_converted(s@, false));
    }
    while i < n
        invariant
            i <= n,
            n == s@.len(),
            bold_converted(s@, false) == out@ + bold_converted(s@.skip(i as int), inside),
        decreases n - i,
    {
        if i + 1 < n && s.get_char(i) == '*' && s.get_char(i + 1) == '*' {
            if inside {
                out.append("}");
            } else {
                out.append("\\textbf{");
            }
            proof {
                assert(s@.skip(i as int)[0] == s@[i as int]);
                assert(s@.skip(i as int)[1] == s@[i + 1 as int]);
                assert(s@.skip(i as int).skip(2) =~= s@.skip(i + 2));
            }
            inside = !inside;
            i = i + 2;
        } else {
            let piece = s.substring_char(i, i + 1);
            out.append(piece);
            proof {
                assert(piece@ =~= seq![s@[i as int]]);
                assert(s@.skip(i as int)[0] == s@[i as int]);
                assert(s@.skip(i as int).skip(1) =~= s@.skip(i + 1));
                if i + 1 < n {
                    assert(s@.skip(i as int)[1] == s@[i + 1 as int]);
                }
            }
            i = i + 1;
        }
    }
    if inside {
        out.append("}");
    }
    proof {
        assert(s@.skip(n as int) =~= Seq::<char>::empty());
    }
    out
}

/// One education heading: school, location and date on the first line,
/// degree and coursework on the second.
pub open spec fn education_heading(e: EducationView) -> Seq<char> {
    "\\resumeEducationHeading\n      {"@ + e.school + "}{"@ + e.location + " $|$ "@ + e.date
        + "}\n      {"@ + e.degree + "\\footnotesize{}}{\\textbf{Relevant Coursework:} "@
        + e.coursework + "}"@
}

/// The education headings joined by a newline and indentation.
pub open spec fn education_list(l: Seq<EducationView>) -> Seq<char>
    decreases l.len(),
{
    if l.len() == 0 {
        Seq::empty()
    } else if l.len() == 1 {
        education_heading(l[0])
    } else {
        education_list(l.drop_last()) + "\n    "@ + education_heading(l.last())
    }
}

/// The education part of the template: the joined headings, or a comment
/// when no entries were provided.
pub open spec fn education_latex(l: Seq<EducationView>) -> Seq<char> {
    if l.len() == 0 {
        "% No education entries provided"@
    } else {
        education_list(l)
    }
}

fn education_heading_str(e: &Education) -> (r: String)
    ensures
        r@ == education_heading(e@),
{
    let mut line = String::new();
    line.append("\\resumeEducationHeading\n      {");
    line.append(e.school.as_str());
    line.append("}{");
    line.append(e.location.as_str());
    line.append(" $|$ ");
    line.append(e.date.as_str());
    line.append("}\n      {");
    line.append(e.degree.as_str());
    line.append("\\footnotesize{}}{\\textbf{Relevant Coursework:} ");
    line.append(e.coursework.as_str());
    line.append("}");
    proof {
        assert(line@ =~= education_heading(e@));
    }
    line
}

/// Builds the education part of the heading-style template.
pub fn education_items(list: &Vec<Education>) -> (r: String)
    ensures
        r@ == education_latex(list@.map_values(|e: Education| e@)),
{
    let ghost vs = list@.map_values(|e: Education| e@);
    if list.len() == 0 {
        return String::from_str("% No education entries provided");
    }
    let mut out = education_heading_str(&list[0]);
    let mut i: usize = 1;
    proof {
        assert(vs.subrange(0, 1)[0] == vs[0]);
        assert(vs.subrange(0, 1).len() == 1);
        assert(vs[0] == list@[0]@);
    }
    while i < list.len()
        invariant
            1 <= i <= list.len(),
            vs == list@.map_values(|e: Education| e@),
            out@ == education_list(vs.subrange(0, i as int)),
        decreases list.len() - i,
    {
        out.append("\n    ");
        let line = education_heading_str(&list[i]);
        out.append(line.as_str());
        proof {
            assert(vs.subrange(0, i + 1 as int).drop_last() =~= vs.subrange(0, i as int));
            assert(vs.subrange(0, i + 1 as int).last() == vs[i as int]);
            assert(vs[i as int] == list@[i as int]@);
        }
        i = i + 1;
    }
    proof {
        assert(vs.subrange(0, list@.len() as int) =~= vs);
    }
    out
}

/// One skill line: the category name in bold, then the skills with
/// markdown bold converted; every line but the last ends with a small
/// vertical gap.
pub open spec fn skill_line(s: SkillCategoryView, last: bool) -> Seq<char> {
    "\\textbf{"@ + s.name + ":} "@ + bold_converted(s.skills, false) + (if last {
        Seq::<char>::empty()
    } else {
        "\\\\[2pt]"@
    })
}

/// The skill lines before the last one, each followed by a newline and
/// indentation.
pub open spec fn skills_front(l: Seq<SkillCategoryView>) -> Seq<char>
    decreases l.len(),
{
    if l.len() == 0 {
        Seq::empty()
    } else {
        skills_front(l.drop_last()) + skill_line(l.last(), false) + "\n      "@
    }
}

/// The skills part of the template: all skill lines joined, or a comment
/// when no entries were provided.
pub open spec fn skills_latex(l: Seq<SkillCategoryView>) -> Seq<char> {
    if l.len() == 0 {
        "% No skills entries provided"@
    } else {
        skills_front(l.drop_last()) + skill_line(l.last(), true)
    }
}

fn skill_line_str(s: &SkillCategory, last: bool) -> (r: String)
    ensures
        r@ == skill_line(s@, last),
{
    let mut line = String::new();
    line.append("\\textbf{");
    line.append(s.name.as_str());
    line.append(":} ");
    let converted = convert_bold(s.skills.as_str());
    line.append(converted.as_str());
    if !last {
        line.append("\\\\[2pt]");
    }
    proof {
        assert(line@ =~= skill_line(s@, last));
    }
    line
}

/// Builds the skills part of the heading-style template.
pub fn skills_section(list: &Vec<SkillCategory>) -> (r: String)
    ensures
        r@ == skills_latex(list@.map_values(|s: SkillCategory| s@)),
{
    let ghost vs = list@.map_values(|s: SkillCategory| s@);
    if list.len() == 0 {
        return String::from_str("% No skills entries provided");
    }
    let n: usize = list.len();
    let mut out = String::new();
    let mut i: usize = 0;
    proof {
        assert(vs.subrange(0, 0) =~= Seq::<SkillCategoryView>::empty());
    }
    while i < n - 1
        invariant
            i <= n - 1,
            1 <= n == list.len(),
            vs == list@.map_values(|s: SkillCategory| s@),
            out@ == skills_front(vs.subrange(0, i as int)),
        decreases n - 1 - i,
    {
        let line = skill_line_str(&list[i], false);
        out.append(line.as_str());
        out.append("\n      ");
        proof {
            assert(vs.subrange(0, i + 1 as int).drop_last() =~= vs.subrange(0, i as int));
            assert(vs.subrange(0, i + 1 as int).last() == vs[i as int]);
            assert(vs[i as int] == list@[i as int]@);
        }
        i = i + 1;
    }
    let line = skill_line_str(&list[n - 1], true);
    out.append(line.as_str());
    proof {
        assert(vs.drop_last() =~= vs.subrange(0, n - 1 as int));
        assert(vs.last() == vs[n - 1 as int]);
        assert(vs[n - 1 as int] == list@[n - 1 as int]@);
    }
    out
}

/// The whole populated document: each `__...__` placeholder of the
/// template replaced by the matching field or generated section.
pub open spec fn populated_template(
    template: Seq<char>,
    p: PersonalInfoView,
    education: Seq<EducationView>,
    skills: Seq<SkillCategoryView>,
) -> Seq<char> {
    let t1 = replace_seq(template, "__NAME__"@, p.name);
    let t2 = replace_seq(t1, "__EMAIL__"@, p.email);
    let t3 = replace_seq(t2, "__LINKEDIN__"@, p.linkedin);
    let t4 = replace_seq(t3, "__GITHUB__"@, p.github);
    let t5 = replace_seq(t4, "__WEBSITE__"@, p.website);
    let t6 = replace_seq(t5, "__SUMMARY__"@, p.summary);
    let t7 = replace_seq(t6, "__EDUCATION_LIST_ITEM__"@, education_latex(education));
    replace_seq(t7, "__SKILLS__"@, skills_latex(skills))
}

/// Populates the heading-style resume template with the given data.
pub fn populate_template(
    template: &str,
    personal_info: &PersonalInfo,
    education: &Vec<Education>,
    skills: &Vec<SkillCategory>,
) -> (r: String)
    ensures
        r@ == populated_template(
            template@,
            personal_info@,
            education@.map_values(|e: Education| e@),
            skills@.map_values(|s: SkillCategory| s@),
        ),
{
    proof {
        reveal_strlit("__NAME__");
        reveal_strlit("__EMAIL__");
        reveal_strlit("__LINKEDIN__");
        reveal_strlit("__GITHUB__");
        reveal_strlit("__WEBSITE__");
        reveal_strlit("__SUMMARY__");
        reveal_strlit("__EDUCATION_LIST_ITEM__");
        reveal_strlit("__SKILLS__");
    }
    let education_part = education_items(education);
    let skills_part = skills_section(skills);
    let t1 = replace_all(template, "__NAME__", personal_info.name.as_str());
    let t2 = replace_all(t1.as_str(), "__EMAIL__", personal_info.email.as_str());
    let t3 = replace_all(t2.as_str(), "__LINKEDIN__", personal_info.linkedin.as_str());
    let t4 = replace_all(t3.as_str(), "__GITHUB__", personal_info.github.as_str());
    let t5 = replace_all(t4.as_str(), "__WEBSITE__", personal_info.website.as_str());
    let t6 = replace_all(t5.as_str(), "__SUMMARY__", personal_info.summary.as_str());
    let t7 = replace_all(t6.as_str(), "__EDUCATION_LIST_ITEM__", education_part.as_str());
    replace_all(t7.as_str(), "__SKILLS__", skills_part.as_str())
}

} // verus!
