//! Population of the resume template: escaped personal fields and an
//! itemised education section are substituted for the `REPLACE...`
//! placeholders.

use vstd::prelude::*;
use vstd::string::*;

use crate::escape::{escape_latex, escape_seq};
use crate::models::{Education, EducationView, ResumeData, ResumeDataView};
use crate::text::{blank, is_blank, replace_all, replace_seq};

verus! {

/// One formatted education item, built from the escaped fields: the degree
/// and institution in bold, the dates right-aligned in italics, and the
/// details on a line of their own.
pub open spec fn education_entry(e: EducationView) -> Seq<char> {
    let degree = escape_seq(e.degree);
    let institution = escape_seq(e.institution);
    let dates = escape_seq(e.dates);
    let details = escape_seq(e.details);
    let head = if !is_blank(institution) && !is_blank(degree) {
        "\\item \\textbf{"@ + degree + "}"@ + " at \\textbf{"@ + institution + "}"@
    } else if !is_blank(institution) {
        "\\item \\textbf{"@ + institution + "}"@
    } else {
        "\\item \\textbf{"@ + degree + "}"@
    };
    let with_dates = if !is_blank(dates) {
        head + " \\hfill \\textit{"@ + dates + "}"@
    } else {
        head
    };
    if !is_blank(details) {
        with_dates + "\n\\\\"@ + details
    } else {
        with_dates
    }
}

/// The education items joined by newlines. An item whose degree and
/// institution are both blank is left out.
pub open spec fn education_joined(l: Seq<EducationView>) -> Seq<char>
    decreases l.len(),
{
    if l.len() == 0 {
        Seq::empty()
    } else {
        let front = education_joined(l.drop_last());
        let e = l.last();
        if is_blank(escape_seq(e.degree)) && is_blank(escape_seq(e.institution)) {
            front
        } else if front.len() == 0 {
            education_entry(e)
        } else {
            front + "\n"@ + education_entry(e)
        }
    }
}

/// The education section: the joined items, or a fixed notice when no
/// items were entered at all.
pub open spec fn education_block(l: Seq<EducationView>) -> Seq<char> {
    if l.len() == 0 {
        "\\item No education information available."@
    } else {
        education_joined(l)
    }
}

fn education_entry_str(e: &Education) -> (r: String)
    ensures
        r@ == education_entry(e@),
{
    let degree = escape_latex(e.degree.as_str());
    let institution = escape_latex(e.institution.as_str());
    let dates = escape_latex(e.dates.as_str());
    let details = escape_latex(e.details.as_str());
    let degree_blank = blank(degree.as_str());
    let institution_blank = blank(institution.as_str());
    let mut entry = String::new();
    if !institution_blank && !degree_blank {
        entry.append("\\item \\textbf{");
        entry.append(degree.as_str());
        entry.append("}");
        entry.append(" at \\textbf{");
        entry.append(institution.as_str());
        entry.append("}");
    } else if !institution_blank {
        entry.append("\\item \\textbf{");
        entry.append(institution.as_str());
        entry.append("}");
    } else {
        entry.append("\\item \\textbf{");
        entry.append(degree.as_str());
        entry.append("}");
    }
    if !blank(dates.as_str()) {
        entry.append(" \\hfill \\textit{");
        entry.append(dates.as_str());
        entry.append("}");
    }
    if !blank(details.as_str()) {
        entry.append("\n\\\\");
        entry.append(details.as_str());
    }
    proof {
        assert(entry@ =~= education_entry(e@));
    }
    entry
}

/// Builds the education section of the resume template.
pub fn education_section(list: &Vec<Education>) -> (r: String)
    ensures
        r@ == education_block(list@.map_values(|e: Education| e@)),
{
    let ghost vs = list@.map_values(|e: Education| e@);
    if list.len() == 0 {
        return String::from_str("\\item No education information available.");
    }
    let mut out = String::new();
    let mut i: usize = 0;
    proof {
        assert(vs.subrange(0, 0) =~= Seq::<EducationView>::empty());
    }
    while i < list.len()
        invariant
            i <= list.len(),
            vs == list@.map_values(|e: Education| e@),
            out@ == education_joined(vs.subrange(0, i as int)),
        decreases list.len() - i,
    {
        let e = &list[i];
        let degree = escape_latex(e.degree.as_str());
        let institution = escape_latex(e.institution.as_str());
        if !(blank(degree.as_str()) && blank(institution.as_str())) {
            if !out.as_str().is_empty() {
                out.append("\n");
            }
            let entry = education_entry_str(e);
            out.append(entry.as_str());
        }
        proof {
            assert(vs.subrange(0, i + 1 as int).drop_last() =~= vs.subrange(0, i as int));
            assert(vs.subrange(0, i + 1 as int).last() == vs[i as int]);
            assert(vs[i as int] == list@[i as int]@);
        }
        i = i + 1;
    }
    proof {
        assert(vs.subrange(0, list@.len() as int) =~= vs);
    }
    out
}

/// The whole populated document: each `REPLACE...` placeholder of the
/// template replaced by the escaped field, and `REPLACEEDUCATION` by the
/// education section.
pub open spec fn generated_latex(template: Seq<char>, d: ResumeDataView) -> Seq<char> {
    let t1 = replace_seq(template, "REPLACENAME"@, escape_seq(d.personal_info.name));
    let t2 = replace_seq(t1, "REPLACEEMAIL"@, escape_seq(d.personal_info.email));
    let t3 = replace_seq(t2, "REPLACEPHONE"@, escape_seq(d.personal_info.phone));
    let t4 = replace_seq(t3, "REPLACEWEBSITE"@, escape_seq(d.personal_info.website));
    let t5 = replace_seq(t4, "REPLACESUMMARY"@, escape_seq(d.personal_info.summary));
    replace_seq(t5, "REPLACEEDUCATION"@, education_block(d.education))
}

/// Populates the resume template with the escaped resume data.
pub fn generate_latex(template: &str, data: &ResumeData) -> (r: String)
    ensures
        r@ == generated_latex(template@, data@),
{
    proof {
        reveal_strlit("REPLACENAME");
        reveal_strlit("REPLACEEMAIL");
        reveal_strlit("REPLACEPHONE");
        reveal_strlit("REPLACEWEBSITE");
        reveal_strlit("REPLACESUMMARY");
        reveal_strlit("REPLACEEDUCATION");
    }
    let name = escape_latex(data.personal_info.name.as_str());
    let email = escape_latex(data.personal_info.email.as_str());
    let phone = escape_latex(data.personal_info.phone.as_str());
    let website = escape_latex(data.personal_info.website.as_str());
    let summary = escape_latex(data.personal_info.summary.as_str());
    let education_entries = education_section(&data.education);
    let t1 = replace_all(template, "REPLACENAME", name.as_str());
    let t2 = replace_all(t1.as_str(), "REPLACEEMAIL", email.as_str());
    let t3 = replace_all(t2.as_str(), "REPLACEPHONE", phone.as_str());
    let t4 = replace_all(t3.as_str(), "REPLACEWEBSITE", website.as_str());
    let t5 = replace_all(t4.as_str(), "REPLACESUMMARY", summary.as_str());
    replace_all(t5.as_str(), "REPLACEEDUCATION", education_entries.as_str())
}

} // verus!
