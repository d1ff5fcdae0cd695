use resume_builder::generate_latex;
use resume_builder::latex::education_section;
use resume_builder::models::{Education, PersonalInformation, ResumeData};

fn education(institution: &str, degree: &str, dates: &str, details: &str) -> Education {
    Education {
        id: String::from("1"),
        institution: String::from(institution),
        degree: String::from(degree),
        dates: String::from(dates),
        details: String::from(details),
    }
}

fn personal(name: &str) -> PersonalInformation {
    PersonalInformation {
        name: String::from(name),
        email: String::from("jo@example.com"),
        phone: String::from("555-0100"),
        website: String::from("example.com"),
        summary: String::from("A summary"),
    }
}

#[test]
fn education_section_empty_list() {
    assert_eq!(
        education_section(&Vec::new()),
        "\\item No education information available."
    );
}

#[test]
fn education_section_full_entry() {
    let list = vec![education("MIT", "BSc", "2020", "Honors")];
    assert_eq!(
        education_section(&list),
        "\\item \\textbf{BSc} at \\textbf{MIT} \\hfill \\textit{2020}\n\\\\Honors"
    );
}

#[test]
fn education_section_institution_only() {
    let list = vec![education("MIT", "  ", "", "")];
    assert_eq!(education_section(&list), "\\item \\textbf{MIT}");
}

#[test]
fn education_section_degree_only() {
    let list = vec![education("", "BSc", "", "")];
    assert_eq!(education_section(&list), "\\item \\textbf{BSc}");
}

#[test]
fn education_section_skips_blank_entries() {
    let list = vec![education(" ", "\t", "2019", "ignored"), education("MIT", "BSc", "", "")];
    assert_eq!(education_section(&list), "\\item \\textbf{BSc} at \\textbf{MIT}");
}

#[test]
fn education_section_joins_entries_with_newline() {
    let list = vec![education("MIT", "BSc", "", ""), education("CMU", "MSc", "", "")];
    assert_eq!(
        education_section(&list),
        "\\item \\textbf{BSc} at \\textbf{MIT}\n\\item \\textbf{MSc} at \\textbf{CMU}"
    );
}

#[test]
fn education_section_escapes_fields() {
    let list = vec![education("A&M", "B_Sc", "", "")];
    assert_eq!(education_section(&list), "\\item \\textbf{B\\_Sc} at \\textbf{A\\&M}");
}

#[test]
fn generate_latex_replaces_placeholders() {
    let data = ResumeData {
        personal_info: personal("A & B"),
        work_experience: Vec::new(),
        education: Vec::new(),
        skills: Vec::new(),
    };
    let template = "Name: REPLACENAME\nEdu:\nREPLACEEDUCATION";
    assert_eq!(
        generate_latex(template, &data),
        "Name: A \\& B\nEdu:\n\\item No education information available."
    );
}

#[test]
fn generate_latex_replaces_all_personal_fields() {
    let data = ResumeData {
        personal_info: PersonalInformation {
            name: String::from("Jo"),
            email: String::from("jo@example.com"),
            phone: String::from("555-0100"),
            website: String::from("example.com"),
            summary: String::from("100% dedicated"),
        },
        work_experience: Vec::new(),
        education: vec![education("MIT", "BSc", "", "")],
        skills: Vec::new(),
    };
    let template =
        "REPLACENAME/REPLACEEMAIL/REPLACEPHONE/REPLACEWEBSITE/REPLACESUMMARY\nREPLACEEDUCATION";
    assert_eq!(
        generate_latex(template, &data),
        "Jo/jo@example.com/555-0100/example.com/100\\% dedicated\n\\item \\textbf{BSc} at \\textbf{MIT}"
    );
}

#[test]
fn generate_latex_leaves_other_text_alone() {
    let data = ResumeData {
        personal_info: personal("Jo"),
        work_experience: Vec::new(),
        education: Vec::new(),
        skills: Vec::new(),
    };
    let template = "\\documentclass{article} nothing to fill";
    assert_eq!(generate_latex(template, &data), "\\documentclass{article} nothing to fill");
}

#[test]
fn generate_latex_replaces_repeated_placeholder() {
    let data = ResumeData {
        personal_info: personal("Jo"),
        work_experience: Vec::new(),
        education: Vec::new(),
        skills: Vec::new(),
    };
    let template = "REPLACENAME and REPLACENAME";
    assert_eq!(generate_latex(template, &data), "Jo and Jo");
}

#[test]
fn generate_latex_later_replacement_sees_earlier_insertion() {
    let data = ResumeData {
        personal_info: PersonalInformation {
            name: String::from("REPLACEEMAIL"),
            email: String::from("jo@example.com"),
            phone: String::from(""),
            website: String::from(""),
            summary: String::from(""),
        },
        work_experience: Vec::new(),
        education: Vec::new(),
        skills: Vec::new(),
    };
    assert_eq!(generate_latex("REPLACENAME", &data), "jo@example.com");
}

#[test]
fn education_section_treats_unicode_whitespace_as_blank() {
    let list = vec![education("\u{00A0}", "\u{2003}", "2019", "ignored")];
    assert_eq!(education_section(&list), "");
}
