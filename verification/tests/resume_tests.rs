use resume_builder::populate_template;
use resume_builder::resume::{education_items, skills_section, Education, PersonalInfo, SkillCategory};

fn education(school: &str, location: &str, date: &str, degree: &str, coursework: &str) -> Education {
    Education {
        school: String::from(school),
        location: String::from(location),
        date: String::from(date),
        degree: String::from(degree),
        coursework: String::from(coursework),
    }
}

fn skill(name: &str, skills: &str) -> SkillCategory {
    SkillCategory { name: String::from(name), skills: String::from(skills) }
}

fn personal() -> PersonalInfo {
    PersonalInfo {
        name: String::from("Jo"),
        email: String::from("jo@example.com"),
        linkedin: String::from("jo-linked"),
        github: String::from("jo-hub"),
        website: String::from("example.com"),
        summary: String::from("A summary"),
    }
}

#[test]
fn education_items_empty_list() {
    assert_eq!(education_items(&Vec::new()), "% No education entries provided");
}

#[test]
fn education_items_single_entry() {
    let list = vec![education("MIT", "MA", "2020", "BSc", "Math")];
    assert_eq!(
        education_items(&list),
        "\\resumeEducationHeading\n      {MIT}{MA $|$ 2020}\n      \
         {BSc\\footnotesize{}}{\\textbf{Relevant Coursework:} Math}"
    );
}

#[test]
fn education_items_joined_with_indentation() {
    let list = vec![
        education("MIT", "MA", "2020", "BSc", "Math"),
        education("CMU", "PA", "2022", "MSc", "Systems"),
    ];
    assert_eq!(
        education_items(&list),
        "\\resumeEducationHeading\n      {MIT}{MA $|$ 2020}\n      \
         {BSc\\footnotesize{}}{\\textbf{Relevant Coursework:} Math}\n    \
         \\resumeEducationHeading\n      {CMU}{PA $|$ 2022}\n      \
         {MSc\\footnotesize{}}{\\textbf{Relevant Coursework:} Systems}"
    );
}

#[test]
fn skills_section_empty_list() {
    assert_eq!(skills_section(&Vec::new()), "% No skills entries provided");
}

#[test]
fn skills_section_single_category() {
    let list = vec![skill("Languages", "Rust, **C**")];
    assert_eq!(skills_section(&list), "\\textbf{Languages:} Rust, \\textbf{C}");
}

#[test]
fn skills_section_gap_after_every_line_but_the_last() {
    let list = vec![skill("A", "x"), skill("B", "y")];
    assert_eq!(skills_section(&list), "\\textbf{A:} x\\\\[2pt]\n      \\textbf{B:} y");
}

#[test]
fn populate_template_fills_every_placeholder() {
    let template = "__NAME__|__EMAIL__|__LINKEDIN__|__GITHUB__|__WEBSITE__|__SUMMARY__\n\
                    __EDUCATION_LIST_ITEM__\n__SKILLS__";
    let result = populate_template(template, &personal(), &Vec::new(), &Vec::new());
    assert_eq!(
        result,
        "Jo|jo@example.com|jo-linked|jo-hub|example.com|A summary\n\
         % No education entries provided\n% No skills entries provided"
    );
}

#[test]
fn populate_template_does_not_escape_fields() {
    let mut info = personal();
    info.name = String::from("A & B_C");
    let result = populate_template("__NAME__", &info, &Vec::new(), &Vec::new());
    assert_eq!(result, "A & B_C");
}

#[test]
fn populate_template_fills_sections() {
    let template = "Edu:\n__EDUCATION_LIST_ITEM__\nSkills:\n__SKILLS__";
    let list = vec![education("MIT", "MA", "2020", "BSc", "Math")];
    let skills = vec![skill("Tools", "**git**, make")];
    let result = populate_template(template, &personal(), &list, &skills);
    assert_eq!(
        result,
        "Edu:\n\\resumeEducationHeading\n      {MIT}{MA $|$ 2020}\n      \
         {BSc\\footnotesize{}}{\\textbf{Relevant Coursework:} Math}\n\
         Skills:\n\\textbf{Tools:} \\textbf{git}, make"
    );
}
