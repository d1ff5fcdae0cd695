//! The resume data model: flat records of user-entered text.

use vstd::prelude::*;

verus! {

#[derive(Clone, Debug)]
pub struct PersonalInformation {
    pub name: String,
    pub email: String,
    pub phone: String,
    pub website: String,
    pub summary: String,
}

pub struct PersonalInformationView {
    pub name: Seq<char>,
    pub email: Seq<char>,
    pub phone: Seq<char>,
    pub website: Seq<char>,
    pub summary: Seq<char>,
}

impl View for PersonalInformation {
    type V = PersonalInformationView;

    open spec fn view(&self) -> PersonalInformationView {
        PersonalInformationView {
            name: self.name@,
            email: self.email@,
            phone: self.phone@,
            website: self.website@,
            summary: self.summary@,
        }
    }
}

#[derive(Clone, Debug)]
pub struct WorkExperience {
    pub id: String,
    pub company: String,
    pub role: String,
    pub dates: String,
    pub description: String,
}

pub struct WorkExperienceView {
    pub id: Seq<char>,
    pub company: Seq<char>,
    pub role: Seq<char>,
    pub dates: Seq<char>,
    pub description: Seq<char>,
}

impl View for WorkExperience {
    type V = WorkExperienceView;

    open spec fn view(&self) -> WorkExperienceView {
        WorkExperienceView {
            id: self.id@,
            company: self.company@,
            role: self.role@,
            dates: self.dates@,
            description: self.description@,
        }
    }
}

#[derive(Clone, Debug)]
pub struct Education {
    pub id: String,
    pub institution: String,
    pub degree: String,
    pub dates: String,
    pub details: String,
}

pub struct EducationView {
    pub id: Seq<char>,
    pub institution: Seq<char>,
    pub degree: Seq<char>,
    pub dates: Seq<char>,
    pub details: Seq<char>,
}

impl View for Education {
    type V = EducationView;

    open spec fn view(&self) -> EducationView {
        EducationView {
            id: self.id@,
            institution: self.institution@,
            degree: self.degree@,
            dates: self.dates@,
            details: self.details@,
        }
    }
}

#[derive(Clone, Debug)]
pub struct Skill {
    pub id: String,
    pub name: String,
}

pub struct SkillView {
    pub id: Seq<char>,
    pub name: Seq<char>,
}

impl View for Skill {
    type V = SkillView;

    open spec fn view(&self) -> SkillView {
        SkillView { id: self.id@, name: self.name@ }
    }
}

#[derive(Clone, Debug)]
pub struct ResumeData {
    pub personal_info: PersonalInformation,
    pub work_experience: Vec<WorkExperience>,
    pub education: Vec<Education>,
    pub skills: Vec<Skill>,
}

pub struct ResumeDataView {
    pub personal_info: PersonalInformationView,
    pub work_experience: Seq<WorkExperienceView>,
    pub education: Seq<EducationView>,
    pub skills: Seq<SkillView>,
}

impl View for ResumeData {
    type V = ResumeDataView;

    open spec fn view(&self) -> ResumeDataView {
        ResumeDataView {
            personal_info: self.personal_info@,
            work_experience: self.work_experience@.map_values(|w: WorkExperience| w@),
            education: self.education@.map_values(|e: Education| e@),
            skills: self.skills@.map_values(|s: Skill| s@),
        }
    }
}

} // verus!
