//! Personnel tables for social-engineering awareness exercises: what each
//! role can reach and which pretexts it is exposed to, the high-value roles of
//! an organisation, and the yield report of a campaign.

use vstd::prelude::*;
use crate::json::{decimal, push_decimal};
use crate::text::{push_str, same_text, string_from, views};

verus! {

broadcast use vstd::string::group_string_axioms;

/// What a role can reach and which pretexts it is exposed to.
pub struct PersonnelProfile {
    /// Job title.
    pub job_title: String,
    /// Department.
    pub department: String,
    /// Level of responsibility.
    pub responsibility_level: String,
    /// What the role can reach.
    pub likely_access: Vec<String>,
    /// What makes the role susceptible to pretexting.
    pub vulnerability_factors: Vec<String>,
    /// Where the role is visible publicly.
    pub social_network_presence: Vec<String>,
    /// Pretexts the role responds to.
    pub motivation_levers: Vec<String>,
}

/// The content of a [`PersonnelProfile`].
#[verifier::ext_equal]
pub struct PersonnelProfileView {
    pub job_title: Seq<char>,
    pub department: Seq<char>,
    pub responsibility_level: Seq<char>,
    pub likely_access: Seq<Seq<char>>,
    pub vulnerability_factors: Seq<Seq<char>>,
    pub social_network_presence: Seq<Seq<char>>,
    pub motivation_levers: Seq<Seq<char>>,
}

impl View for PersonnelProfile {
    type V = PersonnelProfileView;

    open spec fn view(&self) -> PersonnelProfileView {
        PersonnelProfileView {
            job_title: self.job_title@,
            department: self.department@,
            responsibility_level: self.responsibility_level@,
            likely_access: views(self.likely_access@),
            vulnerability_factors: views(self.vulnerability_factors@),
            social_network_presence: views(self.social_network_presence@),
            motivation_levers: views(self.motivation_levers@),
        }
    }
}

/// The profile of `role` in `department`; an unknown pair gets the generic profile, naming the department.
pub open spec fn personnel_profile(department: Seq<char>, role: Seq<char>) -> PersonnelProfileView {
    if department == "IT"@ && role == "Administrator"@ {
        PersonnelProfileView {
            job_title: "System Administrator"@,
            department: "IT"@,
            responsibility_level: "High"@,
            likely_access: seq![
                "Domain admin credentials"@,
                "Email systems"@,
                "File servers"@,
                "VPN access"@,
                "Backup systems"@,
            ],
            vulnerability_factors: seq![
                "Credential reuse"@,
                "Password managers"@,
                "Sticky notes"@,
                "Shared credentials"@,
                "Emergency access procedures"@,
            ],
            social_network_presence: seq![
                "LinkedIn (technical details)"@,
                "GitHub (code/repos)"@,
                "Technical blogs"@,
            ],
            motivation_levers: seq![
                "System outages"@,
                "Security alerts"@,
                "Employee onboarding"@,
                "Compliance issues"@,
            ],
        }
    } else if department == "Finance"@ && role == "Accountant"@ {
        PersonnelProfileView {
            job_title: "Accountant"@,
            department: "Finance"@,
            responsibility_level: "Medium"@,
            likely_access: seq![
                "Financial systems"@,
                "Banking portals"@,
                "Wire transfer authority"@,
                "Vendor databases"@,
            ],
            vulnerability_factors: seq![
                "Process-driven (predictable)"@,
                "High email volume"@,
                "Time pressure (month-end)"@,
                "Legitimate money movement"@,
            ],
            social_network_presence: seq![
                "LinkedIn"@,
                "Professional networks"@,
            ],
            motivation_levers: seq![
                "Urgent vendor payment"@,
                "Compliance deadline"@,
                "Executive request"@,
                "Banking authority issues"@,
            ],
        }
    } else if department == "HR"@ && role == "Manager"@ {
        PersonnelProfileView {
            job_title: "HR Manager"@,
            department: "HR"@,
            responsibility_level: "Medium-High"@,
            likely_access: seq![
                "Employee database"@,
                "Salary information"@,
                "Personal details (SSN, etc)"@,
                "Executive contacts"@,
            ],
            vulnerability_factors: seq![
                "Empathy/concern for employees"@,
                "Assistance mindset"@,
                "Legitimate employee requests"@,
            ],
            social_network_presence: seq![
                "LinkedIn"@,
                "Facebook (personal)"@,
            ],
            motivation_levers: seq![
                "Employee emergency"@,
                "Compliance/legal issue"@,
                "Executive request"@,
            ],
        }
    } else if department == "Executive"@ && role == "C-Level"@ {
        PersonnelProfileView {
            job_title: "Executive"@,
            department: "Executive"@,
            responsibility_level: "Very High"@,
            likely_access: seq![
                "Strategic plans"@,
                "M&A information"@,
                "Board communications"@,
                "Financial data"@,
                "Legal agreements"@,
            ],
            vulnerability_factors: seq![
                "Trusted relationships"@,
                "Delegation authority"@,
                "Limited technical knowledge"@,
                "Time constraints"@,
            ],
            social_network_presence: seq![
                "LinkedIn (public profile)"@,
                "News articles"@,
                "Company announcements"@,
            ],
            motivation_levers: seq![
                "Board/investor communications"@,
                "Urgent business matter"@,
                "Legal/regulatory issue"@,
                "Trusted advisor request"@,
            ],
        }
    } else {
        PersonnelProfileView {
            job_title: "Generic Role"@,
            department: department,
            responsibility_level: "Medium"@,
            likely_access: seq![
                "General system access"@,
            ],
            vulnerability_factors: seq![
                "Generic vulnerabilities"@,
            ],
            social_network_presence: seq![
                "Social networks"@,
            ],
            motivation_levers: seq![
                "Legitimate requests"@,
            ],
        }
    }
}

/// The high-value roles of organisation `org`.
pub open spec fn high_value_targets(org: Seq<char>) -> Seq<Seq<char>> {
    seq![
        "CEO/President of "@ + org + " - highest access"@,
        "CTO/IT Director - system access"@,
        "CFO - financial systems"@,
        "Security Officer - security knowledge"@,
        "System Administrators - domain control"@,
        "Finance Team - wire transfer capability"@,
        "HR Director - personnel data"@,
        "Legal Counsel - sensitive documents"@,
    ]
}

/// The yield report of a campaign expected to compromise `harvest` accounts,
/// two credentials each, after about 500 hours of work; `cost` is the cost per
/// credential in dollars, as printed with two decimals.
pub open spec fn roi_text(harvest: nat, cost: Seq<char>) -> Seq<char> {
    "=== Social Engineering Campaign ROI ===\n\n"@ + "Estimated credential harvest: "@ + decimal(harvest * 2)
        + "\n"@ + "Time investment: ~500 hours\n"@ + "Cost per credential: $"@ + cost + "\n\n"@
        + "Derived capabilities:\n"@ + "  • Valid credentials: "@ + decimal(harvest * 2) + "\n"@
        + "  • Compromised accounts: "@ + decimal(harvest) + "\n"@ + "  • Network access points: "@
        + decimal(harvest / 5) + "\n"@ + "  • Lateral movement paths: "@ + decimal(harvest / 3) + "\n"@
}

/// Plans social-engineering awareness exercises.
pub struct SocialEngineer;

impl SocialEngineer {
    /// The profile of `role` in `department` (IT administrator, finance
    /// accountant, HR manager, C-level executive); any other pair gets the
    /// generic profile, which names the department. Never fails.
    pub fn analyze_target_personnel(&self, department: &str, role: &str) -> (r: Result<PersonnelProfile, String>)
        ensures
            r matches Ok(p) && p@ == personnel_profile(department@, role@) && p@.likely_access.len() > 0,
    {
        if same_text(department, "IT") && same_text(role, "Administrator") {
            let r = PersonnelProfile {
                job_title: string_from("System Administrator"),
                department: string_from("IT"),
                responsibility_level: string_from("High"),
                likely_access: vec![
                    string_from("Domain admin credentials"),
                    string_from("Email systems"),
                    string_from("File servers"),
                    string_from("VPN access"),
                    string_from("Backup systems"),
                ],
                vulnerability_factors: vec![
                    string_from("Credential reuse"),
                    string_from("Password managers"),
                    string_from("Sticky notes"),
                    string_from("Shared credentials"),
                    string_from("Emergency access procedures"),
                ],
                social_network_presence: vec![
                    string_from("LinkedIn (technical details)"),
                    string_from("GitHub (code/repos)"),
                    string_from("Technical blogs"),
                ],
                motivation_levers: vec![
                    string_from("System outages"),
                    string_from("Security alerts"),
                    string_from("Employee onboarding"),
                    string_from("Compliance issues"),
                ],
            };
            assert(r@ =~~= personnel_profile(department@, role@));
            Ok(r)
        } else if same_text(department, "Finance") && same_text(role, "Accountant") {
            let r = PersonnelProfile {
                job_title: string_from("Accountant"),
                department: string_from("Finance"),
                responsibility_level: string_from("Medium"),
                likely_access: vec![
                    string_from("Financial systems"),
                    string_from("Banking portals"),
                    string_from("Wire transfer authority"),
                    string_from("Vendor databases"),
                ],
                vulnerability_factors: vec![
                    string_from("Process-driven (predictable)"),
                    string_from("High email volume"),
                    string_from("Time pressure (month-end)"),
                    string_from("Legitimate money movement"),
                ],
                social_network_presence: vec![
                    string_from("LinkedIn"),
                    string_from("Professional networks"),
                ],
                motivation_levers: vec![
                    string_from("Urgent vendor payment"),
                    string_from("Compliance deadline"),
                    string_from("Executive request"),
                    string_from("Banking authority issues"),
                ],
            };
            assert(r@ =~~= personnel_profile(department@, role@));
            Ok(r)
        } else if same_text(department, "HR") && same_text(role, "Manager") {
            let r = PersonnelProfile {
                job_title: string_from("HR Manager"),
                department: string_from("HR"),
                responsibility_level: string_from("Medium-High"),
                likely_access: vec![
                    string_from("Employee database"),
                    string_from("Salary information"),
                    string_from("Personal details (SSN, etc)"),
                    string_from("Executive contacts"),
                ],
                vulnerability_factors: vec![
                    string_from("Empathy/concern for employees"),
                    string_from("Assistance mindset"),
                    string_from("Legitimate employee requests"),
                ],
                social_network_presence: vec![
                    string_from("LinkedIn"),
                    string_from("Facebook (personal)"),
                ],
                motivation_levers: vec![
                    string_from("Employee emergency"),
                    string_from("Compliance/legal issue"),
                    string_from("Executive request"),
                ],
            };
            assert(r@ =~~= personnel_profile(department@, role@));
            Ok(r)
        } else if same_text(department, "Executive") && same_text(role, "C-Level") {
            let r = PersonnelProfile {
                job_title: string_from("Executive"),
                department: string_from("Executive"),
                responsibility_level: string_from("Very High"),
                likely_access: vec![
                    string_from("Strategic plans"),
                    string_from("M&A information"),
                    string_from("Board communications"),
                    string_from("Financial data"),
                    string_from("Legal agreements"),
                ],
                vulnerability_factors: vec![
                    string_from("Trusted relationships"),
                    string_from("Delegation authority"),
                    string_from("Limited technical knowledge"),
                    string_from("Time constraints"),
                ],
                social_network_presence: vec![
                    string_from("LinkedIn (public profile)"),
                    string_from("News articles"),
                    string_from("Company announcements"),
                ],
                motivation_levers: vec![
                    string_from("Board/investor communications"),
                    string_from("Urgent business matter"),
                    string_from("Legal/regulatory issue"),
                    string_from("Trusted advisor request"),
                ],
            };
            assert(r@ =~~= personnel_profile(department@, role@));
            Ok(r)
        } else {
            let r = PersonnelProfile {
                job_title: string_from("Generic Role"),
                department: string_from(department),
                responsibility_level: string_from("Medium"),
                likely_access: vec![
                    string_from("General system access"),
                ],
                vulnerability_factors: vec![
                    string_from("Generic vulnerabilities"),
                ],
                social_network_presence: vec![
                    string_from("Social networks"),
                ],
                motivation_levers: vec![
                    string_from("Legitimate requests"),
                ],
            };
            assert(r@ =~~= personnel_profile(department@, role@));
            Ok(r)
        }
    }

    /// The high-value roles of organisation `org`. Never fails.
    pub fn identify_high_value_targets(&self, org: &str) -> (r: Result<Vec<String>, String>)
        ensures
            r matches Ok(v) && views(v@) == high_value_targets(org@),
    {
        let mut first = string_from("CEO/President of ");
        push_str(&mut first, org);
        push_str(&mut first, " - highest access");
        let v = vec![
            first,
            string_from("CTO/IT Director - system access"),
            string_from("CFO - financial systems"),
            string_from("Security Officer - security knowledge"),
            string_from("System Administrators - domain control"),
            string_from("Finance Team - wire transfer capability"),
            string_from("HR Director - personnel data"),
            string_from("Legal Counsel - sensitive documents"),
        ];
        assert(views(v@) =~= high_value_targets(org@));
        Ok(v)
    }

    /// The yield report of a campaign expected to compromise
    /// `estimated_harvest` accounts, two credentials each; the cost per
    /// credential, a floating-point quotient, is handed in already printed.
    /// Never fails.
    pub fn calculate_roi(&self, estimated_harvest: usize, cost_per_credential: &str) -> (r: Result<String, String>)
        requires
            estimated_harvest <= usize::MAX / 2,
        ensures
            r matches Ok(s) && s@ == roi_text(estimated_harvest as nat, cost_per_credential@),
    {
        let total = estimated_harvest * 2;
        let mut s = string_from("=== Social Engineering Campaign ROI ===\n\n");
        push_str(&mut s, "Estimated credential harvest: ");
        push_decimal(&mut s, total);
        push_str(&mut s, "\n");
        push_str(&mut s, "Time investment: ~500 hours\n");
        push_str(&mut s, "Cost per credential: $");
        push_str(&mut s, cost_per_credential);
        push_str(&mut s, "\n\n");
        push_str(&mut s, "Derived capabilities:\n");
        push_str(&mut s, "  • Valid credentials: ");
        push_decimal(&mut s, total);
        push_str(&mut s, "\n");
        push_str(&mut s, "  • Compromised accounts: ");
        push_decimal(&mut s, estimated_harvest);
        push_str(&mut s, "\n");
        push_str(&mut s, "  • Network access points: ");
        push_decimal(&mut s, estimated_harvest / 5);
        push_str(&mut s, "\n");
        push_str(&mut s, "  • Lateral movement paths: ");
        push_decimal(&mut s, estimated_harvest / 3);
        push_str(&mut s, "\n");
        Ok(s)
    }
}

} // verus!
