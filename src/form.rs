//! The whole report: every section read from the workbook and assembled
//! into the form handed to the submission collaborator.

use vstd::prelude::*;
use crate::attachments::{attachment_folder, attachment_folder_of, attachment_inventory, inventory_read, Attachment, AttachmentFile};
use crate::datetime::{convert_date_vn_to_iso, vn_to_iso};
use crate::entities::{individuals_from_excel, organizations_from_excel, Individual, Organization};
use crate::error::ExtractError;
use crate::owners::{beneficial_owners_from_excel, BeneficialOwners};
use crate::related::{section3_read, Section3};
use crate::report::{general_info_read, internal_number, section1_read, GeneralInfo, Section1};
use crate::row::{in_section, opt_view};
use crate::suspicious::{
    analysis_read, conclusions_read, report_type_read, transaction_info_read, Analysis, ConclusionEntry, ReportType,
    TransactionInfo,
};
use crate::tasks::{tasks_from_excel, tasks_from_excel_read, ProcessedTask};
use crate::template::{cell_value_from_key, key_text, Template};
use crate::text::string_of;
use crate::workbook::Workbook;

verus! {

/// `r` is a failure marked with the name of a section.
pub open spec fn section_failure<T>(r: Result<T, ExtractError>, name: Seq<char>) -> bool {
    r matches Err(ExtractError::Section { name: n, .. }) && n@ == name
}

/// The customer section.
#[derive(Debug)]
pub struct Section2 {
    pub individuals: Vec<Individual>,
    pub organizations: Vec<Organization>,
    pub beneficial_owners: BeneficialOwners,
    pub additional_info: Option<String>,
}

/// The customer section once its parts have been read as `ri`, `ro` and
/// `rb`: it is read exactly when they all are and the additional
/// information is named; a failure is marked with the section's name.
pub open spec fn section2_after(
    t: Template,
    w: Workbook,
    ri: Result<Vec<Individual>, ExtractError>,
    ro: Result<Vec<Organization>, ExtractError>,
    rb: Result<BeneficialOwners, ExtractError>,
    r: Result<Section2, ExtractError>,
) -> bool {
    &&& r is Ok <==> (ri is Ok && ro is Ok && rb is Ok && key_text(t, w, "Phần II: Thông tin bổ sung"@) is Some)
    &&& r is Ok ==> {
        &&& r->Ok_0.individuals == ri->Ok_0
        &&& r->Ok_0.organizations == ro->Ok_0
        &&& r->Ok_0.beneficial_owners == rb->Ok_0
        &&& opt_view(r->Ok_0.additional_info) == key_text(t, w, "Phần II: Thông tin bổ sung"@)
    }
    &&& r is Err ==> section_failure(r, "Phần II"@)
}

/// What reading the customer section gives.
pub open spec fn section2_read(t: Template, w: Workbook, year: int, r: Result<Section2, ExtractError>) -> bool {
    exists|ri, ro, rb|
        individuals_from_excel(t, w, year, ri) && organizations_from_excel(t, w, ro) && beneficial_owners_from_excel(t, w, year, rb)
            && #[trigger] section2_after(t, w, ri, ro, rb, r)
}

impl Section2 {
    /// Reads the individual and organization customers, the beneficial-owner
    /// graph and the additional information; a failure is marked with the
    /// section's name.
    pub fn from_excel(template: &Template, workbook: &Workbook, current_year: i32) -> (r: Result<Section2, ExtractError>)
        ensures
            section2_read(*template, *workbook, current_year as int, r),
    {
        let ri = Individual::from_excel(template, workbook, current_year);
        let ro = Organization::from_excel(template, workbook);
        let rb = BeneficialOwners::from_excel(template, workbook, current_year);
        let extra = cell_value_from_key(template, workbook, "Phần II: Thông tin bổ sung");
        let ghost (gi, go, gb) = (ri, ro, rb);
        let r: Result<Section2, ExtractError> = match (ri, ro, rb, extra) {
            (Ok(individuals), Ok(organizations), Ok(beneficial_owners), Ok(additional_info)) => Ok(
                Section2 { individuals, organizations, beneficial_owners, additional_info: Some(additional_info) },
            ),
            (Err(e), _, _, _) => Err(in_section("Phần II", e)),
            (_, Err(e), _, _) => Err(in_section("Phần II", e)),
            (_, _, Err(e), _) => Err(in_section("Phần II", e)),
            (_, _, _, Err(e)) => Err(in_section("Phần II", e)),
        };
        assert(section2_after(*template, *workbook, gi, go, gb, r));
        r
    }
}

/// The suspicious-transaction section.
#[derive(Debug)]
pub struct Section4 {
    pub report_type: ReportType,
    pub transaction_info: TransactionInfo,
    pub analysis: Analysis,
    pub conclusions: Vec<ConclusionEntry>,
    pub detection_date: Option<String>,
}

/// What converting the detection date gives: nothing when the template does
/// not name it, its ISO form otherwise.
pub open spec fn detection_read(t: Template, w: Workbook, r: Result<Option<String>, ExtractError>) -> bool {
    match key_text(t, w, "Phần IV: Ngày phát hiện giao dịch đáng ngờ"@) {
        None => r matches Ok(None),
        Some(s) => vn_to_iso(s, r),
    }
}

/// Reads the detection date.
pub fn detection_date(template: &Template, workbook: &Workbook) -> (r: Result<Option<String>, ExtractError>)
    ensures
        detection_read(*template, *workbook, r),
{
    match cell_value_from_key(template, workbook, "Phần IV: Ngày phát hiện giao dịch đáng ngờ") {
        Ok(s) => convert_date_vn_to_iso(s.as_str()),
        Err(_) => Ok(None),
    }
}

/// The suspicious-transaction section once its parts have been read: it is
/// read exactly when they all are.
pub open spec fn section4_after(
    a: Result<ReportType, ExtractError>,
    b: Result<TransactionInfo, ExtractError>,
    c: Result<Analysis, ExtractError>,
    d: Result<Vec<ConclusionEntry>, ExtractError>,
    e: Result<Option<String>, ExtractError>,
    r: Result<Section4, ExtractError>,
) -> bool {
    &&& r is Ok <==> (a is Ok && b is Ok && c is Ok && d is Ok && e is Ok)
    &&& r is Ok ==> r->Ok_0 == (Section4 {
        report_type: a->Ok_0,
        transaction_info: b->Ok_0,
        analysis: c->Ok_0,
        conclusions: d->Ok_0,
        detection_date: e->Ok_0,
    })
}

/// What reading the suspicious-transaction section gives.
pub open spec fn section4_read(t: Template, w: Workbook, year: int, r: Result<Section4, ExtractError>) -> bool {
    exists|a, b, c, d, e|
        report_type_read(t, w, a) && transaction_info_read(t, w, year, b) && analysis_read(t, w, c) && conclusions_read(t, w, d)
            && detection_read(t, w, e) && #[trigger] section4_after(a, b, c, d, e, r)
}

impl Section4 {
    /// Reads the report type, the transaction summary, the analysis, the
    /// suspected crimes and the detection date.
    pub fn from_excel(template: &Template, workbook: &Workbook, current_year: i32) -> (r: Result<Section4, ExtractError>)
        ensures
            section4_read(*template, *workbook, current_year as int, r),
    {
        let a = ReportType::from_excel(template, workbook);
        let b = TransactionInfo::from_excel(template, workbook, current_year);
        let c = Analysis::from_excel(template, workbook);
        let d = ConclusionEntry::from_excel(template, workbook);
        let e = detection_date(template, workbook);
        let ghost (ga, gb, gc, gd, ge) = (a, b, c, d, e);
        let r: Result<Section4, ExtractError> = match (a, b, c, d, e) {
            (Ok(report_type), Ok(transaction_info), Ok(analysis), Ok(conclusions), Ok(detection_date)) => Ok(
                Section4 { report_type, transaction_info, analysis, conclusions, detection_date },
            ),
            (Err(x), _, _, _, _) => Err(x),
            (_, Err(x), _, _, _) => Err(x),
            (_, _, Err(x), _, _) => Err(x),
            (_, _, _, Err(x), _) => Err(x),
            (_, _, _, _, Err(x)) => Err(x),
        };
        assert(section4_after(ga, gb, gc, gd, ge, r));
        r
    }
}

/// The processed-tasks section.
#[derive(Debug)]
pub struct Section5 {
    pub processed_tasks: Vec<ProcessedTask>,
}

/// The attachments section.
#[derive(Debug)]
pub struct Section6 {
    pub attachments: Vec<Attachment>,
}

/// The report's payload: every section.
#[derive(Debug)]
pub struct Payload {
    pub general_info: GeneralInfo,
    pub section_1: Section1,
    pub section_2: Section2,
    pub section_3: Section3,
    pub section_4: Section4,
    pub section_5: Section5,
    pub section_6: Section6,
}

/// Where the attachments of a workbook were found: the files of its folder,
/// and whether the folder exists.
#[derive(Debug)]
pub struct AttachmentSource {
    pub workbook_file_name: String,
    pub folder_exists: bool,
    pub files: Vec<AttachmentFile>,
}

/// The payload once every section has been read: it is read exactly when
/// every section is; sections III to VI mark their failures with their name.
pub open spec fn payload_after(
    g: Result<GeneralInfo, ExtractError>,
    s1: Result<Section1, ExtractError>,
    s2: Result<Section2, ExtractError>,
    s3: Result<Section3, ExtractError>,
    s4: Result<Section4, ExtractError>,
    s5: Result<Vec<ProcessedTask>, ExtractError>,
    s6: Result<Vec<Attachment>, ExtractError>,
    r: Result<Payload, ExtractError>,
) -> bool {
    &&& r is Ok <==> (g is Ok && s1 is Ok && s2 is Ok && s3 is Ok && s4 is Ok && s5 is Ok && s6 is Ok)
    &&& r is Ok ==> r->Ok_0 == (Payload {
        general_info: g->Ok_0,
        section_1: s1->Ok_0,
        section_2: s2->Ok_0,
        section_3: s3->Ok_0,
        section_4: s4->Ok_0,
        section_5: Section5 { processed_tasks: s5->Ok_0 },
        section_6: Section6 { attachments: s6->Ok_0 },
    })
    &&& g is Ok && s1 is Ok && s2 is Ok && s3 is Err ==> section_failure(r, "Phần III"@)
    &&& g is Ok && s1 is Ok && s2 is Ok && s3 is Ok && s4 is Err ==> section_failure(r, "Phần IV"@)
    &&& g is Ok && s1 is Ok && s2 is Ok && s3 is Ok && s4 is Ok && s5 is Err ==> section_failure(r, "Phần V"@)
    &&& g is Ok && s1 is Ok && s2 is Ok && s3 is Ok && s4 is Ok && s5 is Ok && s6 is Err ==> section_failure(r, "Phần VI"@)
}

/// What reading the payload gives.
pub open spec fn payload_read(t: Template, w: Workbook, year: int, source: AttachmentSource, r: Result<Payload, ExtractError>) -> bool {
    exists|g, s1, s2, s3, s4, s5, s6|
        general_info_read(t, w, g) && section1_read(t, w, s1) && section2_read(t, w, year, s2) && section3_read(t, w, year, s3)
            && section4_read(t, w, year, s4) && tasks_from_excel_read(t, w, s5) && inventory_read(
            attachment_folder_of(source.workbook_file_name@),
            source.files@,
            source.folder_exists,
            s6,
        ) && #[trigger] payload_after(g, s1, s2, s3, s4, s5, s6, r)
}

impl Payload {
    /// Reads every section of the report; the first failing section gives
    /// the failure.
    pub fn from_excel(template: &Template, workbook: &Workbook, current_year: i32, source: &AttachmentSource) -> (r: Result<Payload, ExtractError>)
        ensures
            payload_read(*template, *workbook, current_year as int, *source, r),
    {
        let g = GeneralInfo::from_excel(template, workbook);
        let s1 = Section1::from_excel(template, workbook);
        let s2 = Section2::from_excel(template, workbook, current_year);
        let s3 = Section3::from_excel(template, workbook, current_year);
        let s4 = Section4::from_excel(template, workbook, current_year);
        let s5 = tasks_from_excel(template, workbook);
        let folder = attachment_folder(source.workbook_file_name.as_str());
        let s6 = attachment_inventory(folder.as_str(), &source.files, source.folder_exists);
        let ghost (gg, g1, g2, g3, g4, g5, g6) = (g, s1, s2, s3, s4, s5, s6);
        let r: Result<Payload, ExtractError> = match (g, s1, s2, s3, s4, s5, s6) {
            (Ok(general_info), Ok(section_1), Ok(section_2), Ok(section_3), Ok(section_4), Ok(processed_tasks), Ok(attachments)) => Ok(
                Payload {
                    general_info,
                    section_1,
                    section_2,
                    section_3,
                    section_4,
                    section_5: Section5 { processed_tasks },
                    section_6: Section6 { attachments },
                },
            ),
            (Err(e), _, _, _, _, _, _) => Err(e),
            (_, Err(e), _, _, _, _, _) => Err(e),
            (_, _, Err(e), _, _, _, _) => Err(e),
            (_, _, _, Err(e), _, _, _) => Err(in_section("Phần III", e)),
            (_, _, _, _, Err(e), _, _) => Err(in_section("Phần IV", e)),
            (_, _, _, _, _, Err(e), _) => Err(in_section("Phần V", e)),
            (_, _, _, _, _, _, Err(e)) => Err(in_section("Phần VI", e)),
        };
        assert(payload_after(gg, g1, g2, g3, g4, g5, g6, r));
        r
    }
}

/// The state of a report at its creation.
#[derive(Debug, Clone, Copy, PartialEq, Eq, Structural)]
pub enum CreationStatus {
    InProgress,
}

/// The form handed to the submission collaborator.
#[derive(Debug)]
pub struct Form {
    pub id: Option<i64>,
    pub internal_number: String,
    pub report_type: String,
    pub creation_status: CreationStatus,
    pub payload: Payload,
    pub others: Vec<(String, String)>,
}

/// The form once the payload has been read as `rp`: it is read exactly when
/// the payload is and the internal number is named.
pub open spec fn form_after(t: Template, w: Workbook, rp: Result<Payload, ExtractError>, r: Result<Form, ExtractError>) -> bool {
    &&& r is Ok <==> (rp is Ok && key_text(t, w, "Mã báo cáo nội bộ"@) is Some)
    &&& r is Ok ==> {
        let f = r->Ok_0;
        &&& f.payload == rp->Ok_0
        &&& f.id is None
        &&& f.report_type@ == seq!['M', '1']
        &&& f.creation_status == CreationStatus::InProgress
        &&& key_text(t, w, "Mã báo cáo nội bộ"@) == Some(f.internal_number@)
        &&& f.others@.len() == 1
        &&& f.others@[0].0@ == "ngay_phat_hien"@
        &&& f.others@[0].1@ == match f.payload.section_4.detection_date {
            Some(d) => d@,
            None => Seq::empty(),
        }
    }
}

impl Form {
    /// Reads the payload and the internal number, and records the detection
    /// date among the other fields.
    pub fn from_excel(template: &Template, workbook: &Workbook, current_year: i32, source: &AttachmentSource) -> (r: Result<Form, ExtractError>)
        ensures
            exists|rp| payload_read(*template, *workbook, current_year as int, *source, rp) && #[trigger] form_after(*template, *workbook, rp, r),
    {
        let rp = Payload::from_excel(template, workbook, current_year, source);
        let number = internal_number(template, workbook);
        let ghost gp = rp;
        let r: Result<Form, ExtractError> = match (rp, number) {
            (Ok(payload), Ok(number)) => {
                let detection_date = match &payload.section_4.detection_date {
                    Some(d) => d.clone(),
                    None => String::new(),
                };
                let m1 = vec!['M', '1'];
                assert(m1@ =~= seq!['M', '1']);
                Ok(Form {
                    id: None,
                    internal_number: number,
                    report_type: string_of(m1.as_slice()),
                    creation_status: CreationStatus::InProgress,
                    payload,
                    others: vec![("ngay_phat_hien".to_string(), detection_date)],
                })
            },
            (Err(e), _) => Err(e),
            (_, Err(e)) => Err(e),
        };
        assert(form_after(*template, *workbook, gp, r));
        r
    }
}

} // verus!
