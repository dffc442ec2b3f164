use aml::attachments::{attachment_folder, attachment_from_file, attachment_with_type, attachment_inventory, split_file_name, AttachmentFile};
use aml::codes::Vocabulary;
use aml::error::ExtractError;

fn file(name: &str) -> AttachmentFile {
    AttachmentFile { file_name: name.to_string(), content: vec![1, 2, 3] }
}

#[test]
fn statement_file_becomes_an_attachment() {
    let a = attachment_from_file(&file("STM_CIF100_202502.xlsx")).unwrap().unwrap();
    assert_eq!(a.attachment_type, "STM");
    assert_eq!(a.description, "CIF100_202502");
    assert_eq!(a.file_type, "xlsx");
    assert_eq!(a.page_count, 1);
    assert_eq!(a.file_size, 3);
    assert_eq!(a.status, "ACTIVE");
    assert_eq!(a.file_mime, "application/vnd.openxmlformats-officedocument.spreadsheetml.sheet");
}

#[test]
fn unknown_prefix_aborts_the_inventory() {
    let files = vec![file("STM_CIF100_202502.xlsx"), file("XYZ_bad.pdf")];
    match attachment_inventory("input/report", &files, true) {
        Err(ExtractError::InvalidCodeValue { vocabulary, value }) => {
            assert_eq!(vocabulary, Vocabulary::DocumentType);
            assert_eq!(value, "XYZ");
        }
        other => panic!("unexpected {:?}", other),
    }
    let ok = attachment_inventory("input/report", &files[..1].to_vec(), true).unwrap();
    assert_eq!(ok.len(), 1);
    assert_eq!(ok[0].attachment_type, "STM");
}

#[test]
fn lock_files_are_skipped_and_prefixes_upper_cased() {
    let files = vec![file("~$STM_a.xlsx"), file("oth_notes.txt")];
    let v = attachment_inventory("input/report", &files, true).unwrap();
    assert_eq!(v.len(), 1);
    assert_eq!(v[0].attachment_type, "OTH");
    assert_eq!(v[0].description, "");
    assert_eq!(v[0].file_mime, "text/plain");
}

#[test]
fn missing_folder_fails() {
    assert!(matches!(
        attachment_inventory("input/report", &vec![], false),
        Err(ExtractError::MissingAttachmentFolder { .. })
    ));
    assert_eq!(attachment_folder("report.xlsx"), "input/report");
}

#[test]
fn unreadable_pdf_fails() {
    assert!(matches!(attachment_from_file(&file("TRX_a.PDF")), Err(ExtractError::UnreadablePdf { .. })));
}

#[test]
fn file_names_split_like_paths() {
    assert_eq!(split_file_name("a.tar.gz"), ("a.tar".to_string(), "gz".to_string()));
    assert_eq!(split_file_name(".bashrc"), (".bashrc".to_string(), String::new()));
    assert_eq!(split_file_name("noext"), ("noext".to_string(), String::new()));
}

#[test]
fn an_upper_cased_prefix_decides_the_type() {
    let a = attachment_with_type(&file("flw_chart.png"), "FLW".to_string()).unwrap();
    assert_eq!(a.attachment_type, "FLW");
    assert_eq!(a.description, "");
    assert_eq!(a.file_mime, "image/png");
    let b = attachment_with_type(&file("FLW_chart.png"), "FLW".to_string()).unwrap();
    assert_eq!(b.description, "chart");
    assert!(matches!(attachment_with_type(&file("x.png"), "XYZ".to_string()), Err(ExtractError::InvalidCodeValue { .. })));
}
