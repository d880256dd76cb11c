use crpipeline::upload::{check_upload, filename_accepted, page_count, storage_key, validate_document,
    validate_filename_and_type, FileKind, UploadError, MAX_FILE_SIZE};

#[test]
fn pdf_with_magic_accepted() {
    let r = validate_filename_and_type("dir/Report.PDF", &Some("application/pdf".to_string()), b"%PDF-1.4 x");
    let (base, kind) = r.ok().unwrap();
    assert_eq!(base, "Report.PDF");
    assert_eq!(kind, "pdf");
}

#[test]
fn upload_errors_in_order() {
    assert!(check_upload("", &None, b"x") == Err(UploadError::MissingFilename));
    assert!(check_upload("a.pdf", &None, b"") == Err(UploadError::EmptyContent));
    assert!(check_upload("a.exe", &None, b"x") == Err(UploadError::Unsupported));
    assert!(check_upload("a.pdf", &Some("text/plain".to_string()), b"%PDF-") == Err(UploadError::PdfContentType));
    assert!(check_upload("a.pdf", &Some("application/octet-stream; x".to_string()), b"%PDF-") == Ok(FileKind::Pdf));
    assert!(check_upload("a.pdf", &None, b"PDF") == Err(UploadError::PdfMagic));
    assert!(check_upload("notes.MD", &Some("image/png".to_string()), b"# hi") == Ok(FileKind::Markdown));
    assert!(check_upload("t.txt", &None, b"hi") == Ok(FileKind::Text));
}

#[test]
fn oversize_upload_rejected() {
    let big = vec![0u8; MAX_FILE_SIZE + 1];
    let e = check_upload("a.txt", &None, &big).unwrap_err();
    assert!(e == UploadError::TooLarge);
    assert_eq!(e.status(), 413);
    assert_eq!(e.message(), "File size exceeds the 200MB limit.");
}

#[test]
fn corrupt_pdf_pages_not_counted() {
    let r = validate_document("a.pdf", &None, b"%PDF-garbage", None);
    assert!(matches!(r, Err(UploadError::CorruptPdf)));
    assert!(page_count(FileKind::Text, None) == Ok(0));
    assert!(page_count(FileKind::Pdf, Some(3)) == Ok(3));
    assert!(page_count(FileKind::Pdf, None) == Err(UploadError::CorruptPdf));
}

#[test]
fn storage_key_is_sanitized() {
    let k = storage_key("id", "a/b?c.pdf");
    assert_eq!(k, "id-abc.pdf");
    assert_eq!(storage_key("id", "contract.pdf"), "id-contract.pdf");
    assert_eq!(storage_key("id", "COM10.txt"), "id-COM10.txt");
    assert!(!filename_accepted("a:b"));
    assert!(filename_accepted("abc.pdf"));
}

#[test]
fn counted_pdf_keeps_its_pages() {
    let (base, pages) = validate_document("dir/r.pdf", &None, b"%PDF-1.4", Some(7)).ok().unwrap();
    assert_eq!(base, "r.pdf");
    assert_eq!(pages, 7);
}

#[test]
fn text_upload_has_no_pages() {
    let (base, pages) = validate_document("n.txt", &None, b"hello", Some(9)).ok().unwrap();
    assert_eq!(base, "n.txt");
    assert_eq!(pages, 0);
}
