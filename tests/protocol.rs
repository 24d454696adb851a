use hrbox::bootstrap::{bootstrap, Cookie};
use hrbox::catalog::{Catalog, PageStep};
use hrbox::client::{file_name, HrBoxClient, HrBoxSession};
use hrbox::error::{expect_success, HrBoxError, ProtocolIssue};
use hrbox::model::{Document, HrDocumentBox};

fn cookie(name: &str, value: &str) -> Cookie {
    Cookie { name: name.to_string(), value: value.to_string() }
}

fn doc(index: &str, name: &str) -> Document {
    Document {
        folder: "F1".to_string(),
        domain: "D".to_string(),
        bookmark: String::new(),
        name: name.to_string(),
        file_index: index.to_string(),
        folder_description: "Payroll".to_string(),
        date: "2024-01-31".to_string(),
        note: String::new(),
    }
}

fn page(record_count: u32, total: u32, offset: u32, names: &[&str]) -> HrDocumentBox {
    HrDocumentBox {
        success: true,
        total_result_count: record_count,
        total_count: total,
        unread_count: 0,
        offset,
        metadata: Vec::new(),
        documents: names.iter().map(|n| doc(n, n)).collect(),
        folders: None,
    }
}

fn names(b: &HrDocumentBox) -> Vec<String> {
    b.documents.iter().map(|d| d.name.clone()).collect()
}

fn session() -> HrBoxSession {
    let client = HrBoxClient::new("acme", 200, &vec![cookie("XSRF-TOKEN", "tok")]).unwrap();
    client.login(200).unwrap()
}

#[test]
fn bootstrap_returns_first_token_cookie() {
    let cookies = vec![
        cookie("JSESSIONID", "abc"),
        cookie("XSRF-TOKEN", "first"),
        cookie("XSRF-TOKEN", "second"),
    ];
    assert_eq!(bootstrap(200, &cookies), Ok("first".to_string()));
}

#[test]
fn bootstrap_without_token_cookie_is_protocol_error() {
    let cookies = vec![cookie("JSESSIONID", "abc"), cookie("xsrf-token", "lower")];
    assert_eq!(
        bootstrap(200, &cookies),
        Err(HrBoxError::Protocol(ProtocolIssue::MissingSessionToken))
    );
    assert_eq!(
        bootstrap(204, &Vec::new()),
        Err(HrBoxError::Protocol(ProtocolIssue::MissingSessionToken))
    );
}

#[test]
fn bootstrap_failed_status_is_http_error() {
    let cookies = vec![cookie("XSRF-TOKEN", "tok")];
    assert_eq!(bootstrap(500, &cookies), Err(HrBoxError::Http { status: 500 }));
    assert_eq!(bootstrap(302, &cookies), Err(HrBoxError::Http { status: 302 }));
}

#[test]
fn status_range() {
    assert_eq!(expect_success(199), Err(HrBoxError::Http { status: 199 }));
    assert_eq!(expect_success(200), Ok(()));
    assert_eq!(expect_success(299), Ok(()));
    assert_eq!(expect_success(300), Err(HrBoxError::Http { status: 300 }));
    assert_eq!(expect_success(404), Err(HrBoxError::Http { status: 404 }));
}

#[test]
fn base_url_of_subdomain() {
    assert_eq!(HrBoxClient::base_url("acme"), "https://acme.hr-document-box.com");
}

#[test]
fn new_keeps_token_and_address() {
    let cookies = vec![cookie("XSRF-TOKEN", "a1b2-c3d4")];
    let client = HrBoxClient::new("acme", 200, &cookies).unwrap();
    assert_eq!(client.xsrf_token(), "a1b2-c3d4");
    assert_eq!(client.login_url(), "https://acme.hr-document-box.com/external/login");
}

#[test]
fn new_rejects_token_unfit_for_header() {
    let cookies = vec![cookie("XSRF-TOKEN", "bad\ntoken")];
    assert!(matches!(
        HrBoxClient::new("acme", 200, &cookies),
        Err(HrBoxError::Protocol(ProtocolIssue::InvalidSessionToken))
    ));
    let cookies = vec![cookie("XSRF-TOKEN", "tab\tand\u{e9}")];
    assert!(HrBoxClient::new("acme", 200, &cookies).is_ok());
}

#[test]
fn new_passes_bootstrap_errors_on() {
    assert!(matches!(
        HrBoxClient::new("acme", 403, &vec![cookie("XSRF-TOKEN", "t")]),
        Err(HrBoxError::Http { status: 403 })
    ));
    assert!(matches!(
        HrBoxClient::new("acme", 200, &Vec::new()),
        Err(HrBoxError::Protocol(ProtocolIssue::MissingSessionToken))
    ));
}

#[test]
fn login_form_fields() {
    let form = HrBoxClient::login_form("jane", "s3cret");
    assert_eq!(
        form,
        vec![
            ("username".to_string(), "jane".to_string()),
            ("password".to_string(), "s3cret".to_string()),
        ]
    );
}

#[test]
fn login_rejected_is_authentication_error() {
    let client = HrBoxClient::new("acme", 200, &vec![cookie("XSRF-TOKEN", "t")]).unwrap();
    assert!(matches!(client.clone().login(401), Err(HrBoxError::Authentication { status: 401 })));
    assert!(matches!(client.login(500), Err(HrBoxError::Authentication { status: 500 })));
}

#[test]
fn login_accepted_keeps_session() {
    let s = session();
    assert_eq!(s.xsrf_token(), "tok");
    assert_eq!(s.documents_url(0), "https://acme.hr-document-box.com/api/v1/internal/documents?offset=0");
}

#[test]
fn documents_url_offsets() {
    let s = session();
    assert_eq!(s.documents_url(2), "https://acme.hr-document-box.com/api/v1/internal/documents?offset=2");
    assert_eq!(s.documents_url(105), "https://acme.hr-document-box.com/api/v1/internal/documents?offset=105");
    assert_eq!(
        s.documents_url(u32::MAX),
        "https://acme.hr-document-box.com/api/v1/internal/documents?offset=4294967295"
    );
}

#[test]
fn two_pages_give_five_documents() {
    let mut catalog = Catalog::new();
    assert_eq!(catalog.next_offset(), Some(0));
    assert_eq!(catalog.accept(page(2, 5, 0, &["A", "B"])), Ok(PageStep::Fetch(2)));
    assert_eq!(catalog.next_offset(), Some(2));
    assert_eq!(catalog.accept(page(3, 5, 2, &["C", "D", "E"])), Ok(PageStep::Complete));
    assert_eq!(catalog.next_offset(), None);
    let listing = catalog.into_listing().unwrap();
    assert_eq!(names(&listing), vec!["A", "B", "C", "D", "E"]);
    assert_eq!(listing.total_count, 5);
    assert_eq!(listing.total_result_count, 2);
    assert_eq!(listing.offset, 0);
}

#[test]
fn single_page_catalog() {
    let mut catalog = Catalog::new();
    assert_eq!(catalog.accept(page(3, 3, 0, &["A", "B", "C"])), Ok(PageStep::Complete));
    assert_eq!(catalog.next_offset(), None);
    assert_eq!(names(&catalog.into_listing().unwrap()), vec!["A", "B", "C"]);
}

#[test]
fn empty_catalog_needs_one_request() {
    let mut catalog = Catalog::new();
    assert_eq!(catalog.accept(page(0, 0, 0, &[])), Ok(PageStep::Complete));
    assert_eq!(catalog.next_offset(), None);
    let listing = catalog.into_listing().unwrap();
    assert!(listing.documents.is_empty());
    assert_eq!(listing.total_count, 0);
}

#[test]
fn empty_page_before_total_stalls() {
    let mut catalog = Catalog::new();
    assert_eq!(catalog.accept(page(2, 5, 0, &["A", "B"])), Ok(PageStep::Fetch(2)));
    assert_eq!(
        catalog.accept(page(0, 5, 2, &[])),
        Err(HrBoxError::Protocol(ProtocolIssue::StalledPagination))
    );
    assert_eq!(catalog.next_offset(), None);
    assert!(catalog.into_listing().is_none());
}

#[test]
fn empty_first_page_with_records_left_stalls() {
    let mut catalog = Catalog::new();
    assert_eq!(
        catalog.accept(page(0, 4, 0, &[])),
        Err(HrBoxError::Protocol(ProtocolIssue::StalledPagination))
    );
    assert_eq!(catalog.next_offset(), None);
}

#[test]
fn changed_total_is_protocol_error() {
    let mut catalog = Catalog::new();
    assert_eq!(catalog.accept(page(2, 5, 0, &["A", "B"])), Ok(PageStep::Fetch(2)));
    assert_eq!(
        catalog.accept(page(3, 6, 2, &["C", "D", "E"])),
        Err(HrBoxError::Protocol(ProtocolIssue::TotalCountChanged))
    );
    assert_eq!(catalog.next_offset(), None);
    assert!(catalog.into_listing().is_none());
}

#[test]
fn overshooting_page_completes() {
    let mut catalog = Catalog::new();
    assert_eq!(catalog.accept(page(2, 3, 0, &["A", "B"])), Ok(PageStep::Fetch(2)));
    assert_eq!(catalog.accept(page(2, 3, 2, &["C", "D"])), Ok(PageStep::Complete));
    assert_eq!(names(&catalog.into_listing().unwrap()), vec!["A", "B", "C", "D"]);
}

#[test]
fn incomplete_catalog_has_no_listing() {
    let mut catalog = Catalog::new();
    assert_eq!(catalog.accept(page(1, 2, 0, &["A"])), Ok(PageStep::Fetch(1)));
    assert!(catalog.into_listing().is_none());
    assert!(Catalog::new().into_listing().is_none());
}

#[test]
fn download_address_and_file_name() {
    let s = session();
    let d = doc("123", "Payslip_2024_01");
    assert_eq!(
        s.document_url(&d),
        "https://acme.hr-document-box.com/api/v1/internal/documents/123/pdf"
    );
    assert_eq!(file_name(&d), "Payslip_2024_01.pdf");
    assert_eq!(s.download_file(&d, 200), Ok("Payslip_2024_01.pdf".to_string()));
}

#[test]
fn download_not_found_writes_nothing() {
    let s = session();
    let d = doc("123", "Payslip_2024_01");
    assert_eq!(s.download_file(&d, 404), Err(HrBoxError::Http { status: 404 }));
    assert_eq!(s.download_file(&d, 503), Err(HrBoxError::Http { status: 503 }));
}
