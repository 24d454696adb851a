use vstd::prelude::*;

verus! {

/// One document of the catalog.
#[derive(Debug, Clone)]
pub struct Document {
    pub folder: String,
    pub domain: String,
    pub bookmark: String,
    /// Display name; the downloaded file is named after it.
    pub name: String,
    /// Stable reference of the file, used to build its download URL.
    pub file_index: String,
    pub folder_description: String,
    pub date: String,
    pub note: String,
}

/// A folder of the document box, with its nested folders.
#[derive(Debug)]
pub struct Folder {
    pub id: String,
    pub path: String,
    pub description: String,
    pub custom_folder: bool,
    pub document_count: u32,
    pub unread_document_count: u32,
    pub folders: Vec<Folder>,
}

/// Description of one column of the catalog listing.
#[derive(Debug, Clone)]
pub struct Metadata {
    pub id: String,
    pub description: String,
    pub type_number: i32,
    pub visible: bool,
    pub editable: bool,
    pub length: u32,
}

/// One page of the catalog listing, or the merged listing of all pages.
#[derive(Debug)]
pub struct HrDocumentBox {
    pub success: bool,
    /// Number of records in this page.
    pub total_result_count: u32,
    /// Number of records over all pages.
    pub total_count: u32,
    pub unread_count: u32,
    pub offset: u32,
    pub metadata: Vec<Metadata>,
    pub documents: Vec<Document>,
    pub folders: Option<Vec<Folder>>,
}

} // verus!
