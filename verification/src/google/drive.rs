//! The file store: where its calls go, what it answers, and what follows
//! from the answers.

use crate::text::{percent_encode, percent_encoded, str_eq};
use vstd::prelude::*;

verus! {

/// A file of the store, as far as the application needs it.
#[derive(Debug, PartialEq, Eq)]
pub struct DriveFile {
    /// Identifier of the file.
    pub id: String,
    /// Display name of the file.
    pub name: String,
}

/// The answer to a listing.
#[derive(Debug, PartialEq, Eq)]
pub struct FileListResp {
    /// The files found.
    pub files: Vec<DriveFile>,
}

/// What the store tells of a file when asked what it is.
#[derive(Debug, PartialEq, Eq)]
pub struct FileMeta {
    /// The kind of the file.
    pub mime_type: String,
    /// Where the file points to, if it is a shortcut.
    pub shortcut_details: Option<ShortcutDetails>,
}

/// The target of a shortcut.
#[derive(Debug, PartialEq, Eq)]
pub struct ShortcutDetails {
    /// Identifier of the target.
    pub target_id: String,
    /// The kind of the target.
    pub target_mime_type: String,
}

/// What is sent to have a file copied.
#[derive(Debug, PartialEq, Eq)]
pub struct CopyReq {
    /// Name of the copy.
    pub name: String,
    /// Folders to put the copy into; none to leave it beside the original.
    pub parents: Option<Vec<String>>,
}

/// What is sent along with an uploaded PDF.
#[derive(Debug, PartialEq, Eq)]
pub struct UploadMeta {
    /// Name of the file.
    pub name: String,
    /// Folders to put the file into.
    pub parents: Vec<String>,
    /// The kind of the file.
    pub mime_type: String,
}

/// Why an answer of the store cannot be used.
#[derive(Debug, PartialEq, Eq)]
pub enum DriveError {
    /// A shortcut came without the details of its target.
    ShortcutDetailsMissing,
    /// A shortcut points to something that is no spreadsheet.
    ShortcutTargetNotSheet { target_mime_type: String },
    /// The file is neither a spreadsheet nor a shortcut.
    NotSheet { mime_type: String },
    /// The store did not say which file it created.
    NoId,
}

/// `DriveFile` as mathematical text.
pub struct DriveFileView {
    pub id: Seq<char>,
    pub name: Seq<char>,
}

/// `ShortcutDetails` as mathematical text.
pub struct ShortcutDetailsView {
    pub target_id: Seq<char>,
    pub target_mime_type: Seq<char>,
}

/// `FileMeta` as mathematical text.
pub struct FileMetaView {
    pub mime_type: Seq<char>,
    pub shortcut_details: Option<ShortcutDetailsView>,
}

/// `DriveError` as mathematical text.
pub enum DriveErrorView {
    ShortcutDetailsMissing,
    ShortcutTargetNotSheet { target_mime_type: Seq<char> },
    NotSheet { mime_type: Seq<char> },
    NoId,
}

impl View for DriveFile {
    type V = DriveFileView;

    open spec fn view(&self) -> DriveFileView {
        DriveFileView { id: self.id@, name: self.name@ }
    }
}

impl DeepView for DriveFile {
    type V = DriveFileView;

    open spec fn deep_view(&self) -> DriveFileView {
        self@
    }
}

impl View for ShortcutDetails {
    type V = ShortcutDetailsView;

    open spec fn view(&self) -> ShortcutDetailsView {
        ShortcutDetailsView {
            target_id: self.target_id@,
            target_mime_type: self.target_mime_type@,
        }
    }
}

impl View for FileMeta {
    type V = FileMetaView;

    open spec fn view(&self) -> FileMetaView {
        FileMetaView {
            mime_type: self.mime_type@,
            shortcut_details: match self.shortcut_details {
                Some(details) => Some(details@),
                None => None,
            },
        }
    }
}

impl View for DriveError {
    type V = DriveErrorView;

    open spec fn view(&self) -> DriveErrorView {
        match self {
            DriveError::ShortcutDetailsMissing => DriveErrorView::ShortcutDetailsMissing,
            DriveError::ShortcutTargetNotSheet { target_mime_type } => {
                DriveErrorView::ShortcutTargetNotSheet { target_mime_type: target_mime_type@ }
            },
            DriveError::NotSheet { mime_type } => DriveErrorView::NotSheet {
                mime_type: mime_type@,
            },
            DriveError::NoId => DriveErrorView::NoId,
        }
    }
}

impl Clone for DriveFile {
    fn clone(&self) -> (copy: Self)
        ensures
            copy == *self,
    {
        DriveFile { id: self.id.clone(), name: self.name.clone() }
    }
}

/// The kind of a spreadsheet.
pub open spec fn sheet_mime() -> Seq<char> {
    "application/vnd.google-apps.spreadsheet"@
}

/// The kind of a shortcut.
pub open spec fn shortcut_mime() -> Seq<char> {
    "application/vnd.google-apps.shortcut"@
}

/// The kind of a PDF.
pub open spec fn pdf_mime() -> Seq<char> {
    "application/pdf"@
}

/// The condition that picks the images of a folder: files that have the
/// folder as parent, are not in the bin, and are images by their kind.
pub open spec fn images_query_text(folder_id: Seq<char>) -> Seq<char> {
    "'"@ + folder_id + "' in parents and trashed=false and mimeType contains 'image/'"@
}

/// Where the images of a folder are listed: the condition goes
/// percent-encoded, and only identifier and name are asked for.
pub open spec fn list_images_url_text(folder_id: Seq<char>) -> Seq<char> {
    "https://www.googleapis.com/drive/v3/files?q="@ + percent_encoded(
        images_query_text(folder_id),
    ) + "&fields=files(id,name)"@
}

/// Where the store tells what a file is.
pub open spec fn file_meta_url_text(file_id: Seq<char>) -> Seq<char> {
    "https://www.googleapis.com/drive/v3/files/"@ + file_id
        + "?fields=mimeType,shortcutDetails(targetId,targetMimeType)"@
}

/// Where a file is copied.
pub open spec fn copy_url_text(file_id: Seq<char>) -> Seq<char> {
    "https://www.googleapis.com/drive/v3/files/"@ + file_id + "/copy?fields=id"@
}

/// Where a spreadsheet is exported as PDF.
pub open spec fn export_url_text(sheet_file_id: Seq<char>) -> Seq<char> {
    "https://www.googleapis.com/drive/v3/files/"@ + sheet_file_id
        + "/export?mimeType=application/pdf"@
}

/// Where a file is uploaded in two parts, description and content.
pub open spec fn upload_url_text() -> Seq<char> {
    "https://www.googleapis.com/upload/drive/v3/files?uploadType=multipart&fields=id"@
}

/// The spreadsheet that a file stands for: the file itself where it is a
/// spreadsheet, the target where it is a shortcut to one.
pub open spec fn resolved_sheet(
    file_id: Seq<char>,
    meta: FileMetaView,
) -> Result<Seq<char>, DriveErrorView> {
    if meta.mime_type == sheet_mime() {
        Ok(file_id)
    } else if meta.mime_type == shortcut_mime() {
        match meta.shortcut_details {
            None => Err(DriveErrorView::ShortcutDetailsMissing),
            Some(details) => if details.target_mime_type == sheet_mime() {
                Ok(details.target_id)
            } else {
                Err(
                    DriveErrorView::ShortcutTargetNotSheet {
                        target_mime_type: details.target_mime_type,
                    },
                )
            },
        }
    } else {
        Err(DriveErrorView::NotSheet { mime_type: meta.mime_type })
    }
}

/// What the user is told of an error.
pub open spec fn drive_error_text(error: DriveErrorView) -> Seq<char> {
    match error {
        DriveErrorView::ShortcutDetailsMissing => "shortcutDetails missing for template_sheet_id"@,
        DriveErrorView::ShortcutTargetNotSheet { target_mime_type } => {
            "template_sheet_id must point to a Google Sheets file (shortcut target is "@
                + target_mime_type + ")"@
        },
        DriveErrorView::NotSheet { mime_type } => {
            "template_sheet_id must point to a Google Sheets file (got "@ + mime_type + ")"@
        },
        DriveErrorView::NoId => "no id"@,
    }
}

impl DriveError {
    /// What the user is told of the error.
    pub fn message(&self) -> (text: String)
        ensures
            text@ == drive_error_text(self@),
    {
        match self {
            DriveError::ShortcutDetailsMissing => {
                "shortcutDetails missing for template_sheet_id".to_owned()
            },
            DriveError::ShortcutTargetNotSheet { target_mime_type } => {
                let mut out =
                    "template_sheet_id must point to a Google Sheets file (shortcut target is ".to_owned();
                out.append(target_mime_type.as_str());
                out.append(")");
                out
            },
            DriveError::NotSheet { mime_type } => {
                let mut out =
                    "template_sheet_id must point to a Google Sheets file (got ".to_owned();
                out.append(mime_type.as_str());
                out.append(")");
                out
            },
            DriveError::NoId => "no id".to_owned(),
        }
    }
}

/// The condition that picks the images of the folder `folder_id`.
pub fn images_query(folder_id: &str) -> (query: String)
    ensures
        query@ == images_query_text(folder_id@),
{
    let mut out = "'".to_owned();
    out.append(folder_id);
    out.append("' in parents and trashed=false and mimeType contains 'image/'");
    out
}

/// Where the images of the folder `folder_id` are listed.
pub fn list_images_url(folder_id: &str) -> (url: String)
    ensures
        url@ == list_images_url_text(folder_id@),
{
    let query = images_query(folder_id);
    let mut out = "https://www.googleapis.com/drive/v3/files?q=".to_owned();
    out.append(percent_encode(query.as_str()).as_str());
    out.append("&fields=files(id,name)");
    out
}

/// Where the store tells what the file `file_id` is.
pub fn file_meta_url(file_id: &str) -> (url: String)
    ensures
        url@ == file_meta_url_text(file_id@),
{
    let mut out = "https://www.googleapis.com/drive/v3/files/".to_owned();
    out.append(file_id);
    out.append("?fields=mimeType,shortcutDetails(targetId,targetMimeType)");
    out
}

/// The spreadsheet that the file `file_id` stands for, given what the store
/// tells of the file. Fails where the file is no spreadsheet and no shortcut
/// to one.
pub fn resolve_sheet_id(file_id: &str, meta: FileMeta) -> (sheet: Result<String, DriveError>)
    ensures
        match (sheet, resolved_sheet(file_id@, meta@)) {
            (Ok(id), Ok(expected)) => id@ == expected,
            (Err(error), Err(expected)) => error@ == expected,
            _ => false,
        },
{
    if str_eq(meta.mime_type.as_str(), "application/vnd.google-apps.spreadsheet") {
        Ok(file_id.to_owned())
    } else if str_eq(meta.mime_type.as_str(), "application/vnd.google-apps.shortcut") {
        match meta.shortcut_details {
            None => Err(DriveError::ShortcutDetailsMissing),
            Some(details) => {
                if str_eq(
                    details.target_mime_type.as_str(),
                    "application/vnd.google-apps.spreadsheet",
                ) {
                    Ok(details.target_id)
                } else {
                    Err(
                        DriveError::ShortcutTargetNotSheet {
                            target_mime_type: details.target_mime_type,
                        },
                    )
                }
            },
        }
    } else {
        Err(DriveError::NotSheet { mime_type: meta.mime_type })
    }
}

/// Where the file `file_id` is copied.
pub fn copy_url(file_id: &str) -> (url: String)
    ensures
        url@ == copy_url_text(file_id@),
{
    let mut out = "https://www.googleapis.com/drive/v3/files/".to_owned();
    out.append(file_id);
    out.append("/copy?fields=id");
    out
}

/// What is sent to have a file copied under the name `new_name`, into the
/// folder `parent_folder_id` where one is given.
pub fn copy_request(new_name: &str, parent_folder_id: Option<&str>) -> (request: CopyReq)
    ensures
        request.name@ == new_name@,
        match parent_folder_id {
            Some(folder) => request.parents matches Some(parents) && parents.deep_view() == seq![
                folder@,
            ],
            None => request.parents is None,
        },
{
    let parents = match parent_folder_id {
        Some(folder) => {
            let mut list: Vec<String> = Vec::new();
            list.push(folder.to_owned());
            proof {
                assert(list.deep_view() =~= seq![folder@]);
            }
            Some(list)
        },
        None => None,
    };
    CopyReq { name: new_name.to_owned(), parents }
}

/// The identifier of a file that the store has created, from its answer.
/// Fails where the answer names none.
pub fn created_id(id: Option<String>) -> (created: Result<String, DriveError>)
    ensures
        match id {
            Some(given) => created == Ok::<String, DriveError>(given),
            None => created == Err::<String, DriveError>(DriveError::NoId),
        },
{
    match id {
        Some(given) => Ok(given),
        None => Err(DriveError::NoId),
    }
}

/// Where the spreadsheet `sheet_file_id` is exported as PDF.
pub fn export_url(sheet_file_id: &str) -> (url: String)
    ensures
        url@ == export_url_text(sheet_file_id@),
{
    let mut out = "https://www.googleapis.com/drive/v3/files/".to_owned();
    out.append(sheet_file_id);
    out.append("/export?mimeType=application/pdf");
    out
}

/// Where a PDF is uploaded.
pub fn upload_url() -> (url: String)
    ensures
        url@ == upload_url_text(),
{
    "https://www.googleapis.com/upload/drive/v3/files?uploadType=multipart&fields=id".to_owned()
}

/// What is sent along with a PDF named `filename` that goes into the folder
/// `parent_folder_id`.
pub fn upload_metadata(parent_folder_id: &str, filename: &str) -> (meta: UploadMeta)
    ensures
        meta.name@ == filename@,
        meta.parents.deep_view() == seq![parent_folder_id@],
        meta.mime_type@ == pdf_mime(),
{
    let mut parents: Vec<String> = Vec::new();
    parents.push(parent_folder_id.to_owned());
    proof {
        assert(parents.deep_view() =~= seq![parent_folder_id@]);
    }
    UploadMeta { name: filename.to_owned(), parents, mime_type: "application/pdf".to_owned() }
}

} // verus!
