//! Files of the remote drive: their description, listings of them, and the
//! requests that list and create them.

use vstd::prelude::*;
use vstd::string::*;
use crate::api::{
    failure, received, received_spec, ErrorKind, Failure, FailureView, Method, Reply, Request,
    RequestView,
};
use crate::json::{json_text, Json, JsonValue};
use crate::text::{join, pairs_view, same};

verus! {

/// A file or folder as the provider's listing and metadata calls describe it.
#[derive(Clone, Debug, PartialEq, Eq)]
pub struct DriveFile {
    pub id: String,
    pub kind: String,
    pub mime_type: String,
    pub name: String,
}

/// The mathematical value of a [`DriveFile`].
pub ghost struct DriveFileView {
    pub id: Seq<char>,
    pub kind: Seq<char>,
    pub mime_type: Seq<char>,
    pub name: Seq<char>,
}

impl View for DriveFile {
    type V = DriveFileView;

    open spec fn view(&self) -> DriveFileView {
        DriveFileView {
            id: self.id@,
            kind: self.kind@,
            mime_type: self.mime_type@,
            name: self.name@,
        }
    }
}

impl DriveFile {
    /// The file's id.
    pub fn to_id(&self) -> (id: String)
        ensures
            id@ == self@.id,
    {
        self.id.clone()
    }

    /// A copy of the description.
    pub fn copy(&self) -> (twin: DriveFile)
        ensures
            twin@ == self@,
    {
        DriveFile {
            id: self.id.clone(),
            kind: self.kind.clone(),
            mime_type: self.mime_type.clone(),
            name: self.name.clone(),
        }
    }
}

/// The kinds of file the library tells apart.
#[derive(Clone, Copy, Debug, PartialEq, Eq, Structural)]
pub enum FileType {
    Document,
    Spreadsheet,
    Folder,
}

impl FileType {
    /// The provider's short name of the type.
    pub open spec fn name(self) -> Seq<char> {
        match self {
            FileType::Document => "document"@,
            FileType::Spreadsheet => "spreadsheet"@,
            FileType::Folder => "folder"@,
        }
    }

    /// The MIME type by which the provider marks files of the type.
    pub open spec fn mime_type(self) -> Seq<char> {
        "application/vnd.google-apps."@ + self.name()
    }

    /// The type that a short name stands for.
    pub open spec fn named(value: Seq<char>) -> Option<FileType> {
        if value == "document"@ {
            Some(FileType::Document)
        } else if value == "spreadsheet"@ {
            Some(FileType::Spreadsheet)
        } else if value == "folder"@ {
            Some(FileType::Folder)
        } else {
            None
        }
    }

    /// The type that a short name stands for; `None` for any other text.
    pub fn from_str(value: &str) -> (file_type: Option<FileType>)
        ensures
            file_type == FileType::named(value@),
    {
        if same(value, "document") {
            Some(FileType::Document)
        } else if same(value, "spreadsheet") {
            Some(FileType::Spreadsheet)
        } else if same(value, "folder") {
            Some(FileType::Folder)
        } else {
            None
        }
    }

    /// The provider's short name of the type.
    pub fn as_str(&self) -> (name: &'static str)
        ensures
            name@ == self.name(),
    {
        match self {
            FileType::Document => "document",
            FileType::Spreadsheet => "spreadsheet",
            FileType::Folder => "folder",
        }
    }

    /// The MIME type by which the provider marks files of the type.
    pub fn as_mime_type(&self) -> (mime: String)
        ensures
            mime@ == self.mime_type(),
    {
        join("application/vnd.google-apps.", self.as_str())
    }
}

/// A listing of files as the provider returns it.
#[derive(Clone, Debug, PartialEq, Eq)]
pub struct DriveFileList {
    pub files: Vec<DriveFile>,
    pub incomplete_search: bool,
    pub kind: String,
}

/// The values of a list of files, one by one.
pub open spec fn files_view(files: Seq<DriveFile>) -> Seq<DriveFileView> {
    Seq::new(files.len(), |i: int| files[i]@)
}

/// The first file of a listing that bears the name and the MIME type.
pub open spec fn find_spec(files: Seq<DriveFileView>, name: Seq<char>, mime_type: Seq<char>)
    -> Option<DriveFileView>
    decreases files.len(),
{
    if files.len() == 0 {
        None
    } else if files[0].name == name && files[0].mime_type == mime_type {
        Some(files[0])
    } else {
        find_spec(files.drop_first(), name, mime_type)
    }
}

/// Searching a listing finds what searching its tail finds, once the files
/// before the tail are known not to match.
proof fn lemma_find_skip(
    files: Seq<DriveFileView>,
    name: Seq<char>,
    mime_type: Seq<char>,
    from: int,
)
    requires
        0 <= from <= files.len(),
        forall|j: int| 0 <= j < from ==> !(files[j].name == name && files[j].mime_type == mime_type),
    ensures
        find_spec(files, name, mime_type) == find_spec(
            files.subrange(from, files.len() as int),
            name,
            mime_type,
        ),
    decreases from,
{
    if from == 0 {
        assert(files.subrange(0, files.len() as int) =~= files);
    } else {
        lemma_find_skip(files.drop_first(), name, mime_type, from - 1);
        assert(files.drop_first().subrange(from - 1, files.len() - 1) =~= files.subrange(
            from,
            files.len() as int,
        ));
    }
}

/// The value of an optional file.
pub open spec fn file_option_view(file: Option<DriveFile>) -> Option<DriveFileView> {
    match file {
        Some(found) => Some(found@),
        None => None,
    }
}

impl DriveFileList {
    /// The files of the listing that are of the given type, in the order of
    /// the listing.
    pub fn filter_with_type(self, filetype: &FileType) -> (kept: Vec<DriveFile>)
        ensures
            files_view(kept@) == files_view(self.files@).filter(
                |file: DriveFileView| file.mime_type == filetype.mime_type(),
            ),
    {
        let mime = filetype.as_mime_type();
        let ghost all = files_view(self.files@);
        let ghost wanted = |file: DriveFileView| file.mime_type == filetype.mime_type();
        let mut kept: Vec<DriveFile> = Vec::new();
        let mut i: usize = 0;
        assert(files_view(kept@) =~= all.take(0).filter(wanted)) by {
            reveal(Seq::filter);
        }
        while i < self.files.len()
            invariant
                0 <= i <= self.files.len(),
                all == files_view(self.files@),
                mime@ == filetype.mime_type(),
                wanted == |file: DriveFileView| file.mime_type == filetype.mime_type(),
                files_view(kept@) == all.take(i as int).filter(wanted),
            decreases self.files.len() - i,
        {
            let ghost before = files_view(kept@);
            let ghost next = all.take(i + 1);
            assert(next.drop_last() =~= all.take(i as int));
            assert(next.last() == self.files@[i as int]@);
            assert(next.filter(wanted) == if wanted(next.last()) {
                next.drop_last().filter(wanted).push(next.last())
            } else {
                next.drop_last().filter(wanted)
            }) by {
                reveal(Seq::filter);
            }
            if self.files[i].mime_type == mime {
                kept.push(self.files[i].copy());
                assert(files_view(kept@) =~= before.push(self.files@[i as int]@));
            }
            i += 1;
        }
        assert(all.take(self.files.len() as int) =~= all);
        kept
    }

    /// The first file of the listing that bears the name and is of the type.
    pub fn find(self, filename: &str, filetype: &FileType) -> (found: Option<DriveFile>)
        ensures
            file_option_view(found) == find_spec(
                files_view(self.files@),
                filename@,
                filetype.mime_type(),
            ),
    {
        let mime = filetype.as_mime_type();
        let ghost all = files_view(self.files@);
        let mut i: usize = 0;
        while i < self.files.len()
            invariant
                0 <= i <= self.files.len(),
                all == files_view(self.files@),
                mime@ == filetype.mime_type(),
                forall|j: int|
                    0 <= j < i ==> !(all[j].name == filename@ && all[j].mime_type
                        == filetype.mime_type()),
            decreases self.files.len() - i,
        {
            if same(self.files[i].name.as_str(), filename) && self.files[i].mime_type == mime {
                proof {
                    lemma_find_skip(all, filename@, filetype.mime_type(), i as int);
                }
                return Some(self.files[i].copy());
            }
            i += 1;
        }
        proof {
            lemma_find_skip(all, filename@, filetype.mime_type(), all.len() as int);
        }
        None
    }
}

/// How `std` prints a list of string pairs with `{:?}`.
pub uninterp spec fn debug_pairs(pairs: Seq<(Seq<char>, Seq<char>)>) -> Seq<char>;

/// `format!("{:?}", ..)` on a list of string pairs. The contract claims only
/// that the text is a fixed function of the pairs.
#[verifier::external_body]
fn debug_query(query: &Vec<(String, String)>) -> (text: String)
    ensures
        text@ == debug_pairs(pairs_view(query@)),
{
    format!("{:?}", query)
}

/// The address of the provider's file collection.
pub open spec fn files_url() -> Seq<char> {
    "https://www.googleapis.com/drive/v3/files"@
}

/// The query that selects what lies directly in the folder `folder_id`.
pub open spec fn parent_query(folder_id: Seq<char>) -> Seq<(Seq<char>, Seq<char>)> {
    seq![("q"@, "'"@ + folder_id + "' in parents"@)]
}

/// The request that lists the files a query selects.
pub fn load_files(query: Vec<(String, String)>, token: &str) -> (request: Request)
    ensures
        request@ == (RequestView {
            method: Method::Get,
            url: files_url(),
            bearer: Some(token@),
            content_type: None,
            query: pairs_view(query@),
            form: Seq::empty(),
            body: None,
        }),
{
    let request = Request {
        method: Method::Get,
        url: String::from_str("https://www.googleapis.com/drive/v3/files"),
        bearer: Some(token.to_owned()),
        content_type: None,
        query,
        form: Vec::new(),
        body: None,
    };
    assert(request@.form =~= Seq::empty());
    request
}

/// The request that lists what lies directly in the folder `folder_id`;
/// `root` names the top of the drive.
pub fn folder_contents(token: &str, folder_id: &str) -> (request: Request)
    ensures
        request@ == (RequestView {
            method: Method::Get,
            url: files_url(),
            bearer: Some(token@),
            content_type: None,
            query: parent_query(folder_id@),
            form: Seq::empty(),
            body: None,
        }),
{
    let mut selection = join("'", folder_id);
    selection.append("' in parents");
    let mut query: Vec<(String, String)> = Vec::new();
    query.push((String::from_str("q"), selection));
    assert(pairs_view(query@) =~= parent_query(folder_id@));
    load_files(query, token)
}

/// The text of the failure to read a listing: the query, the decoder's
/// message and the text that could not be read.
pub open spec fn unreadable_listing(
    query: Seq<(Seq<char>, Seq<char>)>,
    message: Seq<char>,
    text: Seq<char>,
) -> Seq<char> {
    "Failed to deserialise on query "@ + debug_pairs(query) + ":\n"@ + message
        + "\n\nData (conversion objective was DriveFileList):\n"@ + text
}

/// The listing read from the body `text` of the reply to [`load_files`],
/// where `decoded` is what decoding that body gave: the listing itself, or
/// a failure that shows the query, the decoder's message and the body.
pub fn loaded_files(
    query: &Vec<(String, String)>,
    text: &str,
    decoded: Result<DriveFileList, String>,
) -> (outcome: Result<DriveFileList, Failure>)
    ensures
        match decoded {
            Ok(listing) => outcome == Ok::<DriveFileList, Failure>(listing),
            Err(message) => outcome matches Err(failure) && failure@ == (FailureView {
                kind: ErrorKind::Deserialization,
                detail: unreadable_listing(pairs_view(query@), message@, text@),
            }),
        },
{
    match decoded {
        Ok(listing) => Ok(listing),
        Err(message) => {
            let mut detail = join("Failed to deserialise on query ", debug_query(query).as_str());
            detail.append(":\n");
            detail.append(message.as_str());
            detail.append("\n\nData (conversion objective was DriveFileList):\n");
            detail.append(text);
            Err(Failure { kind: ErrorKind::Deserialization, detail })
        },
    }
}

/// Whether the top of the drive holds a file of the name and type, given
/// the listing of the top or the failure to get it.
pub fn root_contains_file(
    listing: Result<DriveFileList, Failure>,
    filename: &str,
    filetype: &FileType,
) -> (outcome: Result<Option<DriveFile>, Failure>)
    ensures
        match listing {
            Ok(files) => outcome matches Ok(found) && file_option_view(found) == find_spec(
                files_view(files.files@),
                filename@,
                filetype.mime_type(),
            ),
            Err(failure) => outcome == Err::<Option<DriveFile>, Failure>(failure),
        },
{
    match listing {
        Ok(files) => Ok(files.find(filename, filetype)),
        Err(failure) => Err(failure),
    }
}

/// The JSON that describes a new file: its name and its MIME type.
pub open spec fn new_file_json(name: Seq<char>, mime_type: Seq<char>) -> JsonValue {
    JsonValue::Object(seq![("name"@, JsonValue::Text(name)), ("mimeType"@, JsonValue::Text(mime_type))])
}

/// The body that creates a folder: one JSON part between the boundary
/// lines of a `multipart/related` message.
pub open spec fn folder_multipart(name: Seq<char>) -> Seq<char> {
    "--boundary\r\nContent-Type: application/json; charset=UTF-8\r\n\r\n"@ + json_text(
        new_file_json(name, FileType::Folder.mime_type()),
    ) + "\r\n--boundary--\r\n"@
}

/// The request that creates a folder named `filename` at the top of the
/// drive.
pub fn create_folder(token: &str, filename: &str) -> (request: Request)
    ensures
        request@ == (RequestView {
            method: Method::Post,
            url: "https://www.googleapis.com/upload/drive/v3/files?uploadType=multipart"@,
            bearer: Some(token@),
            content_type: Some("multipart/related; boundary=boundary"@),
            query: Seq::empty(),
            form: Seq::empty(),
            body: Some(folder_multipart(filename@)),
        }),
{
    let mime = FileType::Folder.as_mime_type();
    let metadata = Json::pair("name", Json::text(filename), "mimeType", Json::text(mime.as_str()));
    let mut multipart = join(
        "--boundary\r\nContent-Type: application/json; charset=UTF-8\r\n\r\n",
        metadata.render().as_str(),
    );
    multipart.append("\r\n--boundary--\r\n");
    Request::post(
        String::from_str("https://www.googleapis.com/upload/drive/v3/files?uploadType=multipart"),
        token,
        String::from_str("multipart/related; boundary=boundary"),
        multipart,
    )
}

/// The request that creates a file of the given name and type at the top
/// of the drive.
pub fn create_file(token: &str, filename: &str, filetype: &FileType) -> (request: Request)
    ensures
        request@ == (RequestView {
            method: Method::Post,
            url: files_url(),
            bearer: Some(token@),
            content_type: Some("application/json"@),
            query: Seq::empty(),
            form: Seq::empty(),
            body: Some(json_text(new_file_json(filename@, filetype.mime_type()))),
        }),
{
    let mime = filetype.as_mime_type();
    let metadata = Json::pair("name", Json::text(filename), "mimeType", Json::text(mime.as_str()));
    Request::post(
        String::from_str("https://www.googleapis.com/drive/v3/files"),
        token,
        String::from_str("application/json"),
        metadata.render(),
    )
}

/// What [`created_text`] yields for a reply.
pub open spec fn created_text_spec(reply: Reply) -> Result<Seq<char>, FailureView> {
    match received_spec(reply, "Failed to post: "@, "Failed to get text: "@) {
        Ok((status, body)) => Ok(body),
        Err(failure) => Err(failure),
    }
}

/// The body of the reply to [`create_folder`] or [`create_file`], whatever
/// its status; or the transport failure.
pub fn created_text(reply: Reply) -> (outcome: Result<String, Failure>)
    ensures
        crate::api::text_result_view(outcome) == created_text_spec(reply),
{
    match received(reply, "Failed to post: ", "Failed to get text: ") {
        Ok((_, body)) => Ok(body),
        Err(failure) => Err(failure),
    }
}

/// The created file, where `decoded` is what decoding the body of the
/// reply gave: the file itself, or a failure led by `prefix` that shows the
/// decoder's message.
pub fn created(decoded: Result<DriveFile, String>, prefix: &str) -> (outcome: Result<
    DriveFile,
    Failure,
>)
    ensures
        match decoded {
            Ok(file) => outcome == Ok::<DriveFile, Failure>(file),
            Err(message) => outcome matches Err(failure) && failure@ == (FailureView {
                kind: ErrorKind::Deserialization,
                detail: prefix@ + message@,
            }),
        },
{
    match decoded {
        Ok(file) => Ok(file),
        Err(message) => Err(failure(ErrorKind::Deserialization, prefix, message.as_str())),
    }
}

/// The address of a file's metadata.
pub open spec fn metadata_url(file_id: Seq<char>) -> Seq<char> {
    "https://www.googleapis.com/drive/v3/files/"@ + file_id
}

/// The request for a file's metadata: its name and MIME type among others.
pub fn get_file_metadata(token: &str, file_id: &str) -> (request: Request)
    ensures
        request@ == (RequestView {
            method: Method::Get,
            url: metadata_url(file_id@),
            bearer: Some(token@),
            content_type: None,
            query: Seq::empty(),
            form: Seq::empty(),
            body: None,
        }),
{
    Request::get(join("https://www.googleapis.com/drive/v3/files/", file_id), token)
}

/// What [`file_metadata`] yields for a reply.
pub open spec fn file_metadata_spec(reply: Reply) -> Result<Seq<char>, FailureView> {
    match received_spec(reply, "Failed to fetch metadata: "@, "Failed to get text: "@) {
        Ok((status, body)) => Ok(body),
        Err(failure) => Err(failure),
    }
}

/// The metadata text, from the reply to [`get_file_metadata`].
pub fn file_metadata(reply: Reply) -> (outcome: Result<String, Failure>)
    ensures
        crate::api::text_result_view(outcome) == file_metadata_spec(reply),
{
    match received(reply, "Failed to fetch metadata: ", "Failed to get text: ") {
        Ok((_, body)) => Ok(body),
        Err(failure) => Err(failure),
    }
}

/// What is to be done so that the top of the drive holds a file.
#[derive(Clone, Debug, PartialEq, Eq)]
pub enum Ensured {
    /// The file is there.
    Present(DriveFile),
    /// The file is missing: this request creates it.
    Create(Request),
    /// The top of the drive could not be searched.
    Failed(Failure),
}

/// Decides, from the search of the top of the drive, whether a file of the
/// name and type is there or has to be created.
pub fn insure_root_contains_file(
    searched: Result<Option<DriveFile>, Failure>,
    token: &str,
    filename: &str,
    filetype: &FileType,
) -> (decision: Ensured)
    ensures
        match searched {
            Ok(Some(file)) => decision == Ensured::Present(file),
            Ok(None) => decision matches Ensured::Create(request) && request@ == (RequestView {
                method: Method::Post,
                url: files_url(),
                bearer: Some(token@),
                content_type: Some("application/json"@),
                query: Seq::empty(),
                form: Seq::empty(),
                body: Some(json_text(new_file_json(filename@, filetype.mime_type()))),
            }),
            Err(failure) => decision == Ensured::Failed(failure),
        },
{
    match searched {
        Ok(Some(file)) => Ensured::Present(file),
        Ok(None) => Ensured::Create(create_file(token, filename, filetype)),
        Err(failure) => Ensured::Failed(failure),
    }
}

} // verus!
