use md_viewer::api::{ErrorKind, Failure, Method, Reply, Request};
use md_viewer::google::drive::interface::{
    create_file, create_folder, created, created_text, file_metadata, folder_contents,
    get_file_metadata, insure_root_contains_file, load_files, loaded_files, root_contains_file,
    DriveFile, DriveFileList, Ensured, FileType,
};

fn file(id: &str, name: &str, kind: &str) -> DriveFile {
    DriveFile {
        id: id.to_string(),
        kind: "drive#file".to_string(),
        mime_type: format!("application/vnd.google-apps.{}", kind),
        name: name.to_string(),
    }
}

fn listing(files: Vec<DriveFile>) -> DriveFileList {
    DriveFileList { files, incomplete_search: false, kind: "drive#fileList".to_string() }
}

fn sample() -> DriveFileList {
    listing(vec![
        file("1", "notes", "document"),
        file("2", "notes", "folder"),
        file("3", "sheet", "spreadsheet"),
        file("4", "notes", "folder"),
        file("5", "other", "folder"),
    ])
}

#[test]
fn to_id_copies_the_id() {
    assert_eq!(file("abc", "n", "folder").to_id(), "abc");
    assert_eq!(file("abc", "n", "folder").copy(), file("abc", "n", "folder"));
}

#[test]
fn file_types_have_names_and_mime_types() {
    assert_eq!(FileType::Document.as_str(), "document");
    assert_eq!(FileType::Spreadsheet.as_str(), "spreadsheet");
    assert_eq!(FileType::Folder.as_str(), "folder");
    assert_eq!(FileType::Document.as_mime_type(), "application/vnd.google-apps.document");
    assert_eq!(FileType::Spreadsheet.as_mime_type(), "application/vnd.google-apps.spreadsheet");
    assert_eq!(FileType::Folder.as_mime_type(), "application/vnd.google-apps.folder");
}

#[test]
fn file_types_are_read_from_their_names_only() {
    assert_eq!(FileType::from_str("document"), Some(FileType::Document));
    assert_eq!(FileType::from_str("spreadsheet"), Some(FileType::Spreadsheet));
    assert_eq!(FileType::from_str("folder"), Some(FileType::Folder));
    assert_eq!(FileType::from_str("Folder"), None);
    assert_eq!(FileType::from_str(""), None);
    assert_eq!(FileType::from_str("application/vnd.google-apps.folder"), None);
}

#[test]
fn filter_with_type_keeps_the_order_of_the_listing() {
    assert_eq!(
        sample().filter_with_type(&FileType::Folder),
        vec![file("2", "notes", "folder"), file("4", "notes", "folder"), file("5", "other", "folder")]
    );
    assert_eq!(
        sample().filter_with_type(&FileType::Document),
        vec![file("1", "notes", "document")]
    );
    assert_eq!(listing(vec![]).filter_with_type(&FileType::Folder), vec![]);
    assert_eq!(
        listing(vec![file("1", "a", "document")]).filter_with_type(&FileType::Spreadsheet),
        vec![]
    );
}

#[test]
fn find_takes_the_first_of_name_and_type() {
    assert_eq!(sample().find("notes", &FileType::Folder), Some(file("2", "notes", "folder")));
    assert_eq!(sample().find("notes", &FileType::Document), Some(file("1", "notes", "document")));
    assert_eq!(sample().find("notes", &FileType::Spreadsheet), None);
    assert_eq!(sample().find("missing", &FileType::Folder), None);
    assert_eq!(listing(vec![]).find("notes", &FileType::Folder), None);
}

#[test]
fn load_files_carries_the_query() {
    let query = vec![("q".to_string(), "x".to_string())];
    assert_eq!(
        load_files(query.clone(), "tok"),
        Request {
            method: Method::Get,
            url: "https://www.googleapis.com/drive/v3/files".to_string(),
            bearer: Some("tok".to_string()),
            content_type: None,
            query,
            form: vec![],
            body: None,
        }
    );
}

#[test]
fn folder_contents_selects_by_parent() {
    let request = folder_contents("tok", "F1");
    assert_eq!(request.query, vec![("q".to_string(), "'F1' in parents".to_string())]);
    assert_eq!(request.url, "https://www.googleapis.com/drive/v3/files");
    assert_eq!(request.method, Method::Get);
    assert_eq!(request.bearer, Some("tok".to_string()));
}

#[test]
fn loaded_files_keeps_a_decoded_listing() {
    assert_eq!(loaded_files(&vec![], "{}", Ok(sample())), Ok(sample()));
}

#[test]
fn loaded_files_shows_query_message_and_text() {
    let query = vec![("q".to_string(), "'root' in parents".to_string())];
    assert_eq!(
        loaded_files(&query, "{\"error\":1}", Err("missing field `files`".to_string())),
        Err(Failure {
            kind: ErrorKind::Deserialization,
            detail: "Failed to deserialise on query [(\"q\", \"'root' in parents\")]:\nmissing field `files`\n\nData (conversion objective was DriveFileList):\n{\"error\":1}"
                .to_string()
        })
    );
}

#[test]
fn root_contains_file_searches_the_listing() {
    assert_eq!(
        root_contains_file(Ok(sample()), "other", &FileType::Folder),
        Ok(Some(file("5", "other", "folder")))
    );
    assert_eq!(root_contains_file(Ok(sample()), "other", &FileType::Document), Ok(None));
    let failure = Failure { kind: ErrorKind::Transport, detail: "down".to_string() };
    assert_eq!(
        root_contains_file(Err(failure.clone()), "other", &FileType::Folder),
        Err(failure)
    );
}

#[test]
fn create_folder_sends_one_json_part() {
    assert_eq!(
        create_folder("tok", "my \"notes\""),
        Request {
            method: Method::Post,
            url: "https://www.googleapis.com/upload/drive/v3/files?uploadType=multipart"
                .to_string(),
            bearer: Some("tok".to_string()),
            content_type: Some("multipart/related; boundary=boundary".to_string()),
            query: vec![],
            form: vec![],
            body: Some(
                "--boundary\r\nContent-Type: application/json; charset=UTF-8\r\n\r\n{\"mimeType\":\"application/vnd.google-apps.folder\",\"name\":\"my \\\"notes\\\"\"}\r\n--boundary--\r\n"
                    .to_string()
            ),
        }
    );
}

#[test]
fn create_file_sends_name_and_type() {
    assert_eq!(
        create_file("tok", "hello", &FileType::Document),
        Request::post(
            "https://www.googleapis.com/drive/v3/files".to_string(),
            "tok",
            "application/json".to_string(),
            "{\"mimeType\":\"application/vnd.google-apps.document\",\"name\":\"hello\"}"
                .to_string()
        )
    );
}

#[test]
fn created_text_relays_the_body() {
    assert_eq!(
        created_text(Reply::Received { status: 200, body: "{}".to_string() }),
        Ok("{}".to_string())
    );
    assert_eq!(
        created_text(Reply::Unsent("down".to_string())),
        Err(Failure { kind: ErrorKind::Transport, detail: "Failed to post: down".to_string() })
    );
    assert_eq!(
        created_text(Reply::Unread { status: 200, message: "cut".to_string() }),
        Err(Failure { kind: ErrorKind::Transport, detail: "Failed to get text: cut".to_string() })
    );
}

#[test]
fn created_keeps_the_file_or_shows_the_decoder_message() {
    assert_eq!(
        created(Ok(file("9", "n", "folder")), "Failed to serialise response: "),
        Ok(file("9", "n", "folder"))
    );
    assert_eq!(
        created(Err("missing field `id`".to_string()), "Failed to serialise response: "),
        Err(Failure {
            kind: ErrorKind::Deserialization,
            detail: "Failed to serialise response: missing field `id`".to_string()
        })
    );
}

#[test]
fn metadata_is_asked_for_and_relayed() {
    assert_eq!(
        get_file_metadata("tok", "F9"),
        Request::get("https://www.googleapis.com/drive/v3/files/F9".to_string(), "tok")
    );
    assert_eq!(
        file_metadata(Reply::Received { status: 200, body: "{\"name\":\"n\"}".to_string() }),
        Ok("{\"name\":\"n\"}".to_string())
    );
    assert_eq!(
        file_metadata(Reply::Unsent("down".to_string())),
        Err(Failure {
            kind: ErrorKind::Transport,
            detail: "Failed to fetch metadata: down".to_string()
        })
    );
    assert_eq!(
        file_metadata(Reply::Unread { status: 200, message: "cut".to_string() }),
        Err(Failure { kind: ErrorKind::Transport, detail: "Failed to get text: cut".to_string() })
    );
}

#[test]
fn insure_root_contains_file_creates_only_what_is_missing() {
    assert_eq!(
        insure_root_contains_file(
            Ok(Some(file("1", "hello", "document"))),
            "tok",
            "hello",
            &FileType::Document
        ),
        Ensured::Present(file("1", "hello", "document"))
    );
    assert_eq!(
        insure_root_contains_file(Ok(None), "tok", "hello", &FileType::Document),
        Ensured::Create(create_file("tok", "hello", &FileType::Document))
    );
    let failure = Failure { kind: ErrorKind::Transport, detail: "down".to_string() };
    assert_eq!(
        insure_root_contains_file(Err(failure.clone()), "tok", "hello", &FileType::Document),
        Ensured::Failed(failure)
    );
}
