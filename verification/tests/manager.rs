use md_viewer::api::{ErrorKind, Failure};
use md_viewer::google::drive::interface::{
    create_folder, folder_contents, DriveFile, DriveFileList,
};
use md_viewer::google::drive::manager::{AppFolder, DriveManager, Lookup, Searched};

fn folder(id: &str, name: &str) -> DriveFile {
    DriveFile {
        id: id.to_string(),
        kind: "drive#file".to_string(),
        mime_type: "application/vnd.google-apps.folder".to_string(),
        name: name.to_string(),
    }
}

fn document(id: &str, name: &str) -> DriveFile {
    DriveFile {
        id: id.to_string(),
        kind: "drive#file".to_string(),
        mime_type: "application/vnd.google-apps.document".to_string(),
        name: name.to_string(),
    }
}

fn listing(files: Vec<DriveFile>) -> DriveFileList {
    DriveFileList { files, incomplete_search: false, kind: "drive#fileList".to_string() }
}

fn down() -> Failure {
    Failure { kind: ErrorKind::Transport, detail: "down".to_string() }
}

#[test]
fn inner_is_the_folder_itself() {
    let known = AppFolder::Info(folder("F", "app"));
    assert_eq!(known.inner(), &known);
}

#[test]
fn first_use_asks_for_the_top_of_the_drive() {
    let manager = DriveManager::new("app".to_string());
    assert_eq!(manager.app_folder_id("tok"), Lookup::Search(folder_contents("tok", "root")));
    assert_eq!(
        folder_contents("tok", "root").query,
        vec![("q".to_string(), "'root' in parents".to_string())]
    );
}

#[test]
fn a_folder_found_is_remembered() {
    let mut manager = DriveManager::new("app".to_string());
    let step = manager.searched(
        "tok",
        Ok(listing(vec![document("D", "app"), folder("X", "else"), folder("F", "app")])),
    );
    assert_eq!(step, Searched::Found("F".to_string()));
    assert_eq!(manager.app_folder_id("tok"), Lookup::Known("F".to_string()));
    assert_eq!(manager.app_folder_id("other"), Lookup::Known("F".to_string()));
}

#[test]
fn a_missing_folder_is_created_and_remembered() {
    let mut manager = DriveManager::new("app".to_string());
    let step = manager.searched("tok", Ok(listing(vec![document("D", "app")])));
    assert_eq!(step, Searched::Create(create_folder("tok", "app")));
    assert_eq!(manager.app_folder_id("tok"), Lookup::Search(folder_contents("tok", "root")));
    assert_eq!(manager.created(Ok(folder("NEW", "app"))), Ok("NEW".to_string()));
    assert_eq!(manager.app_folder_id("tok"), Lookup::Known("NEW".to_string()));
}

#[test]
fn a_failed_search_leaves_the_folder_unknown() {
    let mut manager = DriveManager::new("app".to_string());
    assert_eq!(manager.searched("tok", Err(down())), Searched::Failed(down()));
    assert_eq!(manager.app_folder_id("tok"), Lookup::Search(folder_contents("tok", "root")));
}

#[test]
fn a_failed_creation_leaves_the_folder_unknown() {
    let mut manager = DriveManager::new("app".to_string());
    assert_eq!(manager.created(Err(down())), Err(down()));
    assert_eq!(manager.app_folder_id("tok"), Lookup::Search(folder_contents("tok", "root")));
}

#[test]
fn a_known_folder_never_changes() {
    let mut manager = DriveManager::new("app".to_string());
    assert_eq!(manager.created(Ok(folder("F", "app"))), Ok("F".to_string()));
    assert_eq!(
        manager.searched("tok", Ok(listing(vec![folder("G", "app")]))),
        Searched::Found("F".to_string())
    );
    assert_eq!(manager.searched("tok", Err(down())), Searched::Found("F".to_string()));
    assert_eq!(manager.created(Ok(folder("H", "app"))), Ok("F".to_string()));
    assert_eq!(manager.created(Err(down())), Ok("F".to_string()));
    assert_eq!(manager.app_folder_id("tok"), Lookup::Known("F".to_string()));
}

fn resolve(manager: &mut DriveManager, sent: &mut usize) -> Result<String, Failure> {
    match manager.app_folder_id("tok") {
        Lookup::Known(id) => Ok(id),
        Lookup::Search(_) => {
            *sent += 1;
            match manager.searched("tok", Ok(listing(vec![]))) {
                Searched::Found(id) => Ok(id),
                Searched::Failed(failure) => Err(failure),
                Searched::Create(_) => {
                    *sent += 1;
                    manager.created(Ok(folder(&format!("made-{}", *sent), "app")))
                }
            }
        }
    }
}

#[test]
fn callers_served_in_turn_share_one_resolution() {
    let mut manager = DriveManager::new("app".to_string());
    let mut sent = 0;
    let first = resolve(&mut manager, &mut sent);
    assert_eq!(first, Ok("made-2".to_string()));
    assert_eq!(sent, 2);
    for _ in 0..5 {
        assert_eq!(resolve(&mut manager, &mut sent), first);
    }
    assert_eq!(sent, 2);
}
