//! The app folder: one named folder at the top of the drive, found or
//! created on first use and remembered from then on.
//!
//! A resolution is a short exchange. [`DriveManager::app_folder_id`] either
//! knows the id or asks for the listing of the top of the drive;
//! [`DriveManager::searched`] takes the listing and either finds the folder
//! or asks for its creation; [`DriveManager::created`] takes the created
//! folder. The caller holds the manager exclusively from the first step to
//! the last, so resolutions never interleave.

use vstd::prelude::*;
use vstd::string::*;
use crate::api::{Failure, FailureView, Method, Request, RequestView};
use crate::google::drive::interface::{
    create_folder, files_url, files_view, find_spec, folder_contents, folder_multipart,
    parent_query, DriveFile, DriveFileList, DriveFileView, FileType,
};

verus! {

/// What is known of the app folder.
#[derive(Clone, Debug, PartialEq, Eq)]
pub enum AppFolder {
    /// Only its name: it has not been looked for yet.
    Name(String),
    /// The folder as the provider describes it.
    Info(DriveFile),
}

/// The mathematical value of an [`AppFolder`].
pub ghost enum AppFolderView {
    Name(Seq<char>),
    Info(DriveFileView),
}

impl View for AppFolder {
    type V = AppFolderView;

    open spec fn view(&self) -> AppFolderView {
        match self {
            AppFolder::Name(name) => AppFolderView::Name(name@),
            AppFolder::Info(file) => AppFolderView::Info(file@),
        }
    }
}

impl AppFolder {
    /// The folder itself.
    pub fn inner(&self) -> (folder: &AppFolder)
        ensures
            folder == self,
    {
        self
    }
}

/// The first step of a resolution.
#[derive(Clone, Debug, PartialEq, Eq)]
pub enum Lookup {
    /// The folder is known: its id. Nothing is to be sent.
    Known(String),
    /// The folder is not known: the request that lists the top of the drive.
    Search(Request),
}

/// The mathematical value of a [`Lookup`].
pub ghost enum LookupView {
    Known(Seq<char>),
    Search(RequestView),
}

impl View for Lookup {
    type V = LookupView;

    open spec fn view(&self) -> LookupView {
        match self {
            Lookup::Known(id) => LookupView::Known(id@),
            Lookup::Search(request) => LookupView::Search(request@),
        }
    }
}

/// The second step of a resolution.
#[derive(Clone, Debug, PartialEq, Eq)]
pub enum Searched {
    /// The folder exists: its id.
    Found(String),
    /// The folder does not exist: the request that creates it.
    Create(Request),
    /// The listing could not be had.
    Failed(Failure),
}

/// The mathematical value of a [`Searched`].
pub ghost enum SearchedView {
    Found(Seq<char>),
    Create(RequestView),
    Failed(FailureView),
}

impl View for Searched {
    type V = SearchedView;

    open spec fn view(&self) -> SearchedView {
        match self {
            Searched::Found(id) => SearchedView::Found(id@),
            Searched::Create(request) => SearchedView::Create(request@),
            Searched::Failed(failure) => SearchedView::Failed(failure@),
        }
    }
}

/// The request that lists the top of the drive.
pub open spec fn search_request(token: Seq<char>) -> RequestView {
    RequestView {
        method: Method::Get,
        url: files_url(),
        bearer: Some(token),
        content_type: None,
        query: parent_query("root"@),
        form: Seq::empty(),
        body: None,
    }
}

/// The request that creates the folder `name` at the top of the drive.
pub open spec fn creation_request(token: Seq<char>, name: Seq<char>) -> RequestView {
    RequestView {
        method: Method::Post,
        url: "https://www.googleapis.com/upload/drive/v3/files?uploadType=multipart"@,
        bearer: Some(token),
        content_type: Some("multipart/related; boundary=boundary"@),
        query: Seq::empty(),
        form: Seq::empty(),
        body: Some(folder_multipart(name)),
    }
}

/// What the first step answers in a state.
pub open spec fn lookup_spec(state: AppFolderView, token: Seq<char>) -> LookupView {
    match state {
        AppFolderView::Info(file) => LookupView::Known(file.id),
        AppFolderView::Name(name) => LookupView::Search(search_request(token)),
    }
}

/// The state after the second step, and what the step answers. A folder
/// that is known stays as it is, whatever the listing says.
pub open spec fn searched_spec(
    state: AppFolderView,
    token: Seq<char>,
    listing: Result<Seq<DriveFileView>, FailureView>,
) -> (AppFolderView, SearchedView) {
    match state {
        AppFolderView::Info(file) => (state, SearchedView::Found(file.id)),
        AppFolderView::Name(name) => match listing {
            Err(failure) => (state, SearchedView::Failed(failure)),
            Ok(files) => match find_spec(files, name, FileType::Folder.mime_type()) {
                Some(file) => (AppFolderView::Info(file), SearchedView::Found(file.id)),
                None => (state, SearchedView::Create(creation_request(token, name))),
            },
        },
    }
}

/// The state after the third step, and what the step answers. A folder
/// that is known stays as it is; a failed creation leaves the folder
/// unknown.
pub open spec fn created_spec(state: AppFolderView, made: Result<DriveFileView, FailureView>) -> (
    AppFolderView,
    Result<Seq<char>, FailureView>,
) {
    match state {
        AppFolderView::Info(file) => (state, Ok(file.id)),
        AppFolderView::Name(name) => match made {
            Ok(file) => (AppFolderView::Info(file), Ok(file.id)),
            Err(failure) => (state, Err(failure)),
        },
    }
}

/// The value of a listing or of the failure to get one.
pub open spec fn listing_view(listing: Result<DriveFileList, Failure>) -> Result<
    Seq<DriveFileView>,
    FailureView,
> {
    match listing {
        Ok(files) => Ok(files_view(files.files@)),
        Err(failure) => Err(failure@),
    }
}

/// The value of a created file or of the failure to create one.
pub open spec fn made_view(made: Result<DriveFile, Failure>) -> Result<
    DriveFileView,
    FailureView,
> {
    match made {
        Ok(file) => Ok(file@),
        Err(failure) => Err(failure@),
    }
}

/// Owner of the app folder's identity.
#[derive(Clone, Debug, PartialEq, Eq)]
pub struct DriveManager {
    app_folder: AppFolder,
}

impl View for DriveManager {
    type V = AppFolderView;

    closed spec fn view(&self) -> AppFolderView {
        self.app_folder@
    }
}

impl DriveManager {
    /// A manager that knows the folder's name only.
    pub fn new(folder_name: String) -> (manager: DriveManager)
        ensures
            manager@ == AppFolderView::Name(folder_name@),
    {
        DriveManager { app_folder: AppFolder::Name(folder_name) }
    }

    /// First step: the id of the app folder where it is known, else the
    /// request that lists the top of the drive.
    pub fn app_folder_id(&self, token: &str) -> (step: Lookup)
        ensures
            step@ == lookup_spec(self@, token@),
    {
        match self.app_folder.inner() {
            AppFolder::Info(folder) => Lookup::Known(folder.to_id()),
            AppFolder::Name(_) => Lookup::Search(folder_contents(token, "root")),
        }
    }

    /// Second step: takes the listing of the top of the drive. A folder of
    /// the name found there becomes the app folder; where there is none the
    /// request that creates it is returned.
    pub fn searched(&mut self, token: &str, listing: Result<DriveFileList, Failure>) -> (step:
        Searched)
        ensures
            (final(self)@, step@) == searched_spec(old(self)@, token@, listing_view(listing)),
    {
        match &self.app_folder {
            AppFolder::Info(folder) => Searched::Found(folder.to_id()),
            AppFolder::Name(name) => match listing {
                Err(failure) => Searched::Failed(failure),
                Ok(files) => match files.find(name.as_str(), &FileType::Folder) {
                    Some(folder) => {
                        let id = folder.to_id();
                        self.app_folder = AppFolder::Info(folder);
                        Searched::Found(id)
                    },
                    None => Searched::Create(create_folder(token, name.as_str())),
                },
            },
        }
    }

    /// Third step: takes the created folder, which becomes the app folder,
    /// or the failure to create it.
    pub fn created(&mut self, made: Result<DriveFile, Failure>) -> (outcome: Result<
        String,
        Failure,
    >)
        ensures
            (final(self)@, crate::api::text_result_view(outcome)) == created_spec(
                old(self)@,
                made_view(made),
            ),
    {
        match &self.app_folder {
            AppFolder::Info(folder) => Ok(folder.to_id()),
            AppFolder::Name(_) => match made {
                Ok(folder) => {
                    let id = folder.to_id();
                    self.app_folder = AppFolder::Info(folder);
                    Ok(id)
                },
                Err(failure) => Err(failure),
            },
        }
    }
}

/// One caller's resolution: the token it brings and what the provider
/// would answer to the requests that the resolution may send.
pub ghost struct Call {
    pub token: Seq<char>,
    pub listing: Result<Seq<DriveFileView>, FailureView>,
    pub creation: Result<DriveFileView, FailureView>,
}

/// One resolution carried through: the state it leaves, what the caller
/// observes and the requests that were sent for it, in order.
pub ghost struct Resolution {
    pub state: AppFolderView,
    pub outcome: Result<Seq<char>, FailureView>,
    pub requests: Seq<RequestView>,
}

/// A resolution from the first step to the last one that it needs.
pub open spec fn resolve(state: AppFolderView, call: Call) -> Resolution {
    match lookup_spec(state, call.token) {
        LookupView::Known(id) => Resolution { state, outcome: Ok(id), requests: Seq::empty() },
        LookupView::Search(search) => {
            let (after, step) = searched_spec(state, call.token, call.listing);
            match step {
                SearchedView::Found(id) => Resolution {
                    state: after,
                    outcome: Ok(id),
                    requests: seq![search],
                },
                SearchedView::Failed(failure) => Resolution {
                    state: after,
                    outcome: Err(failure),
                    requests: seq![search],
                },
                SearchedView::Create(create) => {
                    let (last, outcome) = created_spec(after, call.creation);
                    Resolution { state: last, outcome, requests: seq![search, create] }
                },
            }
        },
    }
}

/// The resolutions of callers that are served one after the other, each
/// starting in the state that the one before left.
pub open spec fn serve(state: AppFolderView, calls: Seq<Call>) -> Seq<Resolution>
    decreases calls.len(),
{
    if calls.len() == 0 {
        Seq::empty()
    } else {
        let first = resolve(state, calls[0]);
        seq![first] + serve(first.state, calls.drop_first())
    }
}

/// A known folder is final: a resolution that starts with the folder known
/// sends nothing, answers the folder's id and leaves the state as it is.
pub proof fn law_known_folder_is_final(state: AppFolderView, call: Call)
    requires
        state is Info,
    ensures
        resolve(state, call).state == state,
        resolve(state, call).outcome == Ok::<Seq<char>, FailureView>(state->Info_0.id),
        resolve(state, call).requests.len() == 0,
{
}

/// No step undoes a resolution: whatever a step is handed, in whatever
/// order steps are taken, a folder that is known stays the folder it is.
pub proof fn law_known_folder_never_changes(
    state: AppFolderView,
    token: Seq<char>,
    listing: Result<Seq<DriveFileView>, FailureView>,
    made: Result<DriveFileView, FailureView>,
)
    requires
        state is Info,
    ensures
        searched_spec(state, token, listing).0 == state,
        created_spec(state, made).0 == state,
        lookup_spec(state, token) is Known,
{
}

/// A resolution never forgets: whatever the provider answers, a resolution
/// that succeeds leaves the folder known under the id it answered, and one
/// that fails leaves the state as it was.
pub proof fn law_resolution_outcome(state: AppFolderView, call: Call)
    ensures
        match resolve(state, call).outcome {
            Ok(id) => resolve(state, call).state is Info && resolve(state, call).state->Info_0.id
                == id,
            Err(_) => resolve(state, call).state == state && state is Name,
        },
{
}

/// Every caller gets a resolution.
pub proof fn law_every_caller_is_served(state: AppFolderView, calls: Seq<Call>)
    ensures
        serve(state, calls).len() == calls.len(),
    decreases calls.len(),
{
    if calls.len() > 0 {
        law_every_caller_is_served(resolve(state, calls[0]).state, calls.drop_first());
    }
}

/// Callers served while the folder is known all observe its id, and nothing
/// is sent for any of them.
proof fn lemma_serve_known(state: AppFolderView, calls: Seq<Call>, i: int)
    requires
        state is Info,
        0 <= i < calls.len(),
    ensures
        serve(state, calls).len() == calls.len(),
        serve(state, calls)[i].outcome == Ok::<Seq<char>, FailureView>(state->Info_0.id),
        serve(state, calls)[i].requests.len() == 0,
        serve(state, calls)[i].state == state,
    decreases calls.len(),
{
    law_every_caller_is_served(state, calls);
    law_known_folder_is_final(state, calls[0]);
    if i > 0 {
        lemma_serve_known(state, calls.drop_first(), i - 1);
    }
}

/// Single flight: among callers served one after the other, once one has
/// succeeded every later caller observes the same id and nothing more is
/// sent. So at most one search, and at most one creation, ever succeeds.
pub proof fn law_single_flight(state: AppFolderView, calls: Seq<Call>, i: int, j: int)
    requires
        0 <= i < j < calls.len(),
        serve(state, calls)[i].outcome is Ok,
    ensures
        serve(state, calls)[j].outcome == serve(state, calls)[i].outcome,
        serve(state, calls)[j].requests.len() == 0,
        serve(state, calls)[j].state == serve(state, calls)[i].state,
    decreases calls.len(),
{
    let first = resolve(state, calls[0]);
    let rest = calls.drop_first();
    law_every_caller_is_served(first.state, rest);
    if i == 0 {
        law_resolution_outcome(state, calls[0]);
        lemma_serve_known(first.state, rest, j - 1);
    } else {
        law_single_flight(first.state, rest, i - 1, j - 1);
    }
}

/// First use: where the folder is not known yet and the first caller's
/// requests succeed, exactly one caller's resolution reaches the provider,
/// the first one's, and all callers observe the same id.
pub proof fn law_first_use(name: Seq<char>, calls: Seq<Call>, j: int)
    requires
        0 <= j < calls.len(),
        serve(AppFolderView::Name(name), calls)[0].outcome is Ok,
    ensures
        serve(AppFolderView::Name(name), calls)[0].requests.len() > 0,
        serve(AppFolderView::Name(name), calls)[j].outcome == serve(
            AppFolderView::Name(name),
            calls,
        )[0].outcome,
        j > 0 ==> serve(AppFolderView::Name(name), calls)[j].requests.len() == 0,
{
    if j > 0 {
        law_single_flight(AppFolderView::Name(name), calls, 0, j);
    }
}

} // verus!
