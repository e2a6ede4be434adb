//! The route table: every operation that the server offers, with its HTTP
//! method, its path pattern, its route name, the parameters it takes and the
//! responses it may give.

use vstd::prelude::*;
use vstd::string::StringExecFns;

verus! {

/// The HTTP method under which an operation is routed.
#[derive(Clone, Copy, Debug, PartialEq, Eq, Structural)]
pub enum Method {
    Get,
    Post,
    Put,
    Delete,
}

/// The resource that a path pattern names right after `/v0/`.
#[derive(Clone, Copy, Debug, PartialEq, Eq, Structural)]
pub enum Resource {
    Container,
    Creator,
    Editor,
    Stats,
    Editgroup,
    Changelog,
    File,
    Release,
    Work,
}

impl Resource {
    /// The path segment that names the resource.
    pub open spec fn text_of(self) -> Seq<char> {
        match self {
            Resource::Container => "container"@,
            Resource::Creator => "creator"@,
            Resource::Editor => "editor"@,
            Resource::Stats => "stats"@,
            Resource::Editgroup => "editgroup"@,
            Resource::Changelog => "changelog"@,
            Resource::File => "file"@,
            Resource::Release => "release"@,
            Resource::Work => "work"@,
        }
    }

    /// The path segment that names the resource.
    pub fn text(&self) -> (t: &'static str)
        ensures
            t@ == self.text_of(),
    {
        match self {
            Resource::Container => "container",
            Resource::Creator => "creator",
            Resource::Editor => "editor",
            Resource::Stats => "stats",
            Resource::Editgroup => "editgroup",
            Resource::Changelog => "changelog",
            Resource::File => "file",
            Resource::Release => "release",
            Resource::Work => "work",
        }
    }
}

/// The last, fixed segment of a path pattern, where there is one.
#[derive(Clone, Copy, Debug, PartialEq, Eq, Structural)]
pub enum Tail {
    Batch,
    History,
    Lookup,
    Releases,
    Changelog,
    Accept,
    Files,
}

impl Tail {
    /// The path segment of the tail.
    pub open spec fn text_of(self) -> Seq<char> {
        match self {
            Tail::Batch => "batch"@,
            Tail::History => "history"@,
            Tail::Lookup => "lookup"@,
            Tail::Releases => "releases"@,
            Tail::Changelog => "changelog"@,
            Tail::Accept => "accept"@,
            Tail::Files => "files"@,
        }
    }

    /// The path segment of the tail.
    pub fn text(&self) -> (t: &'static str)
        ensures
            t@ == self.text_of(),
    {
        match self {
            Tail::Batch => "batch",
            Tail::History => "history",
            Tail::Lookup => "lookup",
            Tail::Releases => "releases",
            Tail::Changelog => "changelog",
            Tail::Accept => "accept",
            Tail::Files => "files",
        }
    }
}

/// A path pattern `/v0/<resource>[/:id][/<tail>]`.
#[derive(Clone, Copy, Debug, PartialEq, Eq, Structural)]
pub struct RoutePattern {
    pub resource: Resource,
    pub with_id: bool,
    pub tail: Option<Tail>,
}

impl RoutePattern {
    /// The pattern as the router reads it.
    pub open spec fn render(self) -> Seq<char> {
        "/v0/"@ + self.resource.text_of() + (if self.with_id {
            "/:id"@
        } else {
            Seq::<char>::empty()
        }) + match self.tail {
            Some(t) => "/"@ + t.text_of(),
            None => Seq::<char>::empty(),
        }
    }

    /// Writes the pattern out as the router reads it.
    pub fn text(&self) -> (s: String)
        ensures
            s@ == self.render(),
    {
        let mut s = String::from_str("/v0/");
        s.append(self.resource.text());
        if self.with_id {
            s.append("/:id");
        }
        match self.tail {
            Some(t) => {
                s.append("/");
                s.append(t.text());
            },
            None => {},
        }
        s
    }
}

/// How the `id` path parameter of an operation is read.
#[derive(Clone, Copy, Debug, PartialEq, Eq, Structural)]
pub enum IdKind {
    /// Kept as text.
    Text,
    /// Read as a signed 64-bit decimal integer.
    Integer,
}

/// How a query parameter is read.
#[derive(Clone, Copy, Debug, PartialEq, Eq, Structural)]
pub enum QueryKind {
    /// An optional text value.
    OptionalText,
    /// An optional boolean; a value other than `true` or `false` is ignored.
    OptionalFlag,
    /// An optional signed 64-bit integer; a value that is not one is ignored.
    OptionalCount,
    /// A text value that must be present.
    RequiredText,
}

/// A query parameter of an operation.
#[derive(Clone, Copy, Debug)]
pub struct QueryParam {
    pub name: &'static str,
    pub kind: QueryKind,
}

/// The JSON body parameter of an operation, which is always required.
#[derive(Clone, Copy, Debug)]
pub struct BodyParam {
    pub name: &'static str,
    /// Whether the body is a list of entities.
    pub list: bool,
}

/// A response that an operation's implementation may give.
#[derive(Clone, Copy, Debug, PartialEq, Eq, Structural)]
pub enum ResponseVariant {
    CreatedEntity,
    BadRequest,
    NotFound,
    GenericError,
    CreatedEntities,
    DeletedEntity,
    FoundEntity,
    FoundEntityHistory,
    UpdatedEntity,
    Found,
    Success,
    MergedSuccessfully,
    EditConflict,
    SuccessfullyCreated,
    FoundChangelogEntry,
}

impl ResponseVariant {
    /// The HTTP status code sent for this response.
    pub open spec fn status_of(self) -> u16 {
        match self {
            ResponseVariant::CreatedEntity => 201,
            ResponseVariant::BadRequest => 400,
            ResponseVariant::NotFound => 404,
            ResponseVariant::GenericError => 500,
            ResponseVariant::CreatedEntities => 201,
            ResponseVariant::DeletedEntity => 200,
            ResponseVariant::FoundEntity => 200,
            ResponseVariant::FoundEntityHistory => 200,
            ResponseVariant::UpdatedEntity => 200,
            ResponseVariant::Found => 200,
            ResponseVariant::Success => 200,
            ResponseVariant::MergedSuccessfully => 200,
            ResponseVariant::EditConflict => 409,
            ResponseVariant::SuccessfullyCreated => 201,
            ResponseVariant::FoundChangelogEntry => 200,
        }
    }

    /// The HTTP status code sent for this response.
    pub fn status(&self) -> (s: u16)
        ensures
            s == self.status_of(),
    {
        match self {
            ResponseVariant::CreatedEntity => 201,
            ResponseVariant::BadRequest => 400,
            ResponseVariant::NotFound => 404,
            ResponseVariant::GenericError => 500,
            ResponseVariant::CreatedEntities => 201,
            ResponseVariant::DeletedEntity => 200,
            ResponseVariant::FoundEntity => 200,
            ResponseVariant::FoundEntityHistory => 200,
            ResponseVariant::UpdatedEntity => 200,
            ResponseVariant::Found => 200,
            ResponseVariant::Success => 200,
            ResponseVariant::MergedSuccessfully => 200,
            ResponseVariant::EditConflict => 409,
            ResponseVariant::SuccessfullyCreated => 201,
            ResponseVariant::FoundChangelogEntry => 200,
        }
    }
}

/// An operation of the API, named as its route is named.
#[derive(Clone, Copy, Debug, PartialEq, Eq, Structural)]
pub enum Operation {
    CreateContainer,
    CreateContainerBatch,
    DeleteContainer,
    GetContainer,
    GetContainerHistory,
    LookupContainer,
    UpdateContainer,
    CreateCreator,
    CreateCreatorBatch,
    DeleteCreator,
    GetCreator,
    GetCreatorHistory,
    GetCreatorReleases,
    LookupCreator,
    UpdateCreator,
    GetEditor,
    GetEditorChangelog,
    GetStats,
    AcceptEditgroup,
    CreateEditgroup,
    GetChangelog,
    GetChangelogEntry,
    GetEditgroup,
    CreateFile,
    CreateFileBatch,
    DeleteFile,
    GetFile,
    GetFileHistory,
    LookupFile,
    UpdateFile,
    CreateRelease,
    CreateReleaseBatch,
    CreateWork,
    DeleteRelease,
    GetRelease,
    GetReleaseFiles,
    GetReleaseHistory,
    LookupRelease,
    UpdateRelease,
    CreateWorkBatch,
    DeleteWork,
    GetWork,
    GetWorkHistory,
    GetWorkReleases,
    UpdateWork,
}

impl Operation {
    /// The HTTP method of the operation's route.
    pub open spec fn method_of(self) -> Method {
        match self {
            Operation::CreateContainer => Method::Post,
            Operation::CreateContainerBatch => Method::Post,
            Operation::DeleteContainer => Method::Delete,
            Operation::GetContainer => Method::Get,
            Operation::GetContainerHistory => Method::Get,
            Operation::LookupContainer => Method::Get,
            Operation::UpdateContainer => Method::Put,
            Operation::CreateCreator => Method::Post,
            Operation::CreateCreatorBatch => Method::Post,
            Operation::DeleteCreator => Method::Delete,
            Operation::GetCreator => Method::Get,
            Operation::GetCreatorHistory => Method::Get,
            Operation::GetCreatorReleases => Method::Get,
            Operation::LookupCreator => Method::Get,
            Operation::UpdateCreator => Method::Put,
            Operation::GetEditor => Method::Get,
            Operation::GetEditorChangelog => Method::Get,
            Operation::GetStats => Method::Get,
            Operation::AcceptEditgroup => Method::Post,
            Operation::CreateEditgroup => Method::Post,
            Operation::GetChangelog => Method::Get,
            Operation::GetChangelogEntry => Method::Get,
            Operation::GetEditgroup => Method::Get,
            Operation::CreateFile => Method::Post,
            Operation::CreateFileBatch => Method::Post,
            Operation::DeleteFile => Method::Delete,
            Operation::GetFile => Method::Get,
            Operation::GetFileHistory => Method::Get,
            Operation::LookupFile => Method::Get,
            Operation::UpdateFile => Method::Put,
            Operation::CreateRelease => Method::Post,
            Operation::CreateReleaseBatch => Method::Post,
            Operation::CreateWork => Method::Post,
            Operation::DeleteRelease => Method::Delete,
            Operation::GetRelease => Method::Get,
            Operation::GetReleaseFiles => Method::Get,
            Operation::GetReleaseHistory => Method::Get,
            Operation::LookupRelease => Method::Get,
            Operation::UpdateRelease => Method::Put,
            Operation::CreateWorkBatch => Method::Post,
            Operation::DeleteWork => Method::Delete,
            Operation::GetWork => Method::Get,
            Operation::GetWorkHistory => Method::Get,
            Operation::GetWorkReleases => Method::Get,
            Operation::UpdateWork => Method::Put,
        }
    }

    /// The HTTP method of the operation's route.
    pub fn method(&self) -> (r: Method)
        ensures
            r == self.method_of(),
    {
        match self {
            Operation::CreateContainer => Method::Post,
            Operation::CreateContainerBatch => Method::Post,
            Operation::DeleteContainer => Method::Delete,
            Operation::GetContainer => Method::Get,
            Operation::GetContainerHistory => Method::Get,
            Operation::LookupContainer => Method::Get,
            Operation::UpdateContainer => Method::Put,
            Operation::CreateCreator => Method::Post,
            Operation::CreateCreatorBatch => Method::Post,
            Operation::DeleteCreator => Method::Delete,
            Operation::GetCreator => Method::Get,
            Operation::GetCreatorHistory => Method::Get,
            Operation::GetCreatorReleases => Method::Get,
            Operation::LookupCreator => Method::Get,
            Operation::UpdateCreator => Method::Put,
            Operation::GetEditor => Method::Get,
            Operation::GetEditorChangelog => Method::Get,
            Operation::GetStats => Method::Get,
            Operation::AcceptEditgroup => Method::Post,
            Operation::CreateEditgroup => Method::Post,
            Operation::GetChangelog => Method::Get,
            Operation::GetChangelogEntry => Method::Get,
            Operation::GetEditgroup => Method::Get,
            Operation::CreateFile => Method::Post,
            Operation::CreateFileBatch => Method::Post,
            Operation::DeleteFile => Method::Delete,
            Operation::GetFile => Method::Get,
            Operation::GetFileHistory => Method::Get,
            Operation::LookupFile => Method::Get,
            Operation::UpdateFile => Method::Put,
            Operation::CreateRelease => Method::Post,
            Operation::CreateReleaseBatch => Method::Post,
            Operation::CreateWork => Method::Post,
            Operation::DeleteRelease => Method::Delete,
            Operation::GetRelease => Method::Get,
            Operation::GetReleaseFiles => Method::Get,
            Operation::GetReleaseHistory => Method::Get,
            Operation::LookupRelease => Method::Get,
            Operation::UpdateRelease => Method::Put,
            Operation::CreateWorkBatch => Method::Post,
            Operation::DeleteWork => Method::Delete,
            Operation::GetWork => Method::Get,
            Operation::GetWorkHistory => Method::Get,
            Operation::GetWorkReleases => Method::Get,
            Operation::UpdateWork => Method::Put,
        }
    }

    /// The path pattern of the operation's route.
    pub open spec fn pattern_of(self) -> RoutePattern {
        match self {
            Operation::CreateContainer => RoutePattern { resource: Resource::Container, with_id: false, tail: None },
            Operation::CreateContainerBatch => RoutePattern { resource: Resource::Container, with_id: false, tail: Some(Tail::Batch) },
            Operation::DeleteContainer => RoutePattern { resource: Resource::Container, with_id: true, tail: None },
            Operation::GetContainer => RoutePattern { resource: Resource::Container, with_id: true, tail: None },
            Operation::GetContainerHistory => RoutePattern { resource: Resource::Container, with_id: true, tail: Some(Tail::History) },
            Operation::LookupContainer => RoutePattern { resource: Resource::Container, with_id: false, tail: Some(Tail::Lookup) },
            Operation::UpdateContainer => RoutePattern { resource: Resource::Container, with_id: true, tail: None },
            Operation::CreateCreator => RoutePattern { resource: Resource::Creator, with_id: false, tail: None },
            Operation::CreateCreatorBatch => RoutePattern { resource: Resource::Creator, with_id: false, tail: Some(Tail::Batch) },
            Operation::DeleteCreator => RoutePattern { resource: Resource::Creator, with_id: true, tail: None },
            Operation::GetCreator => RoutePattern { resource: Resource::Creator, with_id: true, tail: None },
            Operation::GetCreatorHistory => RoutePattern { resource: Resource::Creator, with_id: true, tail: Some(Tail::History) },
            Operation::GetCreatorReleases => RoutePattern { resource: Resource::Creator, with_id: true, tail: Some(Tail::Releases) },
            Operation::LookupCreator => RoutePattern { resource: Resource::Creator, with_id: false, tail: Some(Tail::Lookup) },
            Operation::UpdateCreator => RoutePattern { resource: Resource::Creator, with_id: true, tail: None },
            Operation::GetEditor => RoutePattern { resource: Resource::Editor, with_id: true, tail: None },
            Operation::GetEditorChangelog => RoutePattern { resource: Resource::Editor, with_id: true, tail: Some(Tail::Changelog) },
            Operation::GetStats => RoutePattern { resource: Resource::Stats, with_id: false, tail: None },
            Operation::AcceptEditgroup => RoutePattern { resource: Resource::Editgroup, with_id: true, tail: Some(Tail::Accept) },
            Operation::CreateEditgroup => RoutePattern { resource: Resource::Editgroup, with_id: false, tail: None },
            Operation::GetChangelog => RoutePattern { resource: Resource::Changelog, with_id: false, tail: None },
            Operation::GetChangelogEntry => RoutePattern { resource: Resource::Changelog, with_id: true, tail: None },
            Operation::GetEditgroup => RoutePattern { resource: Resource::Editgroup, with_id: true, tail: None },
            Operation::CreateFile => RoutePattern { resource: Resource::File, with_id: false, tail: None },
            Operation::CreateFileBatch => RoutePattern { resource: Resource::File, with_id: false, tail: Some(Tail::Batch) },
            Operation::DeleteFile => RoutePattern { resource: Resource::File, with_id: true, tail: None },
            Operation::GetFile => RoutePattern { resource: Resource::File, with_id: true, tail: None },
            Operation::GetFileHistory => RoutePattern { resource: Resource::File, with_id: true, tail: Some(Tail::History) },
            Operation::LookupFile => RoutePattern { resource: Resource::File, with_id: false, tail: Some(Tail::Lookup) },
            Operation::UpdateFile => RoutePattern { resource: Resource::File, with_id: true, tail: None },
            Operation::CreateRelease => RoutePattern { resource: Resource::Release, with_id: false, tail: None },
            Operation::CreateReleaseBatch => RoutePattern { resource: Resource::Release, with_id: false, tail: Some(Tail::Batch) },
            Operation::CreateWork => RoutePattern { resource: Resource::Work, with_id: false, tail: None },
            Operation::DeleteRelease => RoutePattern { resource: Resource::Release, with_id: true, tail: None },
            Operation::GetRelease => RoutePattern { resource: Resource::Release, with_id: true, tail: None },
            Operation::GetReleaseFiles => RoutePattern { resource: Resource::Release, with_id: true, tail: Some(Tail::Files) },
            Operation::GetReleaseHistory => RoutePattern { resource: Resource::Release, with_id: true, tail: Some(Tail::History) },
            Operation::LookupRelease => RoutePattern { resource: Resource::Release, with_id: false, tail: Some(Tail::Lookup) },
            Operation::UpdateRelease => RoutePattern { resource: Resource::Release, with_id: true, tail: None },
            Operation::CreateWorkBatch => RoutePattern { resource: Resource::Work, with_id: false, tail: Some(Tail::Batch) },
            Operation::DeleteWork => RoutePattern { resource: Resource::Work, with_id: true, tail: None },
            Operation::GetWork => RoutePattern { resource: Resource::Work, with_id: true, tail: None },
            Operation::GetWorkHistory => RoutePattern { resource: Resource::Work, with_id: true, tail: Some(Tail::History) },
            Operation::GetWorkReleases => RoutePattern { resource: Resource::Work, with_id: true, tail: Some(Tail::Releases) },
            Operation::UpdateWork => RoutePattern { resource: Resource::Work, with_id: true, tail: None },
        }
    }

    /// The path pattern of the operation's route.
    pub fn pattern(&self) -> (r: RoutePattern)
        ensures
            r == self.pattern_of(),
    {
        match self {
            Operation::CreateContainer => RoutePattern { resource: Resource::Container, with_id: false, tail: None },
            Operation::CreateContainerBatch => RoutePattern { resource: Resource::Container, with_id: false, tail: Some(Tail::Batch) },
            Operation::DeleteContainer => RoutePattern { resource: Resource::Container, with_id: true, tail: None },
            Operation::GetContainer => RoutePattern { resource: Resource::Container, with_id: true, tail: None },
            Operation::GetContainerHistory => RoutePattern { resource: Resource::Container, with_id: true, tail: Some(Tail::History) },
            Operation::LookupContainer => RoutePattern { resource: Resource::Container, with_id: false, tail: Some(Tail::Lookup) },
            Operation::UpdateContainer => RoutePattern { resource: Resource::Container, with_id: true, tail: None },
            Operation::CreateCreator => RoutePattern { resource: Resource::Creator, with_id: false, tail: None },
            Operation::CreateCreatorBatch => RoutePattern { resource: Resource::Creator, with_id: false, tail: Some(Tail::Batch) },
            Operation::DeleteCreator => RoutePattern { resource: Resource::Creator, with_id: true, tail: None },
            Operation::GetCreator => RoutePattern { resource: Resource::Creator, with_id: true, tail: None },
            Operation::GetCreatorHistory => RoutePattern { resource: Resource::Creator, with_id: true, tail: Some(Tail::History) },
            Operation::GetCreatorReleases => RoutePattern { resource: Resource::Creator, with_id: true, tail: Some(Tail::Releases) },
            Operation::LookupCreator => RoutePattern { resource: Resource::Creator, with_id: false, tail: Some(Tail::Lookup) },
            Operation::UpdateCreator => RoutePattern { resource: Resource::Creator, with_id: true, tail: None },
            Operation::GetEditor => RoutePattern { resource: Resource::Editor, with_id: true, tail: None },
            Operation::GetEditorChangelog => RoutePattern { resource: Resource::Editor, with_id: true, tail: Some(Tail::Changelog) },
            Operation::GetStats => RoutePattern { resource: Resource::Stats, with_id: false, tail: None },
            Operation::AcceptEditgroup => RoutePattern { resource: Resource::Editgroup, with_id: true, tail: Some(Tail::Accept) },
            Operation::CreateEditgroup => RoutePattern { resource: Resource::Editgroup, with_id: false, tail: None },
            Operation::GetChangelog => RoutePattern { resource: Resource::Changelog, with_id: false, tail: None },
            Operation::GetChangelogEntry => RoutePattern { resource: Resource::Changelog, with_id: true, tail: None },
            Operation::GetEditgroup => RoutePattern { resource: Resource::Editgroup, with_id: true, tail: None },
            Operation::CreateFile => RoutePattern { resource: Resource::File, with_id: false, tail: None },
            Operation::CreateFileBatch => RoutePattern { resource: Resource::File, with_id: false, tail: Some(Tail::Batch) },
            Operation::DeleteFile => RoutePattern { resource: Resource::File, with_id: true, tail: None },
            Operation::GetFile => RoutePattern { resource: Resource::File, with_id: true, tail: None },
            Operation::GetFileHistory => RoutePattern { resource: Resource::File, with_id: true, tail: Some(Tail::History) },
            Operation::LookupFile => RoutePattern { resource: Resource::File, with_id: false, tail: Some(Tail::Lookup) },
            Operation::UpdateFile => RoutePattern { resource: Resource::File, with_id: true, tail: None },
            Operation::CreateRelease => RoutePattern { resource: Resource::Release, with_id: false, tail: None },
            Operation::CreateReleaseBatch => RoutePattern { resource: Resource::Release, with_id: false, tail: Some(Tail::Batch) },
            Operation::CreateWork => RoutePattern { resource: Resource::Work, with_id: false, tail: None },
            Operation::DeleteRelease => RoutePattern { resource: Resource::Release, with_id: true, tail: None },
            Operation::GetRelease => RoutePattern { resource: Resource::Release, with_id: true, tail: None },
            Operation::GetReleaseFiles => RoutePattern { resource: Resource::Release, with_id: true, tail: Some(Tail::Files) },
            Operation::GetReleaseHistory => RoutePattern { resource: Resource::Release, with_id: true, tail: Some(Tail::History) },
            Operation::LookupRelease => RoutePattern { resource: Resource::Release, with_id: false, tail: Some(Tail::Lookup) },
            Operation::UpdateRelease => RoutePattern { resource: Resource::Release, with_id: true, tail: None },
            Operation::CreateWorkBatch => RoutePattern { resource: Resource::Work, with_id: false, tail: Some(Tail::Batch) },
            Operation::DeleteWork => RoutePattern { resource: Resource::Work, with_id: true, tail: None },
            Operation::GetWork => RoutePattern { resource: Resource::Work, with_id: true, tail: None },
            Operation::GetWorkHistory => RoutePattern { resource: Resource::Work, with_id: true, tail: Some(Tail::History) },
            Operation::GetWorkReleases => RoutePattern { resource: Resource::Work, with_id: true, tail: Some(Tail::Releases) },
            Operation::UpdateWork => RoutePattern { resource: Resource::Work, with_id: true, tail: None },
        }
    }

    /// The name under which the operation's route is registered.
    pub open spec fn route_id_of(self) -> Seq<char> {
        match self {
            Operation::CreateContainer => "CreateContainer"@,
            Operation::CreateContainerBatch => "CreateContainerBatch"@,
            Operation::DeleteContainer => "DeleteContainer"@,
            Operation::GetContainer => "GetContainer"@,
            Operation::GetContainerHistory => "GetContainerHistory"@,
            Operation::LookupContainer => "LookupContainer"@,
            Operation::UpdateContainer => "UpdateContainer"@,
            Operation::CreateCreator => "CreateCreator"@,
            Operation::CreateCreatorBatch => "CreateCreatorBatch"@,
            Operation::DeleteCreator => "DeleteCreator"@,
            Operation::GetCreator => "GetCreator"@,
            Operation::GetCreatorHistory => "GetCreatorHistory"@,
            Operation::GetCreatorReleases => "GetCreatorReleases"@,
            Operation::LookupCreator => "LookupCreator"@,
            Operation::UpdateCreator => "UpdateCreator"@,
            Operation::GetEditor => "GetEditor"@,
            Operation::GetEditorChangelog => "GetEditorChangelog"@,
            Operation::GetStats => "GetStats"@,
            Operation::AcceptEditgroup => "AcceptEditgroup"@,
            Operation::CreateEditgroup => "CreateEditgroup"@,
            Operation::GetChangelog => "GetChangelog"@,
            Operation::GetChangelogEntry => "GetChangelogEntry"@,
            Operation::GetEditgroup => "GetEditgroup"@,
            Operation::CreateFile => "CreateFile"@,
            Operation::CreateFileBatch => "CreateFileBatch"@,
            Operation::DeleteFile => "DeleteFile"@,
            Operation::GetFile => "GetFile"@,
            Operation::GetFileHistory => "GetFileHistory"@,
            Operation::LookupFile => "LookupFile"@,
            Operation::UpdateFile => "UpdateFile"@,
            Operation::CreateRelease => "CreateRelease"@,
            Operation::CreateReleaseBatch => "CreateReleaseBatch"@,
            Operation::CreateWork => "CreateWork"@,
            Operation::DeleteRelease => "DeleteRelease"@,
            Operation::GetRelease => "GetRelease"@,
            Operation::GetReleaseFiles => "GetReleaseFiles"@,
            Operation::GetReleaseHistory => "GetReleaseHistory"@,
            Operation::LookupRelease => "LookupRelease"@,
            Operation::UpdateRelease => "UpdateRelease"@,
            Operation::CreateWorkBatch => "CreateWorkBatch"@,
            Operation::DeleteWork => "DeleteWork"@,
            Operation::GetWork => "GetWork"@,
            Operation::GetWorkHistory => "GetWorkHistory"@,
            Operation::GetWorkReleases => "GetWorkReleases"@,
            Operation::UpdateWork => "UpdateWork"@,
        }
    }

    /// The name under which the operation's route is registered.
    pub fn route_id(&self) -> (r: &'static str)
        ensures
            r@ == self.route_id_of(),
    {
        match self {
            Operation::CreateContainer => "CreateContainer",
            Operation::CreateContainerBatch => "CreateContainerBatch",
            Operation::DeleteContainer => "DeleteContainer",
            Operation::GetContainer => "GetContainer",
            Operation::GetContainerHistory => "GetContainerHistory",
            Operation::LookupContainer => "LookupContainer",
            Operation::UpdateContainer => "UpdateContainer",
            Operation::CreateCreator => "CreateCreator",
            Operation::CreateCreatorBatch => "CreateCreatorBatch",
            Operation::DeleteCreator => "DeleteCreator",
            Operation::GetCreator => "GetCreator",
            Operation::GetCreatorHistory => "GetCreatorHistory",
            Operation::GetCreatorReleases => "GetCreatorReleases",
            Operation::LookupCreator => "LookupCreator",
            Operation::UpdateCreator => "UpdateCreator",
            Operation::GetEditor => "GetEditor",
            Operation::GetEditorChangelog => "GetEditorChangelog",
            Operation::GetStats => "GetStats",
            Operation::AcceptEditgroup => "AcceptEditgroup",
            Operation::CreateEditgroup => "CreateEditgroup",
            Operation::GetChangelog => "GetChangelog",
            Operation::GetChangelogEntry => "GetChangelogEntry",
            Operation::GetEditgroup => "GetEditgroup",
            Operation::CreateFile => "CreateFile",
            Operation::CreateFileBatch => "CreateFileBatch",
            Operation::DeleteFile => "DeleteFile",
            Operation::GetFile => "GetFile",
            Operation::GetFileHistory => "GetFileHistory",
            Operation::LookupFile => "LookupFile",
            Operation::UpdateFile => "UpdateFile",
            Operation::CreateRelease => "CreateRelease",
            Operation::CreateReleaseBatch => "CreateReleaseBatch",
            Operation::CreateWork => "CreateWork",
            Operation::DeleteRelease => "DeleteRelease",
            Operation::GetRelease => "GetRelease",
            Operation::GetReleaseFiles => "GetReleaseFiles",
            Operation::GetReleaseHistory => "GetReleaseHistory",
            Operation::LookupRelease => "LookupRelease",
            Operation::UpdateRelease => "UpdateRelease",
            Operation::CreateWorkBatch => "CreateWorkBatch",
            Operation::DeleteWork => "DeleteWork",
            Operation::GetWork => "GetWork",
            Operation::GetWorkHistory => "GetWorkHistory",
            Operation::GetWorkReleases => "GetWorkReleases",
            Operation::UpdateWork => "UpdateWork",
        }
    }

    /// How the `id` path parameter is read, for an operation whose path has one.
    pub open spec fn id_kind_of(self) -> Option<IdKind> {
        match self {
            Operation::CreateContainer => None,
            Operation::CreateContainerBatch => None,
            Operation::DeleteContainer => Some(IdKind::Text),
            Operation::GetContainer => Some(IdKind::Text),
            Operation::GetContainerHistory => Some(IdKind::Text),
            Operation::LookupContainer => None,
            Operation::UpdateContainer => Some(IdKind::Text),
            Operation::CreateCreator => None,
            Operation::CreateCreatorBatch => None,
            Operation::DeleteCreator => Some(IdKind::Text),
            Operation::GetCreator => Some(IdKind::Text),
            Operation::GetCreatorHistory => Some(IdKind::Text),
            Operation::GetCreatorReleases => Some(IdKind::Text),
            Operation::LookupCreator => None,
            Operation::UpdateCreator => Some(IdKind::Text),
            Operation::GetEditor => Some(IdKind::Text),
            Operation::GetEditorChangelog => Some(IdKind::Text),
            Operation::GetStats => None,
            Operation::AcceptEditgroup => Some(IdKind::Text),
            Operation::CreateEditgroup => None,
            Operation::GetChangelog => None,
            Operation::GetChangelogEntry => Some(IdKind::Integer),
            Operation::GetEditgroup => Some(IdKind::Text),
            Operation::CreateFile => None,
            Operation::CreateFileBatch => None,
            Operation::DeleteFile => Some(IdKind::Text),
            Operation::GetFile => Some(IdKind::Text),
            Operation::GetFileHistory => Some(IdKind::Text),
            Operation::LookupFile => None,
            Operation::UpdateFile => Some(IdKind::Text),
            Operation::CreateRelease => None,
            Operation::CreateReleaseBatch => None,
            Operation::CreateWork => None,
            Operation::DeleteRelease => Some(IdKind::Text),
            Operation::GetRelease => Some(IdKind::Text),
            Operation::GetReleaseFiles => Some(IdKind::Text),
            Operation::GetReleaseHistory => Some(IdKind::Text),
            Operation::LookupRelease => None,
            Operation::UpdateRelease => Some(IdKind::Text),
            Operation::CreateWorkBatch => None,
            Operation::DeleteWork => Some(IdKind::Text),
            Operation::GetWork => Some(IdKind::Text),
            Operation::GetWorkHistory => Some(IdKind::Text),
            Operation::GetWorkReleases => Some(IdKind::Text),
            Operation::UpdateWork => Some(IdKind::Text),
        }
    }

    /// How the `id` path parameter is read, for an operation whose path has one.
    pub fn id_kind(&self) -> (r: Option<IdKind>)
        ensures
            r == self.id_kind_of(),
    {
        match self {
            Operation::CreateContainer => None,
            Operation::CreateContainerBatch => None,
            Operation::DeleteContainer => Some(IdKind::Text),
            Operation::GetContainer => Some(IdKind::Text),
            Operation::GetContainerHistory => Some(IdKind::Text),
            Operation::LookupContainer => None,
            Operation::UpdateContainer => Some(IdKind::Text),
            Operation::CreateCreator => None,
            Operation::CreateCreatorBatch => None,
            Operation::DeleteCreator => Some(IdKind::Text),
            Operation::GetCreator => Some(IdKind::Text),
            Operation::GetCreatorHistory => Some(IdKind::Text),
            Operation::GetCreatorReleases => Some(IdKind::Text),
            Operation::LookupCreator => None,
            Operation::UpdateCreator => Some(IdKind::Text),
            Operation::GetEditor => Some(IdKind::Text),
            Operation::GetEditorChangelog => Some(IdKind::Text),
            Operation::GetStats => None,
            Operation::AcceptEditgroup => Some(IdKind::Text),
            Operation::CreateEditgroup => None,
            Operation::GetChangelog => None,
            Operation::GetChangelogEntry => Some(IdKind::Integer),
            Operation::GetEditgroup => Some(IdKind::Text),
            Operation::CreateFile => None,
            Operation::CreateFileBatch => None,
            Operation::DeleteFile => Some(IdKind::Text),
            Operation::GetFile => Some(IdKind::Text),
            Operation::GetFileHistory => Some(IdKind::Text),
            Operation::LookupFile => None,
            Operation::UpdateFile => Some(IdKind::Text),
            Operation::CreateRelease => None,
            Operation::CreateReleaseBatch => None,
            Operation::CreateWork => None,
            Operation::DeleteRelease => Some(IdKind::Text),
            Operation::GetRelease => Some(IdKind::Text),
            Operation::GetReleaseFiles => Some(IdKind::Text),
            Operation::GetReleaseHistory => Some(IdKind::Text),
            Operation::LookupRelease => None,
            Operation::UpdateRelease => Some(IdKind::Text),
            Operation::CreateWorkBatch => None,
            Operation::DeleteWork => Some(IdKind::Text),
            Operation::GetWork => Some(IdKind::Text),
            Operation::GetWorkHistory => Some(IdKind::Text),
            Operation::GetWorkReleases => Some(IdKind::Text),
            Operation::UpdateWork => Some(IdKind::Text),
        }
    }

    /// The body parameter (its name and whether it is a list), for an operation that takes one.
    pub open spec fn body_of(self) -> Option<(Seq<char>, bool)> {
        match self {
            Operation::CreateContainer => Some(("entity"@, false)),
            Operation::CreateContainerBatch => Some(("entity_list"@, true)),
            Operation::DeleteContainer => None,
            Operation::GetContainer => None,
            Operation::GetContainerHistory => None,
            Operation::LookupContainer => None,
            Operation::UpdateContainer => Some(("entity"@, false)),
            Operation::CreateCreator => Some(("entity"@, false)),
            Operation::CreateCreatorBatch => Some(("entity_list"@, true)),
            Operation::DeleteCreator => None,
            Operation::GetCreator => None,
            Operation::GetCreatorHistory => None,
            Operation::GetCreatorReleases => None,
            Operation::LookupCreator => None,
            Operation::UpdateCreator => Some(("entity"@, false)),
            Operation::GetEditor => None,
            Operation::GetEditorChangelog => None,
            Operation::GetStats => None,
            Operation::AcceptEditgroup => None,
            Operation::CreateEditgroup => Some(("editgroup"@, false)),
            Operation::GetChangelog => None,
            Operation::GetChangelogEntry => None,
            Operation::GetEditgroup => None,
            Operation::CreateFile => Some(("entity"@, false)),
            Operation::CreateFileBatch => Some(("entity_list"@, true)),
            Operation::DeleteFile => None,
            Operation::GetFile => None,
            Operation::GetFileHistory => None,
            Operation::LookupFile => None,
            Operation::UpdateFile => Some(("entity"@, false)),
            Operation::CreateRelease => Some(("entity"@, false)),
            Operation::CreateReleaseBatch => Some(("entity_list"@, true)),
            Operation::CreateWork => Some(("entity"@, false)),
            Operation::DeleteRelease => None,
            Operation::GetRelease => None,
            Operation::GetReleaseFiles => None,
            Operation::GetReleaseHistory => None,
            Operation::LookupRelease => None,
            Operation::UpdateRelease => Some(("entity"@, false)),
            Operation::CreateWorkBatch => Some(("entity_list"@, true)),
            Operation::DeleteWork => None,
            Operation::GetWork => None,
            Operation::GetWorkHistory => None,
            Operation::GetWorkReleases => None,
            Operation::UpdateWork => Some(("entity"@, false)),
        }
    }

    /// The body parameter (its name and whether it is a list), for an operation that takes one.
    pub fn body_param(&self) -> (r: Option<BodyParam>)
        ensures
            match r { Some(b) => self.body_of() == Some((b.name@, b.list)), None => self.body_of() is None },
    {
        match self {
            Operation::CreateContainer => Some(BodyParam { name: "entity", list: false }),
            Operation::CreateContainerBatch => Some(BodyParam { name: "entity_list", list: true }),
            Operation::DeleteContainer => None,
            Operation::GetContainer => None,
            Operation::GetContainerHistory => None,
            Operation::LookupContainer => None,
            Operation::UpdateContainer => Some(BodyParam { name: "entity", list: false }),
            Operation::CreateCreator => Some(BodyParam { name: "entity", list: false }),
            Operation::CreateCreatorBatch => Some(BodyParam { name: "entity_list", list: true }),
            Operation::DeleteCreator => None,
            Operation::GetCreator => None,
            Operation::GetCreatorHistory => None,
            Operation::GetCreatorReleases => None,
            Operation::LookupCreator => None,
            Operation::UpdateCreator => Some(BodyParam { name: "entity", list: false }),
            Operation::GetEditor => None,
            Operation::GetEditorChangelog => None,
            Operation::GetStats => None,
            Operation::AcceptEditgroup => None,
            Operation::CreateEditgroup => Some(BodyParam { name: "editgroup", list: false }),
            Operation::GetChangelog => None,
            Operation::GetChangelogEntry => None,
            Operation::GetEditgroup => None,
            Operation::CreateFile => Some(BodyParam { name: "entity", list: false }),
            Operation::CreateFileBatch => Some(BodyParam { name: "entity_list", list: true }),
            Operation::DeleteFile => None,
            Operation::GetFile => None,
            Operation::GetFileHistory => None,
            Operation::LookupFile => None,
            Operation::UpdateFile => Some(BodyParam { name: "entity", list: false }),
            Operation::CreateRelease => Some(BodyParam { name: "entity", list: false }),
            Operation::CreateReleaseBatch => Some(BodyParam { name: "entity_list", list: true }),
            Operation::CreateWork => Some(BodyParam { name: "entity", list: false }),
            Operation::DeleteRelease => None,
            Operation::GetRelease => None,
            Operation::GetReleaseFiles => None,
            Operation::GetReleaseHistory => None,
            Operation::LookupRelease => None,
            Operation::UpdateRelease => Some(BodyParam { name: "entity", list: false }),
            Operation::CreateWorkBatch => Some(BodyParam { name: "entity_list", list: true }),
            Operation::DeleteWork => None,
            Operation::GetWork => None,
            Operation::GetWorkHistory => None,
            Operation::GetWorkReleases => None,
            Operation::UpdateWork => Some(BodyParam { name: "entity", list: false }),
        }
    }

    /// The query parameters of the operation, in the order in which they are read.
    pub open spec fn query_of(self) -> Seq<(Seq<char>, QueryKind)> {
        match self {
            Operation::CreateContainer => seq![("editgroup"@, QueryKind::OptionalText)],
            Operation::CreateContainerBatch => seq![("autoaccept"@, QueryKind::OptionalFlag), ("editgroup"@, QueryKind::OptionalText)],
            Operation::DeleteContainer => seq![("editgroup"@, QueryKind::OptionalText)],
            Operation::GetContainer => seq![("expand"@, QueryKind::OptionalText)],
            Operation::GetContainerHistory => seq![("limit"@, QueryKind::OptionalCount)],
            Operation::LookupContainer => seq![("issnl"@, QueryKind::RequiredText)],
            Operation::UpdateContainer => seq![("editgroup"@, QueryKind::OptionalText)],
            Operation::CreateCreator => seq![("editgroup"@, QueryKind::OptionalText)],
            Operation::CreateCreatorBatch => seq![("autoaccept"@, QueryKind::OptionalFlag), ("editgroup"@, QueryKind::OptionalText)],
            Operation::DeleteCreator => seq![("editgroup"@, QueryKind::OptionalText)],
            Operation::GetCreator => seq![("expand"@, QueryKind::OptionalText)],
            Operation::GetCreatorHistory => seq![("limit"@, QueryKind::OptionalCount)],
            Operation::GetCreatorReleases => seq![],
            Operation::LookupCreator => seq![("orcid"@, QueryKind::RequiredText)],
            Operation::UpdateCreator => seq![("editgroup"@, QueryKind::OptionalText)],
            Operation::GetEditor => seq![],
            Operation::GetEditorChangelog => seq![],
            Operation::GetStats => seq![("more"@, QueryKind::OptionalText)],
            Operation::AcceptEditgroup => seq![],
            Operation::CreateEditgroup => seq![],
            Operation::GetChangelog => seq![("limit"@, QueryKind::OptionalCount)],
            Operation::GetChangelogEntry => seq![],
            Operation::GetEditgroup => seq![],
            Operation::CreateFile => seq![("editgroup"@, QueryKind::OptionalText)],
            Operation::CreateFileBatch => seq![("autoaccept"@, QueryKind::OptionalFlag), ("editgroup"@, QueryKind::OptionalText)],
            Operation::DeleteFile => seq![("editgroup"@, QueryKind::OptionalText)],
            Operation::GetFile => seq![("expand"@, QueryKind::OptionalText)],
            Operation::GetFileHistory => seq![("limit"@, QueryKind::OptionalCount)],
            Operation::LookupFile => seq![("sha1"@, QueryKind::RequiredText)],
            Operation::UpdateFile => seq![("editgroup"@, QueryKind::OptionalText)],
            Operation::CreateRelease => seq![("editgroup"@, QueryKind::OptionalText)],
            Operation::CreateReleaseBatch => seq![("autoaccept"@, QueryKind::OptionalFlag), ("editgroup"@, QueryKind::OptionalText)],
            Operation::CreateWork => seq![("editgroup"@, QueryKind::OptionalText)],
            Operation::DeleteRelease => seq![("editgroup"@, QueryKind::OptionalText)],
            Operation::GetRelease => seq![("expand"@, QueryKind::OptionalText)],
            Operation::GetReleaseFiles => seq![],
            Operation::GetReleaseHistory => seq![("limit"@, QueryKind::OptionalCount)],
            Operation::LookupRelease => seq![("doi"@, QueryKind::RequiredText)],
            Operation::UpdateRelease => seq![("editgroup"@, QueryKind::OptionalText)],
            Operation::CreateWorkBatch => seq![("autoaccept"@, QueryKind::OptionalFlag), ("editgroup"@, QueryKind::OptionalText)],
            Operation::DeleteWork => seq![("editgroup"@, QueryKind::OptionalText)],
            Operation::GetWork => seq![("expand"@, QueryKind::OptionalText)],
            Operation::GetWorkHistory => seq![("limit"@, QueryKind::OptionalCount)],
            Operation::GetWorkReleases => seq![],
            Operation::UpdateWork => seq![("editgroup"@, QueryKind::OptionalText)],
        }
    }

    /// The query parameters of the operation, in the order in which they are read.
    pub fn query_params(&self) -> (r: Vec<QueryParam>)
        ensures
            r@.len() == self.query_of().len() && forall|i: int| 0 <= i < r@.len() ==> (#[trigger] r@[i]).name@ == self.query_of()[i].0 && r@[i].kind == self.query_of()[i].1,
    {
        match self {
            Operation::CreateContainer => vec![QueryParam { name: "editgroup", kind: QueryKind::OptionalText }],
            Operation::CreateContainerBatch => vec![QueryParam { name: "autoaccept", kind: QueryKind::OptionalFlag }, QueryParam { name: "editgroup", kind: QueryKind::OptionalText }],
            Operation::DeleteContainer => vec![QueryParam { name: "editgroup", kind: QueryKind::OptionalText }],
            Operation::GetContainer => vec![QueryParam { name: "expand", kind: QueryKind::OptionalText }],
            Operation::GetContainerHistory => vec![QueryParam { name: "limit", kind: QueryKind::OptionalCount }],
            Operation::LookupContainer => vec![QueryParam { name: "issnl", kind: QueryKind::RequiredText }],
            Operation::UpdateContainer => vec![QueryParam { name: "editgroup", kind: QueryKind::OptionalText }],
            Operation::CreateCreator => vec![QueryParam { name: "editgroup", kind: QueryKind::OptionalText }],
            Operation::CreateCreatorBatch => vec![QueryParam { name: "autoaccept", kind: QueryKind::OptionalFlag }, QueryParam { name: "editgroup", kind: QueryKind::OptionalText }],
            Operation::DeleteCreator => vec![QueryParam { name: "editgroup", kind: QueryKind::OptionalText }],
            Operation::GetCreator => vec![QueryParam { name: "expand", kind: QueryKind::OptionalText }],
            Operation::GetCreatorHistory => vec![QueryParam { name: "limit", kind: QueryKind::OptionalCount }],
            Operation::GetCreatorReleases => vec![],
            Operation::LookupCreator => vec![QueryParam { name: "orcid", kind: QueryKind::RequiredText }],
            Operation::UpdateCreator => vec![QueryParam { name: "editgroup", kind: QueryKind::OptionalText }],
            Operation::GetEditor => vec![],
            Operation::GetEditorChangelog => vec![],
            Operation::GetStats => vec![QueryParam { name: "more", kind: QueryKind::OptionalText }],
            Operation::AcceptEditgroup => vec![],
            Operation::CreateEditgroup => vec![],
            Operation::GetChangelog => vec![QueryParam { name: "limit", kind: QueryKind::OptionalCount }],
            Operation::GetChangelogEntry => vec![],
            Operation::GetEditgroup => vec![],
            Operation::CreateFile => vec![QueryParam { name: "editgroup", kind: QueryKind::OptionalText }],
            Operation::CreateFileBatch => vec![QueryParam { name: "autoaccept", kind: QueryKind::OptionalFlag }, QueryParam { name: "editgroup", kind: QueryKind::OptionalText }],
            Operation::DeleteFile => vec![QueryParam { name: "editgroup", kind: QueryKind::OptionalText }],
            Operation::GetFile => vec![QueryParam { name: "expand", kind: QueryKind::OptionalText }],
            Operation::GetFileHistory => vec![QueryParam { name: "limit", kind: QueryKind::OptionalCount }],
            Operation::LookupFile => vec![QueryParam { name: "sha1", kind: QueryKind::RequiredText }],
            Operation::UpdateFile => vec![QueryParam { name: "editgroup", kind: QueryKind::OptionalText }],
            Operation::CreateRelease => vec![QueryParam { name: "editgroup", kind: QueryKind::OptionalText }],
            Operation::CreateReleaseBatch => vec![QueryParam { name: "autoaccept", kind: QueryKind::OptionalFlag }, QueryParam { name: "editgroup", kind: QueryKind::OptionalText }],
            Operation::CreateWork => vec![QueryParam { name: "editgroup", kind: QueryKind::OptionalText }],
            Operation::DeleteRelease => vec![QueryParam { name: "editgroup", kind: QueryKind::OptionalText }],
            Operation::GetRelease => vec![QueryParam { name: "expand", kind: QueryKind::OptionalText }],
            Operation::GetReleaseFiles => vec![],
            Operation::GetReleaseHistory => vec![QueryParam { name: "limit", kind: QueryKind::OptionalCount }],
            Operation::LookupRelease => vec![QueryParam { name: "doi", kind: QueryKind::RequiredText }],
            Operation::UpdateRelease => vec![QueryParam { name: "editgroup", kind: QueryKind::OptionalText }],
            Operation::CreateWorkBatch => vec![QueryParam { name: "autoaccept", kind: QueryKind::OptionalFlag }, QueryParam { name: "editgroup", kind: QueryKind::OptionalText }],
            Operation::DeleteWork => vec![QueryParam { name: "editgroup", kind: QueryKind::OptionalText }],
            Operation::GetWork => vec![QueryParam { name: "expand", kind: QueryKind::OptionalText }],
            Operation::GetWorkHistory => vec![QueryParam { name: "limit", kind: QueryKind::OptionalCount }],
            Operation::GetWorkReleases => vec![],
            Operation::UpdateWork => vec![QueryParam { name: "editgroup", kind: QueryKind::OptionalText }],
        }
    }

    /// The responses that the operation's implementation may give.
    pub open spec fn responses_of(self) -> Seq<ResponseVariant> {
        match self {
            Operation::CreateContainer => seq![ResponseVariant::CreatedEntity, ResponseVariant::BadRequest, ResponseVariant::NotFound, ResponseVariant::GenericError],
            Operation::CreateContainerBatch => seq![ResponseVariant::CreatedEntities, ResponseVariant::BadRequest, ResponseVariant::NotFound, ResponseVariant::GenericError],
            Operation::DeleteContainer => seq![ResponseVariant::DeletedEntity, ResponseVariant::BadRequest, ResponseVariant::NotFound, ResponseVariant::GenericError],
            Operation::GetContainer => seq![ResponseVariant::FoundEntity, ResponseVariant::BadRequest, ResponseVariant::NotFound, ResponseVariant::GenericError],
            Operation::GetContainerHistory => seq![ResponseVariant::FoundEntityHistory, ResponseVariant::BadRequest, ResponseVariant::NotFound, ResponseVariant::GenericError],
            Operation::LookupContainer => seq![ResponseVariant::FoundEntity, ResponseVariant::BadRequest, ResponseVariant::NotFound, ResponseVariant::GenericError],
            Operation::UpdateContainer => seq![ResponseVariant::UpdatedEntity, ResponseVariant::BadRequest, ResponseVariant::NotFound, ResponseVariant::GenericError],
            Operation::CreateCreator => seq![ResponseVariant::CreatedEntity, ResponseVariant::BadRequest, ResponseVariant::NotFound, ResponseVariant::GenericError],
            Operation::CreateCreatorBatch => seq![ResponseVariant::CreatedEntities, ResponseVariant::BadRequest, ResponseVariant::NotFound, ResponseVariant::GenericError],
            Operation::DeleteCreator => seq![ResponseVariant::DeletedEntity, ResponseVariant::BadRequest, ResponseVariant::NotFound, ResponseVariant::GenericError],
            Operation::GetCreator => seq![ResponseVariant::FoundEntity, ResponseVariant::BadRequest, ResponseVariant::NotFound, ResponseVariant::GenericError],
            Operation::GetCreatorHistory => seq![ResponseVariant::FoundEntityHistory, ResponseVariant::BadRequest, ResponseVariant::NotFound, ResponseVariant::GenericError],
            Operation::GetCreatorReleases => seq![ResponseVariant::Found, ResponseVariant::BadRequest, ResponseVariant::NotFound, ResponseVariant::GenericError],
            Operation::LookupCreator => seq![ResponseVariant::FoundEntity, ResponseVariant::BadRequest, ResponseVariant::NotFound, ResponseVariant::GenericError],
            Operation::UpdateCreator => seq![ResponseVariant::UpdatedEntity, ResponseVariant::BadRequest, ResponseVariant::NotFound, ResponseVariant::GenericError],
            Operation::GetEditor => seq![ResponseVariant::Found, ResponseVariant::BadRequest, ResponseVariant::NotFound, ResponseVariant::GenericError],
            Operation::GetEditorChangelog => seq![ResponseVariant::Found, ResponseVariant::BadRequest, ResponseVariant::NotFound, ResponseVariant::GenericError],
            Operation::GetStats => seq![ResponseVariant::Success, ResponseVariant::GenericError],
            Operation::AcceptEditgroup => seq![ResponseVariant::MergedSuccessfully, ResponseVariant::BadRequest, ResponseVariant::NotFound, ResponseVariant::EditConflict, ResponseVariant::GenericError],
            Operation::CreateEditgroup => seq![ResponseVariant::SuccessfullyCreated, ResponseVariant::BadRequest, ResponseVariant::GenericError],
            Operation::GetChangelog => seq![ResponseVariant::Success, ResponseVariant::GenericError],
            Operation::GetChangelogEntry => seq![ResponseVariant::FoundChangelogEntry, ResponseVariant::NotFound, ResponseVariant::GenericError],
            Operation::GetEditgroup => seq![ResponseVariant::Found, ResponseVariant::BadRequest, ResponseVariant::NotFound, ResponseVariant::GenericError],
            Operation::CreateFile => seq![ResponseVariant::CreatedEntity, ResponseVariant::BadRequest, ResponseVariant::NotFound, ResponseVariant::GenericError],
            Operation::CreateFileBatch => seq![ResponseVariant::CreatedEntities, ResponseVariant::BadRequest, ResponseVariant::NotFound, ResponseVariant::GenericError],
            Operation::DeleteFile => seq![ResponseVariant::DeletedEntity, ResponseVariant::BadRequest, ResponseVariant::NotFound, ResponseVariant::GenericError],
            Operation::GetFile => seq![ResponseVariant::FoundEntity, ResponseVariant::BadRequest, ResponseVariant::NotFound, ResponseVariant::GenericError],
            Operation::GetFileHistory => seq![ResponseVariant::FoundEntityHistory, ResponseVariant::BadRequest, ResponseVariant::NotFound, ResponseVariant::GenericError],
            Operation::LookupFile => seq![ResponseVariant::FoundEntity, ResponseVariant::BadRequest, ResponseVariant::NotFound, ResponseVariant::GenericError],
            Operation::UpdateFile => seq![ResponseVariant::UpdatedEntity, ResponseVariant::BadRequest, ResponseVariant::NotFound, ResponseVariant::GenericError],
            Operation::CreateRelease => seq![ResponseVariant::CreatedEntity, ResponseVariant::BadRequest, ResponseVariant::NotFound, ResponseVariant::GenericError],
            Operation::CreateReleaseBatch => seq![ResponseVariant::CreatedEntities, ResponseVariant::BadRequest, ResponseVariant::NotFound, ResponseVariant::GenericError],
            Operation::CreateWork => seq![ResponseVariant::CreatedEntity, ResponseVariant::BadRequest, ResponseVariant::NotFound, ResponseVariant::GenericError],
            Operation::DeleteRelease => seq![ResponseVariant::DeletedEntity, ResponseVariant::BadRequest, ResponseVariant::NotFound, ResponseVariant::GenericError],
            Operation::GetRelease => seq![ResponseVariant::FoundEntity, ResponseVariant::BadRequest, ResponseVariant::NotFound, ResponseVariant::GenericError],
            Operation::GetReleaseFiles => seq![ResponseVariant::Found, ResponseVariant::BadRequest, ResponseVariant::NotFound, ResponseVariant::GenericError],
            Operation::GetReleaseHistory => seq![ResponseVariant::FoundEntityHistory, ResponseVariant::BadRequest, ResponseVariant::NotFound, ResponseVariant::GenericError],
            Operation::LookupRelease => seq![ResponseVariant::FoundEntity, ResponseVariant::BadRequest, ResponseVariant::NotFound, ResponseVariant::GenericError],
            Operation::UpdateRelease => seq![ResponseVariant::UpdatedEntity, ResponseVariant::BadRequest, ResponseVariant::NotFound, ResponseVariant::GenericError],
            Operation::CreateWorkBatch => seq![ResponseVariant::CreatedEntities, ResponseVariant::BadRequest, ResponseVariant::NotFound, ResponseVariant::GenericError],
            Operation::DeleteWork => seq![ResponseVariant::DeletedEntity, ResponseVariant::BadRequest, ResponseVariant::NotFound, ResponseVariant::GenericError],
            Operation::GetWork => seq![ResponseVariant::FoundEntity, ResponseVariant::BadRequest, ResponseVariant::NotFound, ResponseVariant::GenericError],
            Operation::GetWorkHistory => seq![ResponseVariant::FoundEntityHistory, ResponseVariant::BadRequest, ResponseVariant::NotFound, ResponseVariant::GenericError],
            Operation::GetWorkReleases => seq![ResponseVariant::Found, ResponseVariant::BadRequest, ResponseVariant::NotFound, ResponseVariant::GenericError],
            Operation::UpdateWork => seq![ResponseVariant::UpdatedEntity, ResponseVariant::BadRequest, ResponseVariant::NotFound, ResponseVariant::GenericError],
        }
    }

    /// The responses that the operation's implementation may give.
    pub fn responses(&self) -> (r: Vec<ResponseVariant>)
        ensures
            r@ == self.responses_of(),
    {
        match self {
            Operation::CreateContainer => vec![ResponseVariant::CreatedEntity, ResponseVariant::BadRequest, ResponseVariant::NotFound, ResponseVariant::GenericError],
            Operation::CreateContainerBatch => vec![ResponseVariant::CreatedEntities, ResponseVariant::BadRequest, ResponseVariant::NotFound, ResponseVariant::GenericError],
            Operation::DeleteContainer => vec![ResponseVariant::DeletedEntity, ResponseVariant::BadRequest, ResponseVariant::NotFound, ResponseVariant::GenericError],
            Operation::GetContainer => vec![ResponseVariant::FoundEntity, ResponseVariant::BadRequest, ResponseVariant::NotFound, ResponseVariant::GenericError],
            Operation::GetContainerHistory => vec![ResponseVariant::FoundEntityHistory, ResponseVariant::BadRequest, ResponseVariant::NotFound, ResponseVariant::GenericError],
            Operation::LookupContainer => vec![ResponseVariant::FoundEntity, ResponseVariant::BadRequest, ResponseVariant::NotFound, ResponseVariant::GenericError],
            Operation::UpdateContainer => vec![ResponseVariant::UpdatedEntity, ResponseVariant::BadRequest, ResponseVariant::NotFound, ResponseVariant::GenericError],
            Operation::CreateCreator => vec![ResponseVariant::CreatedEntity, ResponseVariant::BadRequest, ResponseVariant::NotFound, ResponseVariant::GenericError],
            Operation::CreateCreatorBatch => vec![ResponseVariant::CreatedEntities, ResponseVariant::BadRequest, ResponseVariant::NotFound, ResponseVariant::GenericError],
            Operation::DeleteCreator => vec![ResponseVariant::DeletedEntity, ResponseVariant::BadRequest, ResponseVariant::NotFound, ResponseVariant::GenericError],
            Operation::GetCreator => vec![ResponseVariant::FoundEntity, ResponseVariant::BadRequest, ResponseVariant::NotFound, ResponseVariant::GenericError],
            Operation::GetCreatorHistory => vec![ResponseVariant::FoundEntityHistory, ResponseVariant::BadRequest, ResponseVariant::NotFound, ResponseVariant::GenericError],
            Operation::GetCreatorReleases => vec![ResponseVariant::Found, ResponseVariant::BadRequest, ResponseVariant::NotFound, ResponseVariant::GenericError],
            Operation::LookupCreator => vec![ResponseVariant::FoundEntity, ResponseVariant::BadRequest, ResponseVariant::NotFound, ResponseVariant::GenericError],
            Operation::UpdateCreator => vec![ResponseVariant::UpdatedEntity, ResponseVariant::BadRequest, ResponseVariant::NotFound, ResponseVariant::GenericError],
            Operation::GetEditor => vec![ResponseVariant::Found, ResponseVariant::BadRequest, ResponseVariant::NotFound, ResponseVariant::GenericError],
            Operation::GetEditorChangelog => vec![ResponseVariant::Found, ResponseVariant::BadRequest, ResponseVariant::NotFound, ResponseVariant::GenericError],
            Operation::GetStats => vec![ResponseVariant::Success, ResponseVariant::GenericError],
            Operation::AcceptEditgroup => vec![ResponseVariant::MergedSuccessfully, ResponseVariant::BadRequest, ResponseVariant::NotFound, ResponseVariant::EditConflict, ResponseVariant::GenericError],
            Operation::CreateEditgroup => vec![ResponseVariant::SuccessfullyCreated, ResponseVariant::BadRequest, ResponseVariant::GenericError],
            Operation::GetChangelog => vec![ResponseVariant::Success, ResponseVariant::GenericError],
            Operation::GetChangelogEntry => vec![ResponseVariant::FoundChangelogEntry, ResponseVariant::NotFound, ResponseVariant::GenericError],
            Operation::GetEditgroup => vec![ResponseVariant::Found, ResponseVariant::BadRequest, ResponseVariant::NotFound, ResponseVariant::GenericError],
            Operation::CreateFile => vec![ResponseVariant::CreatedEntity, ResponseVariant::BadRequest, ResponseVariant::NotFound, ResponseVariant::GenericError],
            Operation::CreateFileBatch => vec![ResponseVariant::CreatedEntities, ResponseVariant::BadRequest, ResponseVariant::NotFound, ResponseVariant::GenericError],
            Operation::DeleteFile => vec![ResponseVariant::DeletedEntity, ResponseVariant::BadRequest, ResponseVariant::NotFound, ResponseVariant::GenericError],
            Operation::GetFile => vec![ResponseVariant::FoundEntity, ResponseVariant::BadRequest, ResponseVariant::NotFound, ResponseVariant::GenericError],
            Operation::GetFileHistory => vec![ResponseVariant::FoundEntityHistory, ResponseVariant::BadRequest, ResponseVariant::NotFound, ResponseVariant::GenericError],
            Operation::LookupFile => vec![ResponseVariant::FoundEntity, ResponseVariant::BadRequest, ResponseVariant::NotFound, ResponseVariant::GenericError],
            Operation::UpdateFile => vec![ResponseVariant::UpdatedEntity, ResponseVariant::BadRequest, ResponseVariant::NotFound, ResponseVariant::GenericError],
            Operation::CreateRelease => vec![ResponseVariant::CreatedEntity, ResponseVariant::BadRequest, ResponseVariant::NotFound, ResponseVariant::GenericError],
            Operation::CreateReleaseBatch => vec![ResponseVariant::CreatedEntities, ResponseVariant::BadRequest, ResponseVariant::NotFound, ResponseVariant::GenericError],
            Operation::CreateWork => vec![ResponseVariant::CreatedEntity, ResponseVariant::BadRequest, ResponseVariant::NotFound, ResponseVariant::GenericError],
            Operation::DeleteRelease => vec![ResponseVariant::DeletedEntity, ResponseVariant::BadRequest, ResponseVariant::NotFound, ResponseVariant::GenericError],
            Operation::GetRelease => vec![ResponseVariant::FoundEntity, ResponseVariant::BadRequest, ResponseVariant::NotFound, ResponseVariant::GenericError],
            Operation::GetReleaseFiles => vec![ResponseVariant::Found, ResponseVariant::BadRequest, ResponseVariant::NotFound, ResponseVariant::GenericError],
            Operation::GetReleaseHistory => vec![ResponseVariant::FoundEntityHistory, ResponseVariant::BadRequest, ResponseVariant::NotFound, ResponseVariant::GenericError],
            Operation::LookupRelease => vec![ResponseVariant::FoundEntity, ResponseVariant::BadRequest, ResponseVariant::NotFound, ResponseVariant::GenericError],
            Operation::UpdateRelease => vec![ResponseVariant::UpdatedEntity, ResponseVariant::BadRequest, ResponseVariant::NotFound, ResponseVariant::GenericError],
            Operation::CreateWorkBatch => vec![ResponseVariant::CreatedEntities, ResponseVariant::BadRequest, ResponseVariant::NotFound, ResponseVariant::GenericError],
            Operation::DeleteWork => vec![ResponseVariant::DeletedEntity, ResponseVariant::BadRequest, ResponseVariant::NotFound, ResponseVariant::GenericError],
            Operation::GetWork => vec![ResponseVariant::FoundEntity, ResponseVariant::BadRequest, ResponseVariant::NotFound, ResponseVariant::GenericError],
            Operation::GetWorkHistory => vec![ResponseVariant::FoundEntityHistory, ResponseVariant::BadRequest, ResponseVariant::NotFound, ResponseVariant::GenericError],
            Operation::GetWorkReleases => vec![ResponseVariant::Found, ResponseVariant::BadRequest, ResponseVariant::NotFound, ResponseVariant::GenericError],
            Operation::UpdateWork => vec![ResponseVariant::UpdatedEntity, ResponseVariant::BadRequest, ResponseVariant::NotFound, ResponseVariant::GenericError],
        }
    }

    /// Whether `v` is one of the responses of the operation.
    pub open spec fn offers(self, v: ResponseVariant) -> bool {
        self.responses_of().contains(v)
    }

    /// Whether `v` is one of the responses of the operation.
    pub fn offers_variant(&self, v: ResponseVariant) -> (r: bool)
        ensures
            r == self.offers(v),
    {
        let responses = self.responses();
        let n = responses.len();
        let mut i: usize = 0;
        while i < n
            invariant
                responses@ == self.responses_of(),
                n == responses@.len(),
                i <= n,
                forall|j: int| 0 <= j < i ==> responses@[j] != v,
            decreases n - i,
        {
            if responses[i] == v {
                return true;
            }
            i = i + 1;
        }
        false
    }

    /// Every operation, in the order in which the routes are registered.
    pub open spec fn all_of() -> Seq<Operation> {
        seq![Operation::CreateContainer, Operation::CreateContainerBatch, Operation::DeleteContainer, Operation::GetContainer, Operation::GetContainerHistory, Operation::LookupContainer, Operation::UpdateContainer, Operation::CreateCreator, Operation::CreateCreatorBatch, Operation::DeleteCreator, Operation::GetCreator, Operation::GetCreatorHistory, Operation::GetCreatorReleases, Operation::LookupCreator, Operation::UpdateCreator, Operation::GetEditor, Operation::GetEditorChangelog, Operation::GetStats, Operation::AcceptEditgroup, Operation::CreateEditgroup, Operation::GetChangelog, Operation::GetChangelogEntry, Operation::GetEditgroup, Operation::CreateFile, Operation::CreateFileBatch, Operation::DeleteFile, Operation::GetFile, Operation::GetFileHistory, Operation::LookupFile, Operation::UpdateFile, Operation::CreateRelease, Operation::CreateReleaseBatch, Operation::CreateWork, Operation::DeleteRelease, Operation::GetRelease, Operation::GetReleaseFiles, Operation::GetReleaseHistory, Operation::LookupRelease, Operation::UpdateRelease, Operation::CreateWorkBatch, Operation::DeleteWork, Operation::GetWork, Operation::GetWorkHistory, Operation::GetWorkReleases, Operation::UpdateWork]
    }

    /// Every operation, in the order in which the routes are registered.
    pub fn all() -> (r: Vec<Operation>)
        ensures
            r@ == Self::all_of(),
    {
        vec![Operation::CreateContainer, Operation::CreateContainerBatch, Operation::DeleteContainer, Operation::GetContainer, Operation::GetContainerHistory, Operation::LookupContainer, Operation::UpdateContainer, Operation::CreateCreator, Operation::CreateCreatorBatch, Operation::DeleteCreator, Operation::GetCreator, Operation::GetCreatorHistory, Operation::GetCreatorReleases, Operation::LookupCreator, Operation::UpdateCreator, Operation::GetEditor, Operation::GetEditorChangelog, Operation::GetStats, Operation::AcceptEditgroup, Operation::CreateEditgroup, Operation::GetChangelog, Operation::GetChangelogEntry, Operation::GetEditgroup, Operation::CreateFile, Operation::CreateFileBatch, Operation::DeleteFile, Operation::GetFile, Operation::GetFileHistory, Operation::LookupFile, Operation::UpdateFile, Operation::CreateRelease, Operation::CreateReleaseBatch, Operation::CreateWork, Operation::DeleteRelease, Operation::GetRelease, Operation::GetReleaseFiles, Operation::GetReleaseHistory, Operation::LookupRelease, Operation::UpdateRelease, Operation::CreateWorkBatch, Operation::DeleteWork, Operation::GetWork, Operation::GetWorkHistory, Operation::GetWorkReleases, Operation::UpdateWork]
    }
}

} // verus!
