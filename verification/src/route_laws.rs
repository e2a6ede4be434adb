//! Laws of the route table.

use vstd::prelude::*;

use crate::operation::{Method, Operation};

verus! {

/// An operation's path has an `id` segment exactly when the operation reads
/// an `id` path parameter.
pub proof fn law_id_segment_iff_id_parameter(op: Operation)
    ensures
        op.pattern_of().with_id <==> op.id_kind_of() is Some,
{
}

/// Length and three characters of a route name, which tell all the route
/// names apart.
pub open spec fn name_marks(s: Seq<char>) -> (nat, char, char, char) {
    (s.len(), s[0], s[3], s[6])
}

/// The operation whose route name has the marks `m`.
pub open spec fn operation_marked(m: (nat, char, char, char)) -> Option<Operation> {
    if m == (15nat, 'C', 'a', 'C') {
        Some(Operation::CreateContainer)
    } else if m == (20nat, 'C', 'a', 'C') {
        Some(Operation::CreateContainerBatch)
    } else if m == (15nat, 'D', 'e', 'C') {
        Some(Operation::DeleteContainer)
    } else if m == (12nat, 'G', 'C', 't') {
        Some(Operation::GetContainer)
    } else if m == (19nat, 'G', 'C', 't') {
        Some(Operation::GetContainerHistory)
    } else if m == (15nat, 'L', 'k', 'C') {
        Some(Operation::LookupContainer)
    } else if m == (15nat, 'U', 'a', 'C') {
        Some(Operation::UpdateContainer)
    } else if m == (13nat, 'C', 'a', 'C') {
        Some(Operation::CreateCreator)
    } else if m == (18nat, 'C', 'a', 'C') {
        Some(Operation::CreateCreatorBatch)
    } else if m == (13nat, 'D', 'e', 'C') {
        Some(Operation::DeleteCreator)
    } else if m == (10nat, 'G', 'C', 'a') {
        Some(Operation::GetCreator)
    } else if m == (17nat, 'G', 'C', 'a') {
        Some(Operation::GetCreatorHistory)
    } else if m == (18nat, 'G', 'C', 'a') {
        Some(Operation::GetCreatorReleases)
    } else if m == (13nat, 'L', 'k', 'C') {
        Some(Operation::LookupCreator)
    } else if m == (13nat, 'U', 'a', 'C') {
        Some(Operation::UpdateCreator)
    } else if m == (9nat, 'G', 'E', 't') {
        Some(Operation::GetEditor)
    } else if m == (18nat, 'G', 'E', 't') {
        Some(Operation::GetEditorChangelog)
    } else if m == (8nat, 'G', 'S', 't') {
        Some(Operation::GetStats)
    } else if m == (15nat, 'A', 'e', 'E') {
        Some(Operation::AcceptEditgroup)
    } else if m == (15nat, 'C', 'a', 'E') {
        Some(Operation::CreateEditgroup)
    } else if m == (12nat, 'G', 'C', 'n') {
        Some(Operation::GetChangelog)
    } else if m == (17nat, 'G', 'C', 'n') {
        Some(Operation::GetChangelogEntry)
    } else if m == (12nat, 'G', 'E', 't') {
        Some(Operation::GetEditgroup)
    } else if m == (10nat, 'C', 'a', 'F') {
        Some(Operation::CreateFile)
    } else if m == (15nat, 'C', 'a', 'F') {
        Some(Operation::CreateFileBatch)
    } else if m == (10nat, 'D', 'e', 'F') {
        Some(Operation::DeleteFile)
    } else if m == (7nat, 'G', 'F', 'e') {
        Some(Operation::GetFile)
    } else if m == (14nat, 'G', 'F', 'e') {
        Some(Operation::GetFileHistory)
    } else if m == (10nat, 'L', 'k', 'F') {
        Some(Operation::LookupFile)
    } else if m == (10nat, 'U', 'a', 'F') {
        Some(Operation::UpdateFile)
    } else if m == (13nat, 'C', 'a', 'R') {
        Some(Operation::CreateRelease)
    } else if m == (18nat, 'C', 'a', 'R') {
        Some(Operation::CreateReleaseBatch)
    } else if m == (10nat, 'C', 'a', 'W') {
        Some(Operation::CreateWork)
    } else if m == (13nat, 'D', 'e', 'R') {
        Some(Operation::DeleteRelease)
    } else if m == (10nat, 'G', 'R', 'e') {
        Some(Operation::GetRelease)
    } else if m == (15nat, 'G', 'R', 'e') {
        Some(Operation::GetReleaseFiles)
    } else if m == (17nat, 'G', 'R', 'e') {
        Some(Operation::GetReleaseHistory)
    } else if m == (13nat, 'L', 'k', 'R') {
        Some(Operation::LookupRelease)
    } else if m == (13nat, 'U', 'a', 'R') {
        Some(Operation::UpdateRelease)
    } else if m == (15nat, 'C', 'a', 'W') {
        Some(Operation::CreateWorkBatch)
    } else if m == (10nat, 'D', 'e', 'W') {
        Some(Operation::DeleteWork)
    } else if m == (7nat, 'G', 'W', 'k') {
        Some(Operation::GetWork)
    } else if m == (14nat, 'G', 'W', 'k') {
        Some(Operation::GetWorkHistory)
    } else if m == (15nat, 'G', 'W', 'k') {
        Some(Operation::GetWorkReleases)
    } else if m == (10nat, 'U', 'a', 'W') {
        Some(Operation::UpdateWork)
    } else {
        None
    }
}

/// The marks of every route name lead back to its operation.
proof fn lemma_name_marks(op: Operation)
    ensures
        operation_marked(name_marks(op.route_id_of())) == Some(op),
{
    match op {
        Operation::CreateContainer => {
            reveal_strlit("CreateContainer");
            assert(name_marks(op.route_id_of()) == (15nat, 'C', 'a', 'C'));
        },
        Operation::CreateContainerBatch => {
            reveal_strlit("CreateContainerBatch");
            assert(name_marks(op.route_id_of()) == (20nat, 'C', 'a', 'C'));
        },
        Operation::DeleteContainer => {
            reveal_strlit("DeleteContainer");
            assert(name_marks(op.route_id_of()) == (15nat, 'D', 'e', 'C'));
        },
        Operation::GetContainer => {
            reveal_strlit("GetContainer");
            assert(name_marks(op.route_id_of()) == (12nat, 'G', 'C', 't'));
        },
        Operation::GetContainerHistory => {
            reveal_strlit("GetContainerHistory");
            assert(name_marks(op.route_id_of()) == (19nat, 'G', 'C', 't'));
        },
        Operation::LookupContainer => {
            reveal_strlit("LookupContainer");
            assert(name_marks(op.route_id_of()) == (15nat, 'L', 'k', 'C'));
        },
        Operation::UpdateContainer => {
            reveal_strlit("UpdateContainer");
            assert(name_marks(op.route_id_of()) == (15nat, 'U', 'a', 'C'));
        },
        Operation::CreateCreator => {
            reveal_strlit("CreateCreator");
            assert(name_marks(op.route_id_of()) == (13nat, 'C', 'a', 'C'));
        },
        Operation::CreateCreatorBatch => {
            reveal_strlit("CreateCreatorBatch");
            assert(name_marks(op.route_id_of()) == (18nat, 'C', 'a', 'C'));
        },
        Operation::DeleteCreator => {
            reveal_strlit("DeleteCreator");
            assert(name_marks(op.route_id_of()) == (13nat, 'D', 'e', 'C'));
        },
        Operation::GetCreator => {
            reveal_strlit("GetCreator");
            assert(name_marks(op.route_id_of()) == (10nat, 'G', 'C', 'a'));
        },
        Operation::GetCreatorHistory => {
            reveal_strlit("GetCreatorHistory");
            assert(name_marks(op.route_id_of()) == (17nat, 'G', 'C', 'a'));
        },
        Operation::GetCreatorReleases => {
            reveal_strlit("GetCreatorReleases");
            assert(name_marks(op.route_id_of()) == (18nat, 'G', 'C', 'a'));
        },
        Operation::LookupCreator => {
            reveal_strlit("LookupCreator");
            assert(name_marks(op.route_id_of()) == (13nat, 'L', 'k', 'C'));
        },
        Operation::UpdateCreator => {
            reveal_strlit("UpdateCreator");
            assert(name_marks(op.route_id_of()) == (13nat, 'U', 'a', 'C'));
        },
        Operation::GetEditor => {
            reveal_strlit("GetEditor");
            assert(name_marks(op.route_id_of()) == (9nat, 'G', 'E', 't'));
        },
        Operation::GetEditorChangelog => {
            reveal_strlit("GetEditorChangelog");
            assert(name_marks(op.route_id_of()) == (18nat, 'G', 'E', 't'));
        },
        Operation::GetStats => {
            reveal_strlit("GetStats");
            assert(name_marks(op.route_id_of()) == (8nat, 'G', 'S', 't'));
        },
        Operation::AcceptEditgroup => {
            reveal_strlit("AcceptEditgroup");
            assert(name_marks(op.route_id_of()) == (15nat, 'A', 'e', 'E'));
        },
        Operation::CreateEditgroup => {
            reveal_strlit("CreateEditgroup");
            assert(name_marks(op.route_id_of()) == (15nat, 'C', 'a', 'E'));
        },
        Operation::GetChangelog => {
            reveal_strlit("GetChangelog");
            assert(name_marks(op.route_id_of()) == (12nat, 'G', 'C', 'n'));
        },
        Operation::GetChangelogEntry => {
            reveal_strlit("GetChangelogEntry");
            assert(name_marks(op.route_id_of()) == (17nat, 'G', 'C', 'n'));
        },
        Operation::GetEditgroup => {
            reveal_strlit("GetEditgroup");
            assert(name_marks(op.route_id_of()) == (12nat, 'G', 'E', 't'));
        },
        Operation::CreateFile => {
            reveal_strlit("CreateFile");
            assert(name_marks(op.route_id_of()) == (10nat, 'C', 'a', 'F'));
        },
        Operation::CreateFileBatch => {
            reveal_strlit("CreateFileBatch");
            assert(name_marks(op.route_id_of()) == (15nat, 'C', 'a', 'F'));
        },
        Operation::DeleteFile => {
            reveal_strlit("DeleteFile");
            assert(name_marks(op.route_id_of()) == (10nat, 'D', 'e', 'F'));
        },
        Operation::GetFile => {
            reveal_strlit("GetFile");
            assert(name_marks(op.route_id_of()) == (7nat, 'G', 'F', 'e'));
        },
        Operation::GetFileHistory => {
            reveal_strlit("GetFileHistory");
            assert(name_marks(op.route_id_of()) == (14nat, 'G', 'F', 'e'));
        },
        Operation::LookupFile => {
            reveal_strlit("LookupFile");
            assert(name_marks(op.route_id_of()) == (10nat, 'L', 'k', 'F'));
        },
        Operation::UpdateFile => {
            reveal_strlit("UpdateFile");
            assert(name_marks(op.route_id_of()) == (10nat, 'U', 'a', 'F'));
        },
        Operation::CreateRelease => {
            reveal_strlit("CreateRelease");
            assert(name_marks(op.route_id_of()) == (13nat, 'C', 'a', 'R'));
        },
        Operation::CreateReleaseBatch => {
            reveal_strlit("CreateReleaseBatch");
            assert(name_marks(op.route_id_of()) == (18nat, 'C', 'a', 'R'));
        },
        Operation::CreateWork => {
            reveal_strlit("CreateWork");
            assert(name_marks(op.route_id_of()) == (10nat, 'C', 'a', 'W'));
        },
        Operation::DeleteRelease => {
            reveal_strlit("DeleteRelease");
            assert(name_marks(op.route_id_of()) == (13nat, 'D', 'e', 'R'));
        },
        Operation::GetRelease => {
            reveal_strlit("GetRelease");
            assert(name_marks(op.route_id_of()) == (10nat, 'G', 'R', 'e'));
        },
        Operation::GetReleaseFiles => {
            reveal_strlit("GetReleaseFiles");
            assert(name_marks(op.route_id_of()) == (15nat, 'G', 'R', 'e'));
        },
        Operation::GetReleaseHistory => {
            reveal_strlit("GetReleaseHistory");
            assert(name_marks(op.route_id_of()) == (17nat, 'G', 'R', 'e'));
        },
        Operation::LookupRelease => {
            reveal_strlit("LookupRelease");
            assert(name_marks(op.route_id_of()) == (13nat, 'L', 'k', 'R'));
        },
        Operation::UpdateRelease => {
            reveal_strlit("UpdateRelease");
            assert(name_marks(op.route_id_of()) == (13nat, 'U', 'a', 'R'));
        },
        Operation::CreateWorkBatch => {
            reveal_strlit("CreateWorkBatch");
            assert(name_marks(op.route_id_of()) == (15nat, 'C', 'a', 'W'));
        },
        Operation::DeleteWork => {
            reveal_strlit("DeleteWork");
            assert(name_marks(op.route_id_of()) == (10nat, 'D', 'e', 'W'));
        },
        Operation::GetWork => {
            reveal_strlit("GetWork");
            assert(name_marks(op.route_id_of()) == (7nat, 'G', 'W', 'k'));
        },
        Operation::GetWorkHistory => {
            reveal_strlit("GetWorkHistory");
            assert(name_marks(op.route_id_of()) == (14nat, 'G', 'W', 'k'));
        },
        Operation::GetWorkReleases => {
            reveal_strlit("GetWorkReleases");
            assert(name_marks(op.route_id_of()) == (15nat, 'G', 'W', 'k'));
        },
        Operation::UpdateWork => {
            reveal_strlit("UpdateWork");
            assert(name_marks(op.route_id_of()) == (10nat, 'U', 'a', 'W'));
        },
    }
}

/// No two operations share a route name, so the router, which refuses a name
/// given twice, accepts every route.
pub proof fn law_route_names_are_distinct(a: Operation, b: Operation)
    requires
        a.route_id_of() == b.route_id_of(),
    ensures
        a == b,
{
    lemma_name_marks(a);
    lemma_name_marks(b);
}

/// The place of `op` in the list of every operation.
pub open spec fn listing_index(op: Operation) -> int {
    match op {
        Operation::CreateContainer => 0,
        Operation::CreateContainerBatch => 1,
        Operation::DeleteContainer => 2,
        Operation::GetContainer => 3,
        Operation::GetContainerHistory => 4,
        Operation::LookupContainer => 5,
        Operation::UpdateContainer => 6,
        Operation::CreateCreator => 7,
        Operation::CreateCreatorBatch => 8,
        Operation::DeleteCreator => 9,
        Operation::GetCreator => 10,
        Operation::GetCreatorHistory => 11,
        Operation::GetCreatorReleases => 12,
        Operation::LookupCreator => 13,
        Operation::UpdateCreator => 14,
        Operation::GetEditor => 15,
        Operation::GetEditorChangelog => 16,
        Operation::GetStats => 17,
        Operation::AcceptEditgroup => 18,
        Operation::CreateEditgroup => 19,
        Operation::GetChangelog => 20,
        Operation::GetChangelogEntry => 21,
        Operation::GetEditgroup => 22,
        Operation::CreateFile => 23,
        Operation::CreateFileBatch => 24,
        Operation::DeleteFile => 25,
        Operation::GetFile => 26,
        Operation::GetFileHistory => 27,
        Operation::LookupFile => 28,
        Operation::UpdateFile => 29,
        Operation::CreateRelease => 30,
        Operation::CreateReleaseBatch => 31,
        Operation::CreateWork => 32,
        Operation::DeleteRelease => 33,
        Operation::GetRelease => 34,
        Operation::GetReleaseFiles => 35,
        Operation::GetReleaseHistory => 36,
        Operation::LookupRelease => 37,
        Operation::UpdateRelease => 38,
        Operation::CreateWorkBatch => 39,
        Operation::DeleteWork => 40,
        Operation::GetWork => 41,
        Operation::GetWorkHistory => 42,
        Operation::GetWorkReleases => 43,
        Operation::UpdateWork => 44,
    }
}

proof fn lemma_listing_index(op: Operation)
    ensures
        0 <= listing_index(op) < Operation::all_of().len(),
        Operation::all_of()[listing_index(op)] == op,
{
}

proof fn lemma_listing_index_back(i: int)
    requires
        0 <= i < Operation::all_of().len(),
    ensures
        listing_index(Operation::all_of()[i]) == i,
{
}

/// The list of every operation, by which the routes are registered, names
/// each operation exactly once.
pub proof fn law_every_operation_listed_once(op: Operation)
    ensures
        Operation::all_of().contains(op),
        Operation::all_of().no_duplicates(),
{
    lemma_listing_index(op);
    assert forall|i: int, j: int|
        0 <= i < Operation::all_of().len() && 0 <= j < Operation::all_of().len() && i != j
        implies Operation::all_of()[i] != Operation::all_of()[j] by {
        lemma_listing_index_back(i);
        lemma_listing_index_back(j);
    }
}


/// The method, the length and the two characters after `/v0/` of a route's
/// path, which tell all the routes apart.
pub open spec fn path_marks(method: Method, path: Seq<char>) -> (Method, nat, char, char) {
    (method, path.len(), path[4], path[5])
}

/// The operation whose route has the marks `m`.
pub open spec fn operation_with_path_marks(m: (Method, nat, char, char)) -> Option<Operation> {
    if m == (Method::Post, 13nat, 'c', 'o') {
        Some(Operation::CreateContainer)
    } else if m == (Method::Post, 19nat, 'c', 'o') {
        Some(Operation::CreateContainerBatch)
    } else if m == (Method::Delete, 17nat, 'c', 'o') {
        Some(Operation::DeleteContainer)
    } else if m == (Method::Get, 17nat, 'c', 'o') {
        Some(Operation::GetContainer)
    } else if m == (Method::Get, 25nat, 'c', 'o') {
        Some(Operation::GetContainerHistory)
    } else if m == (Method::Get, 20nat, 'c', 'o') {
        Some(Operation::LookupContainer)
    } else if m == (Method::Put, 17nat, 'c', 'o') {
        Some(Operation::UpdateContainer)
    } else if m == (Method::Post, 11nat, 'c', 'r') {
        Some(Operation::CreateCreator)
    } else if m == (Method::Post, 17nat, 'c', 'r') {
        Some(Operation::CreateCreatorBatch)
    } else if m == (Method::Delete, 15nat, 'c', 'r') {
        Some(Operation::DeleteCreator)
    } else if m == (Method::Get, 15nat, 'c', 'r') {
        Some(Operation::GetCreator)
    } else if m == (Method::Get, 23nat, 'c', 'r') {
        Some(Operation::GetCreatorHistory)
    } else if m == (Method::Get, 24nat, 'c', 'r') {
        Some(Operation::GetCreatorReleases)
    } else if m == (Method::Get, 18nat, 'c', 'r') {
        Some(Operation::LookupCreator)
    } else if m == (Method::Put, 15nat, 'c', 'r') {
        Some(Operation::UpdateCreator)
    } else if m == (Method::Get, 14nat, 'e', 'd') {
        Some(Operation::GetEditor)
    } else if m == (Method::Get, 24nat, 'e', 'd') {
        Some(Operation::GetEditorChangelog)
    } else if m == (Method::Get, 9nat, 's', 't') {
        Some(Operation::GetStats)
    } else if m == (Method::Post, 24nat, 'e', 'd') {
        Some(Operation::AcceptEditgroup)
    } else if m == (Method::Post, 13nat, 'e', 'd') {
        Some(Operation::CreateEditgroup)
    } else if m == (Method::Get, 13nat, 'c', 'h') {
        Some(Operation::GetChangelog)
    } else if m == (Method::Get, 17nat, 'c', 'h') {
        Some(Operation::GetChangelogEntry)
    } else if m == (Method::Get, 17nat, 'e', 'd') {
        Some(Operation::GetEditgroup)
    } else if m == (Method::Post, 8nat, 'f', 'i') {
        Some(Operation::CreateFile)
    } else if m == (Method::Post, 14nat, 'f', 'i') {
        Some(Operation::CreateFileBatch)
    } else if m == (Method::Delete, 12nat, 'f', 'i') {
        Some(Operation::DeleteFile)
    } else if m == (Method::Get, 12nat, 'f', 'i') {
        Some(Operation::GetFile)
    } else if m == (Method::Get, 20nat, 'f', 'i') {
        Some(Operation::GetFileHistory)
    } else if m == (Method::Get, 15nat, 'f', 'i') {
        Some(Operation::LookupFile)
    } else if m == (Method::Put, 12nat, 'f', 'i') {
        Some(Operation::UpdateFile)
    } else if m == (Method::Post, 11nat, 'r', 'e') {
        Some(Operation::CreateRelease)
    } else if m == (Method::Post, 17nat, 'r', 'e') {
        Some(Operation::CreateReleaseBatch)
    } else if m == (Method::Post, 8nat, 'w', 'o') {
        Some(Operation::CreateWork)
    } else if m == (Method::Delete, 15nat, 'r', 'e') {
        Some(Operation::DeleteRelease)
    } else if m == (Method::Get, 15nat, 'r', 'e') {
        Some(Operation::GetRelease)
    } else if m == (Method::Get, 21nat, 'r', 'e') {
        Some(Operation::GetReleaseFiles)
    } else if m == (Method::Get, 23nat, 'r', 'e') {
        Some(Operation::GetReleaseHistory)
    } else if m == (Method::Get, 18nat, 'r', 'e') {
        Some(Operation::LookupRelease)
    } else if m == (Method::Put, 15nat, 'r', 'e') {
        Some(Operation::UpdateRelease)
    } else if m == (Method::Post, 14nat, 'w', 'o') {
        Some(Operation::CreateWorkBatch)
    } else if m == (Method::Delete, 12nat, 'w', 'o') {
        Some(Operation::DeleteWork)
    } else if m == (Method::Get, 12nat, 'w', 'o') {
        Some(Operation::GetWork)
    } else if m == (Method::Get, 20nat, 'w', 'o') {
        Some(Operation::GetWorkHistory)
    } else if m == (Method::Get, 21nat, 'w', 'o') {
        Some(Operation::GetWorkReleases)
    } else if m == (Method::Put, 12nat, 'w', 'o') {
        Some(Operation::UpdateWork)
    } else {
        None
    }
}

/// The marks of every route's method and path lead back to its operation.
proof fn lemma_path_marks(op: Operation)
    ensures
        operation_with_path_marks(path_marks(op.method_of(), op.pattern_of().render())) == Some(op),
{
    reveal_strlit("/v0/");
    reveal_strlit("/:id");
    reveal_strlit("/");
    match op {
        Operation::CreateContainer => {
            reveal_strlit("container");
            assert(path_marks(op.method_of(), op.pattern_of().render()) == (Method::Post, 13nat, 'c', 'o'));
        },
        Operation::CreateContainerBatch => {
            reveal_strlit("container");
            reveal_strlit("batch");
            assert(path_marks(op.method_of(), op.pattern_of().render()) == (Method::Post, 19nat, 'c', 'o'));
        },
        Operation::DeleteContainer => {
            reveal_strlit("container");
            assert(path_marks(op.method_of(), op.pattern_of().render()) == (Method::Delete, 17nat, 'c', 'o'));
        },
        Operation::GetContainer => {
            reveal_strlit("container");
            assert(path_marks(op.method_of(), op.pattern_of().render()) == (Method::Get, 17nat, 'c', 'o'));
        },
        Operation::GetContainerHistory => {
            reveal_strlit("container");
            reveal_strlit("history");
            assert(path_marks(op.method_of(), op.pattern_of().render()) == (Method::Get, 25nat, 'c', 'o'));
        },
        Operation::LookupContainer => {
            reveal_strlit("container");
            reveal_strlit("lookup");
            assert(path_marks(op.method_of(), op.pattern_of().render()) == (Method::Get, 20nat, 'c', 'o'));
        },
        Operation::UpdateContainer => {
            reveal_strlit("container");
            assert(path_marks(op.method_of(), op.pattern_of().render()) == (Method::Put, 17nat, 'c', 'o'));
        },
        Operation::CreateCreator => {
            reveal_strlit("creator");
            assert(path_marks(op.method_of(), op.pattern_of().render()) == (Method::Post, 11nat, 'c', 'r'));
        },
        Operation::CreateCreatorBatch => {
            reveal_strlit("creator");
            reveal_strlit("batch");
            assert(path_marks(op.method_of(), op.pattern_of().render()) == (Method::Post, 17nat, 'c', 'r'));
        },
        Operation::DeleteCreator => {
            reveal_strlit("creator");
            assert(path_marks(op.method_of(), op.pattern_of().render()) == (Method::Delete, 15nat, 'c', 'r'));
        },
        Operation::GetCreator => {
            reveal_strlit("creator");
            assert(path_marks(op.method_of(), op.pattern_of().render()) == (Method::Get, 15nat, 'c', 'r'));
        },
        Operation::GetCreatorHistory => {
            reveal_strlit("creator");
            reveal_strlit("history");
            assert(path_marks(op.method_of(), op.pattern_of().render()) == (Method::Get, 23nat, 'c', 'r'));
        },
        Operation::GetCreatorReleases => {
            reveal_strlit("creator");
            reveal_strlit("releases");
            assert(path_marks(op.method_of(), op.pattern_of().render()) == (Method::Get, 24nat, 'c', 'r'));
        },
        Operation::LookupCreator => {
            reveal_strlit("creator");
            reveal_strlit("lookup");
            assert(path_marks(op.method_of(), op.pattern_of().render()) == (Method::Get, 18nat, 'c', 'r'));
        },
        Operation::UpdateCreator => {
            reveal_strlit("creator");
            assert(path_marks(op.method_of(), op.pattern_of().render()) == (Method::Put, 15nat, 'c', 'r'));
        },
        Operation::GetEditor => {
            reveal_strlit("editor");
            assert(path_marks(op.method_of(), op.pattern_of().render()) == (Method::Get, 14nat, 'e', 'd'));
        },
        Operation::GetEditorChangelog => {
            reveal_strlit("editor");
            reveal_strlit("changelog");
            assert(path_marks(op.method_of(), op.pattern_of().render()) == (Method::Get, 24nat, 'e', 'd'));
        },
        Operation::GetStats => {
            reveal_strlit("stats");
            assert(path_marks(op.method_of(), op.pattern_of().render()) == (Method::Get, 9nat, 's', 't'));
        },
        Operation::AcceptEditgroup => {
            reveal_strlit("editgroup");
            reveal_strlit("accept");
            assert(path_marks(op.method_of(), op.pattern_of().render()) == (Method::Post, 24nat, 'e', 'd'));
        },
        Operation::CreateEditgroup => {
            reveal_strlit("editgroup");
            assert(path_marks(op.method_of(), op.pattern_of().render()) == (Method::Post, 13nat, 'e', 'd'));
        },
        Operation::GetChangelog => {
            reveal_strlit("changelog");
            assert(path_marks(op.method_of(), op.pattern_of().render()) == (Method::Get, 13nat, 'c', 'h'));
        },
        Operation::GetChangelogEntry => {
            reveal_strlit("changelog");
            assert(path_marks(op.method_of(), op.pattern_of().render()) == (Method::Get, 17nat, 'c', 'h'));
        },
        Operation::GetEditgroup => {
            reveal_strlit("editgroup");
            assert(path_marks(op.method_of(), op.pattern_of().render()) == (Method::Get, 17nat, 'e', 'd'));
        },
        Operation::CreateFile => {
            reveal_strlit("file");
            assert(path_marks(op.method_of(), op.pattern_of().render()) == (Method::Post, 8nat, 'f', 'i'));
        },
        Operation::CreateFileBatch => {
            reveal_strlit("file");
            reveal_strlit("batch");
            assert(path_marks(op.method_of(), op.pattern_of().render()) == (Method::Post, 14nat, 'f', 'i'));
        },
        Operation::DeleteFile => {
            reveal_strlit("file");
            assert(path_marks(op.method_of(), op.pattern_of().render()) == (Method::Delete, 12nat, 'f', 'i'));
        },
        Operation::GetFile => {
            reveal_strlit("file");
            assert(path_marks(op.method_of(), op.pattern_of().render()) == (Method::Get, 12nat, 'f', 'i'));
        },
        Operation::GetFileHistory => {
            reveal_strlit("file");
            reveal_strlit("history");
            assert(path_marks(op.method_of(), op.pattern_of().render()) == (Method::Get, 20nat, 'f', 'i'));
        },
        Operation::LookupFile => {
            reveal_strlit("file");
            reveal_strlit("lookup");
            assert(path_marks(op.method_of(), op.pattern_of().render()) == (Method::Get, 15nat, 'f', 'i'));
        },
        Operation::UpdateFile => {
            reveal_strlit("file");
            assert(path_marks(op.method_of(), op.pattern_of().render()) == (Method::Put, 12nat, 'f', 'i'));
        },
        Operation::CreateRelease => {
            reveal_strlit("release");
            assert(path_marks(op.method_of(), op.pattern_of().render()) == (Method::Post, 11nat, 'r', 'e'));
        },
        Operation::CreateReleaseBatch => {
            reveal_strlit("release");
            reveal_strlit("batch");
            assert(path_marks(op.method_of(), op.pattern_of().render()) == (Method::Post, 17nat, 'r', 'e'));
        },
        Operation::CreateWork => {
            reveal_strlit("work");
            assert(path_marks(op.method_of(), op.pattern_of().render()) == (Method::Post, 8nat, 'w', 'o'));
        },
        Operation::DeleteRelease => {
            reveal_strlit("release");
            assert(path_marks(op.method_of(), op.pattern_of().render()) == (Method::Delete, 15nat, 'r', 'e'));
        },
        Operation::GetRelease => {
            reveal_strlit("release");
            assert(path_marks(op.method_of(), op.pattern_of().render()) == (Method::Get, 15nat, 'r', 'e'));
        },
        Operation::GetReleaseFiles => {
            reveal_strlit("release");
            reveal_strlit("files");
            assert(path_marks(op.method_of(), op.pattern_of().render()) == (Method::Get, 21nat, 'r', 'e'));
        },
        Operation::GetReleaseHistory => {
            reveal_strlit("release");
            reveal_strlit("history");
            assert(path_marks(op.method_of(), op.pattern_of().render()) == (Method::Get, 23nat, 'r', 'e'));
        },
        Operation::LookupRelease => {
            reveal_strlit("release");
            reveal_strlit("lookup");
            assert(path_marks(op.method_of(), op.pattern_of().render()) == (Method::Get, 18nat, 'r', 'e'));
        },
        Operation::UpdateRelease => {
            reveal_strlit("release");
            assert(path_marks(op.method_of(), op.pattern_of().render()) == (Method::Put, 15nat, 'r', 'e'));
        },
        Operation::CreateWorkBatch => {
            reveal_strlit("work");
            reveal_strlit("batch");
            assert(path_marks(op.method_of(), op.pattern_of().render()) == (Method::Post, 14nat, 'w', 'o'));
        },
        Operation::DeleteWork => {
            reveal_strlit("work");
            assert(path_marks(op.method_of(), op.pattern_of().render()) == (Method::Delete, 12nat, 'w', 'o'));
        },
        Operation::GetWork => {
            reveal_strlit("work");
            assert(path_marks(op.method_of(), op.pattern_of().render()) == (Method::Get, 12nat, 'w', 'o'));
        },
        Operation::GetWorkHistory => {
            reveal_strlit("work");
            reveal_strlit("history");
            assert(path_marks(op.method_of(), op.pattern_of().render()) == (Method::Get, 20nat, 'w', 'o'));
        },
        Operation::GetWorkReleases => {
            reveal_strlit("work");
            reveal_strlit("releases");
            assert(path_marks(op.method_of(), op.pattern_of().render()) == (Method::Get, 21nat, 'w', 'o'));
        },
        Operation::UpdateWork => {
            reveal_strlit("work");
            assert(path_marks(op.method_of(), op.pattern_of().render()) == (Method::Put, 12nat, 'w', 'o'));
        },
    }
}

/// No two operations share a method and a path as the router reads it, so
/// registering every route loses none.
pub proof fn law_route_paths_are_distinct(a: Operation, b: Operation)
    requires
        a.method_of() == b.method_of(),
        a.pattern_of().render() == b.pattern_of().render(),
    ensures
        a == b,
{
    lemma_path_marks(a);
    lemma_path_marks(b);
}


/// Every operation is routed under the method and the path, and registered
/// under the name, that the catalog API gives it.
pub proof fn law_route_table(op: Operation)
    ensures
        (op.method_of(), op.pattern_of().render(), op.route_id_of()) == match op {
            Operation::CreateContainer => (Method::Post, "/v0/container"@, "CreateContainer"@),
            Operation::CreateContainerBatch => (Method::Post, "/v0/container/batch"@, "CreateContainerBatch"@),
            Operation::DeleteContainer => (Method::Delete, "/v0/container/:id"@, "DeleteContainer"@),
            Operation::GetContainer => (Method::Get, "/v0/container/:id"@, "GetContainer"@),
            Operation::GetContainerHistory => (Method::Get, "/v0/container/:id/history"@, "GetContainerHistory"@),
            Operation::LookupContainer => (Method::Get, "/v0/container/lookup"@, "LookupContainer"@),
            Operation::UpdateContainer => (Method::Put, "/v0/container/:id"@, "UpdateContainer"@),
            Operation::CreateCreator => (Method::Post, "/v0/creator"@, "CreateCreator"@),
            Operation::CreateCreatorBatch => (Method::Post, "/v0/creator/batch"@, "CreateCreatorBatch"@),
            Operation::DeleteCreator => (Method::Delete, "/v0/creator/:id"@, "DeleteCreator"@),
            Operation::GetCreator => (Method::Get, "/v0/creator/:id"@, "GetCreator"@),
            Operation::GetCreatorHistory => (Method::Get, "/v0/creator/:id/history"@, "GetCreatorHistory"@),
            Operation::GetCreatorReleases => (Method::Get, "/v0/creator/:id/releases"@, "GetCreatorReleases"@),
            Operation::LookupCreator => (Method::Get, "/v0/creator/lookup"@, "LookupCreator"@),
            Operation::UpdateCreator => (Method::Put, "/v0/creator/:id"@, "UpdateCreator"@),
            Operation::GetEditor => (Method::Get, "/v0/editor/:id"@, "GetEditor"@),
            Operation::GetEditorChangelog => (Method::Get, "/v0/editor/:id/changelog"@, "GetEditorChangelog"@),
            Operation::GetStats => (Method::Get, "/v0/stats"@, "GetStats"@),
            Operation::AcceptEditgroup => (Method::Post, "/v0/editgroup/:id/accept"@, "AcceptEditgroup"@),
            Operation::CreateEditgroup => (Method::Post, "/v0/editgroup"@, "CreateEditgroup"@),
            Operation::GetChangelog => (Method::Get, "/v0/changelog"@, "GetChangelog"@),
            Operation::GetChangelogEntry => (Method::Get, "/v0/changelog/:id"@, "GetChangelogEntry"@),
            Operation::GetEditgroup => (Method::Get, "/v0/editgroup/:id"@, "GetEditgroup"@),
            Operation::CreateFile => (Method::Post, "/v0/file"@, "CreateFile"@),
            Operation::CreateFileBatch => (Method::Post, "/v0/file/batch"@, "CreateFileBatch"@),
            Operation::DeleteFile => (Method::Delete, "/v0/file/:id"@, "DeleteFile"@),
            Operation::GetFile => (Method::Get, "/v0/file/:id"@, "GetFile"@),
            Operation::GetFileHistory => (Method::Get, "/v0/file/:id/history"@, "GetFileHistory"@),
            Operation::LookupFile => (Method::Get, "/v0/file/lookup"@, "LookupFile"@),
            Operation::UpdateFile => (Method::Put, "/v0/file/:id"@, "UpdateFile"@),
            Operation::CreateRelease => (Method::Post, "/v0/release"@, "CreateRelease"@),
            Operation::CreateReleaseBatch => (Method::Post, "/v0/release/batch"@, "CreateReleaseBatch"@),
            Operation::CreateWork => (Method::Post, "/v0/work"@, "CreateWork"@),
            Operation::DeleteRelease => (Method::Delete, "/v0/release/:id"@, "DeleteRelease"@),
            Operation::GetRelease => (Method::Get, "/v0/release/:id"@, "GetRelease"@),
            Operation::GetReleaseFiles => (Method::Get, "/v0/release/:id/files"@, "GetReleaseFiles"@),
            Operation::GetReleaseHistory => (Method::Get, "/v0/release/:id/history"@, "GetReleaseHistory"@),
            Operation::LookupRelease => (Method::Get, "/v0/release/lookup"@, "LookupRelease"@),
            Operation::UpdateRelease => (Method::Put, "/v0/release/:id"@, "UpdateRelease"@),
            Operation::CreateWorkBatch => (Method::Post, "/v0/work/batch"@, "CreateWorkBatch"@),
            Operation::DeleteWork => (Method::Delete, "/v0/work/:id"@, "DeleteWork"@),
            Operation::GetWork => (Method::Get, "/v0/work/:id"@, "GetWork"@),
            Operation::GetWorkHistory => (Method::Get, "/v0/work/:id/history"@, "GetWorkHistory"@),
            Operation::GetWorkReleases => (Method::Get, "/v0/work/:id/releases"@, "GetWorkReleases"@),
            Operation::UpdateWork => (Method::Put, "/v0/work/:id"@, "UpdateWork"@),
        },
{
    reveal_strlit("/v0/");
    reveal_strlit("/:id");
    reveal_strlit("/");
    match op {
        Operation::CreateContainer => {
            reveal_strlit("container");
            reveal_strlit("/v0/container");
            assert(op.pattern_of().render() =~= "/v0/container"@);
        },
        Operation::CreateContainerBatch => {
            reveal_strlit("container");
            reveal_strlit("batch");
            reveal_strlit("/v0/container/batch");
            assert(op.pattern_of().render() =~= "/v0/container/batch"@);
        },
        Operation::DeleteContainer => {
            reveal_strlit("container");
            reveal_strlit("/v0/container/:id");
            assert(op.pattern_of().render() =~= "/v0/container/:id"@);
        },
        Operation::GetContainer => {
            reveal_strlit("container");
            reveal_strlit("/v0/container/:id");
            assert(op.pattern_of().render() =~= "/v0/container/:id"@);
        },
        Operation::GetContainerHistory => {
            reveal_strlit("container");
            reveal_strlit("history");
            reveal_strlit("/v0/container/:id/history");
            assert(op.pattern_of().render() =~= "/v0/container/:id/history"@);
        },
        Operation::LookupContainer => {
            reveal_strlit("container");
            reveal_strlit("lookup");
            reveal_strlit("/v0/container/lookup");
            assert(op.pattern_of().render() =~= "/v0/container/lookup"@);
        },
        Operation::UpdateContainer => {
            reveal_strlit("container");
            reveal_strlit("/v0/container/:id");
            assert(op.pattern_of().render() =~= "/v0/container/:id"@);
        },
        Operation::CreateCreator => {
            reveal_strlit("creator");
            reveal_strlit("/v0/creator");
            assert(op.pattern_of().render() =~= "/v0/creator"@);
        },
        Operation::CreateCreatorBatch => {
            reveal_strlit("creator");
            reveal_strlit("batch");
            reveal_strlit("/v0/creator/batch");
            assert(op.pattern_of().render() =~= "/v0/creator/batch"@);
        },
        Operation::DeleteCreator => {
            reveal_strlit("creator");
            reveal_strlit("/v0/creator/:id");
            assert(op.pattern_of().render() =~= "/v0/creator/:id"@);
        },
        Operation::GetCreator => {
            reveal_strlit("creator");
            reveal_strlit("/v0/creator/:id");
            assert(op.pattern_of().render() =~= "/v0/creator/:id"@);
        },
        Operation::GetCreatorHistory => {
            reveal_strlit("creator");
            reveal_strlit("history");
            reveal_strlit("/v0/creator/:id/history");
            assert(op.pattern_of().render() =~= "/v0/creator/:id/history"@);
        },
        Operation::GetCreatorReleases => {
            reveal_strlit("creator");
            reveal_strlit("releases");
            reveal_strlit("/v0/creator/:id/releases");
            assert(op.pattern_of().render() =~= "/v0/creator/:id/releases"@);
        },
        Operation::LookupCreator => {
            reveal_strlit("creator");
            reveal_strlit("lookup");
            reveal_strlit("/v0/creator/lookup");
            assert(op.pattern_of().render() =~= "/v0/creator/lookup"@);
        },
        Operation::UpdateCreator => {
            reveal_strlit("creator");
            reveal_strlit("/v0/creator/:id");
            assert(op.pattern_of().render() =~= "/v0/creator/:id"@);
        },
        Operation::GetEditor => {
            reveal_strlit("editor");
            reveal_strlit("/v0/editor/:id");
            assert(op.pattern_of().render() =~= "/v0/editor/:id"@);
        },
        Operation::GetEditorChangelog => {
            reveal_strlit("editor");
            reveal_strlit("changelog");
            reveal_strlit("/v0/editor/:id/changelog");
            assert(op.pattern_of().render() =~= "/v0/editor/:id/changelog"@);
        },
        Operation::GetStats => {
            reveal_strlit("stats");
            reveal_strlit("/v0/stats");
            assert(op.pattern_of().render() =~= "/v0/stats"@);
        },
        Operation::AcceptEditgroup => {
            reveal_strlit("editgroup");
            reveal_strlit("accept");
            reveal_strlit("/v0/editgroup/:id/accept");
            assert(op.pattern_of().render() =~= "/v0/editgroup/:id/accept"@);
        },
        Operation::CreateEditgroup => {
            reveal_strlit("editgroup");
            reveal_strlit("/v0/editgroup");
            assert(op.pattern_of().render() =~= "/v0/editgroup"@);
        },
        Operation::GetChangelog => {
            reveal_strlit("changelog");
            reveal_strlit("/v0/changelog");
            assert(op.pattern_of().render() =~= "/v0/changelog"@);
        },
        Operation::GetChangelogEntry => {
            reveal_strlit("changelog");
            reveal_strlit("/v0/changelog/:id");
            assert(op.pattern_of().render() =~= "/v0/changelog/:id"@);
        },
        Operation::GetEditgroup => {
            reveal_strlit("editgroup");
            reveal_strlit("/v0/editgroup/:id");
            assert(op.pattern_of().render() =~= "/v0/editgroup/:id"@);
        },
        Operation::CreateFile => {
            reveal_strlit("file");
            reveal_strlit("/v0/file");
            assert(op.pattern_of().render() =~= "/v0/file"@);
        },
        Operation::CreateFileBatch => {
            reveal_strlit("file");
            reveal_strlit("batch");
            reveal_strlit("/v0/file/batch");
            assert(op.pattern_of().render() =~= "/v0/file/batch"@);
        },
        Operation::DeleteFile => {
            reveal_strlit("file");
            reveal_strlit("/v0/file/:id");
            assert(op.pattern_of().render() =~= "/v0/file/:id"@);
        },
        Operation::GetFile => {
            reveal_strlit("file");
            reveal_strlit("/v0/file/:id");
            assert(op.pattern_of().render() =~= "/v0/file/:id"@);
        },
        Operation::GetFileHistory => {
            reveal_strlit("file");
            reveal_strlit("history");
            reveal_strlit("/v0/file/:id/history");
            assert(op.pattern_of().render() =~= "/v0/file/:id/history"@);
        },
        Operation::LookupFile => {
            reveal_strlit("file");
            reveal_strlit("lookup");
            reveal_strlit("/v0/file/lookup");
            assert(op.pattern_of().render() =~= "/v0/file/lookup"@);
        },
        Operation::UpdateFile => {
            reveal_strlit("file");
            reveal_strlit("/v0/file/:id");
            assert(op.pattern_of().render() =~= "/v0/file/:id"@);
        },
        Operation::CreateRelease => {
            reveal_strlit("release");
            reveal_strlit("/v0/release");
            assert(op.pattern_of().render() =~= "/v0/release"@);
        },
        Operation::CreateReleaseBatch => {
            reveal_strlit("release");
            reveal_strlit("batch");
            reveal_strlit("/v0/release/batch");
            assert(op.pattern_of().render() =~= "/v0/release/batch"@);
        },
        Operation::CreateWork => {
            reveal_strlit("work");
            reveal_strlit("/v0/work");
            assert(op.pattern_of().render() =~= "/v0/work"@);
        },
        Operation::DeleteRelease => {
            reveal_strlit("release");
            reveal_strlit("/v0/release/:id");
            assert(op.pattern_of().render() =~= "/v0/release/:id"@);
        },
        Operation::GetRelease => {
            reveal_strlit("release");
            reveal_strlit("/v0/release/:id");
            assert(op.pattern_of().render() =~= "/v0/release/:id"@);
        },
        Operation::GetReleaseFiles => {
            reveal_strlit("release");
            reveal_strlit("files");
            reveal_strlit("/v0/release/:id/files");
            assert(op.pattern_of().render() =~= "/v0/release/:id/files"@);
        },
        Operation::GetReleaseHistory => {
            reveal_strlit("release");
            reveal_strlit("history");
            reveal_strlit("/v0/release/:id/history");
            assert(op.pattern_of().render() =~= "/v0/release/:id/history"@);
        },
        Operation::LookupRelease => {
            reveal_strlit("release");
            reveal_strlit("lookup");
            reveal_strlit("/v0/release/lookup");
            assert(op.pattern_of().render() =~= "/v0/release/lookup"@);
        },
        Operation::UpdateRelease => {
            reveal_strlit("release");
            reveal_strlit("/v0/release/:id");
            assert(op.pattern_of().render() =~= "/v0/release/:id"@);
        },
        Operation::CreateWorkBatch => {
            reveal_strlit("work");
            reveal_strlit("batch");
            reveal_strlit("/v0/work/batch");
            assert(op.pattern_of().render() =~= "/v0/work/batch"@);
        },
        Operation::DeleteWork => {
            reveal_strlit("work");
            reveal_strlit("/v0/work/:id");
            assert(op.pattern_of().render() =~= "/v0/work/:id"@);
        },
        Operation::GetWork => {
            reveal_strlit("work");
            reveal_strlit("/v0/work/:id");
            assert(op.pattern_of().render() =~= "/v0/work/:id"@);
        },
        Operation::GetWorkHistory => {
            reveal_strlit("work");
            reveal_strlit("history");
            reveal_strlit("/v0/work/:id/history");
            assert(op.pattern_of().render() =~= "/v0/work/:id/history"@);
        },
        Operation::GetWorkReleases => {
            reveal_strlit("work");
            reveal_strlit("releases");
            reveal_strlit("/v0/work/:id/releases");
            assert(op.pattern_of().render() =~= "/v0/work/:id/releases"@);
        },
        Operation::UpdateWork => {
            reveal_strlit("work");
            reveal_strlit("/v0/work/:id");
            assert(op.pattern_of().render() =~= "/v0/work/:id"@);
        },
    }
}

} // verus!
