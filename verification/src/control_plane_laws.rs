//! What holds of the requests to the control plane, over what they are about.

use crate::api::{
    change_user_request, list_request, register_request, remove_request, rename_request,
    HttpRequestView, Method,
};
use crate::context::DataView;
use crate::error::ReconcileErrorView;
use crate::objects::ServiceView;
use crate::plan_laws::{holds, lacks};
use crate::reconcile::{cleanup_of, cleanup_result, Action, CleanupView};
use vstd::prelude::*;

verus! {

/// Whether the failure to send a request is reported by `send`, and a reply that cannot be read by
/// `parse`, where the reply is read.
pub open spec fn reports(
    request: HttpRequestView,
    send: Seq<char>,
    parse: Option<Seq<char>>,
) -> bool {
    request.send_context == send && request.parse_context == parse
}

/// The machines are read from one URL of the control plane, without parameters.
pub proof fn lemma_list_request(base_url: Seq<char>)
    ensures
        ({
            let request = list_request(base_url);
            &&& request.method == Method::Get
            &&& request.url == base_url + "/api/v1/machine"@
            &&& request.query.len() == 0
            &&& reports(request, "Failed to list machines"@, Some("Failed to list machines"@))
        }),
{
}

/// A registration names the user, and the node key behind its prefix. Both stand in the query, so
/// that the URL is the same for all.
pub proof fn lemma_register_request(base_url: Seq<char>, nodekey: Seq<char>, user: Seq<char>)
    ensures
        ({
            let request = register_request(base_url, nodekey, user);
            &&& request.method == Method::Post
            &&& request.url == base_url + "/api/v1/machine/register"@
            &&& request.query.len() == 2
            &&& request.query[0].name == "user"@ && request.query[0].value == user
            &&& request.query[1].name == "key"@ && request.query[1].value == "nodekey:"@ + nodekey
            &&& reports(request, "Failed to register machine"@, Some("Failed to parse response"@))
        }),
{
}

/// A machine is renamed by its id and the new name, both in the URL.
pub proof fn lemma_rename_request(base_url: Seq<char>, id: Seq<char>, name: Seq<char>)
    ensures
        ({
            let request = rename_request(base_url, id, name);
            &&& request.method == Method::Post
            &&& request.url == base_url + "/api/v1/machine/"@ + id + "/rename/"@ + name
            &&& request.query.len() == 0
            &&& reports(request, "Failed to rename machine"@, Some("Failed to parse response"@))
        }),
{
}

/// A machine is given to a user by its id in the URL, and the user in the query.
pub proof fn lemma_change_user_request(base_url: Seq<char>, id: Seq<char>, user: Seq<char>)
    ensures
        ({
            let request = change_user_request(base_url, id, user);
            &&& request.method == Method::Post
            &&& request.url == base_url + "/api/v1/machine/"@ + id + "/user"@
            &&& request.query.len() == 1
            &&& request.query[0].name == "user"@ && request.query[0].value == user
            &&& reports(request, "Failed to change user"@, Some("Failed to parse response"@))
        }),
{
}

/// A machine is deleted by its id in the URL, and the reply is not read.
pub proof fn lemma_remove_request(base_url: Seq<char>, id: Seq<char>)
    ensures
        ({
            let request = remove_request(base_url, id);
            &&& request.method == Method::Delete
            &&& request.url == base_url + "/api/v1/machine/"@ + id
            &&& request.query.len() == 0
            &&& reports(request, "Failed to delete node"@, None)
        }),
{
}

/// Requests about different machines go to different URLs.
pub proof fn lemma_removals_tell_machines_apart(
    base_url: Seq<char>,
    one: Seq<char>,
    other: Seq<char>,
)
    requires
        one != other,
    ensures
        remove_request(base_url, one).url != remove_request(base_url, other).url,
{
    let prefix = base_url + "/api/v1/machine/"@;
    assert((prefix + one).skip(prefix.len() as int) == one);
    assert((prefix + other).skip(prefix.len() as int) == other);
}

/// When a service is deleted, the machine with the id that it is annotated with is deleted.
/// Annotations without the id may leave a machine behind, and without annotations there is nothing
/// to do. Nothing else of the service matters.
pub proof fn lemma_deletion_removes_the_annotated_machine(
    service: ServiceView,
    id: Seq<char>,
    ctx: DataView,
)
    ensures
        ({
            let annotations = service.metadata.annotations;
            let cleanup = cleanup_of(service, ctx);
            &&& holds(annotations, "surge.unrouted.uk/machine-id"@, id) ==> (
            cleanup matches CleanupView::Remove(request) && request.method == Method::Delete
                && request.url == ctx.base_url + "/api/v1/machine/"@ + id && request.query.len()
                == 0)
            &&& cleanup is StaleNode <==> annotations is Some && lacks(
                annotations,
                "surge.unrouted.uk/machine-id"@,
            )
            &&& cleanup is Nothing <==> annotations is None
        }),
{
}

/// A cleanup fails exactly where there was a machine to be removed and it was not, and is otherwise
/// done until the service changes.
pub proof fn lemma_cleanup_ends_with_the_removal(cleanup: CleanupView, removed: bool)
    ensures
        cleanup_result(cleanup, removed) is Err <==> cleanup is Remove && !removed,
        cleanup_result(cleanup, removed) matches Err(error) ==> error
            == ReconcileErrorView::RequestFailed,
        cleanup_result(cleanup, removed) matches Ok(action) ==> action == Action::AwaitChange,
{
}

} // verus!
