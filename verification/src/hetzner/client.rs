use vstd::prelude::*;

use crate::hetzner::models::CreateServerParams;
use crate::hetzner::models::CreateServerResponse;
use crate::hetzner::models::DeleteServerParams;
use crate::hetzner::models::DeleteServerResponse;
use crate::hetzner::models::GetServerParams;
use crate::hetzner::models::GetServerResponse;
use crate::hetzner::models::OrcaError;

verus! {

/// The capability through which create, get and delete reach the remote
/// provider API: one network round trip per call, no caching, no retries.
///
/// Implementations live outside the verified library — the real HTTP
/// transport on one side, test doubles on the other; this is a deliberate
/// seam, so the orchestration logic can be exercised without network access.
/// Each implementation chooses its three postcondition predicates, and every
/// contract of the orchestrator is stated relative to them: what is proved
/// holds for whatever the injected client may answer, and nothing more is
/// assumed of the remote side.
pub trait HCloud {
    /// Which results a creation call may produce, given the wire fields of
    /// the request it was invoked with. A client that keeps the default
    /// promises nothing of its answers.
    open spec fn create_post(
        &self,
        name: Seq<char>,
        image: Seq<char>,
        server_type: Seq<char>,
        location: Seq<char>,
        r: Result<CreateServerResponse, OrcaError>,
    ) -> bool {
        true
    }

    /// Which results a fetch call may produce, given the id it was invoked
    /// with. A client that keeps the default promises nothing of its
    /// answers.
    open spec fn get_post(&self, id: i64, r: Result<GetServerResponse, OrcaError>) -> bool {
        true
    }

    /// Which results a deletion call may produce, given the id it was
    /// invoked with. A client that keeps the default promises nothing of
    /// its answers.
    open spec fn delete_post(&self, id: i64, r: Result<DeleteServerResponse, OrcaError>) -> bool {
        true
    }

    /// Submits a creation request; the provider assigns the id.
    fn create_server(&self, params: CreateServerParams) -> (r: Result<
        CreateServerResponse,
        OrcaError,
    >)
        ensures
            self.create_post(params.name@, params.image@, params.server_type@, params.location@, r),
    ;

    /// Fetches the current record of the instance with the given id.
    fn get_server(&self, params: GetServerParams) -> (r: Result<GetServerResponse, OrcaError>)
        ensures
            self.get_post(params.id, r),
    ;

    /// Requests deletion of the instance with the given id; the provider
    /// completes it asynchronously.
    fn delete_server(&self, params: DeleteServerParams) -> (r: Result<
        DeleteServerResponse,
        OrcaError,
    >)
        ensures
            self.delete_post(params.id, r),
    ;
}

} // verus!
