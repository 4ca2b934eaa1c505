use vstd::prelude::*;

use crate::hetzner::client::HCloud;
use crate::hetzner::models::CreateServerParams;
use crate::hetzner::models::CreateServerResponse;
use crate::hetzner::models::DeleteServerParams;
use crate::hetzner::models::DeleteServerResponse;
use crate::hetzner::models::GetServerParams;
use crate::hetzner::models::GetServerResponse;
use crate::hetzner::models::HCloudLocation;
use crate::hetzner::models::HCloudServerType;
use crate::hetzner::models::OrcaError;
use crate::hetzner::models::Status;

verus! {

/// A source of wall-clock readings and cooperative sleeps, injected into
/// `wait_until_running` so its deadline behaviour can be driven
/// deterministically instead of through a hidden global clock.
///
/// The model is a millisecond counter that never moves backwards and that a
/// sleep advances by at least the slept amount, up to the top of `u64` where
/// the counter pegs. `ManualClock` is the library's own implementation;
/// callers may bring a real one that reads the machine clock.
pub trait Clock {
    /// The clock's current reading, in milliseconds from its own origin.
    /// An implementation overrides this with its own model of time; the
    /// reading and sleeping contracts below are stated over it.
    open spec fn millis(&self) -> u64 {
        0
    }

    /// Reads the clock. The reading never decreases between calls.
    fn now_ms(&mut self) -> (t: u64)
        ensures
            old(self).millis() <= final (self).millis(),
            t == final (self).millis(),
    ;

    /// Suspends the caller cooperatively for about `ms` milliseconds; the
    /// clock advances by at least `ms`, or pegs at the top of `u64`.
    fn sleep_ms(&mut self, ms: u64)
        ensures
            old(self).millis() + ms <= u64::MAX ==> final (self).millis() >= old(self).millis()
                + ms,
            old(self).millis() + ms > u64::MAX ==> final (self).millis() == u64::MAX,
    ;
}

/// A deterministic clock: reading it takes no time, and sleeping advances it
/// by exactly the slept amount. It backs the tests of the wait loop; nothing
/// in it touches the machine clock.
pub struct ManualClock {
    pub current_ms: u64,
}

impl Clock for ManualClock {
    open spec fn millis(&self) -> u64 {
        self.current_ms
    }

    fn now_ms(&mut self) -> (t: u64) {
        self.current_ms
    }

    fn sleep_ms(&mut self, ms: u64) {
        if ms <= u64::MAX - self.current_ms {
            self.current_ms = self.current_ms + ms;
        } else {
            self.current_ms = u64::MAX;
        }
    }
}

/// Does this fetched record carry a present payload whose status is
/// `Running`?
pub open spec fn running_response(resp: GetServerResponse) -> bool {
    match resp.server {
        Some(s) => s.status is Running,
        None => false,
    }
}

/// The orchestrator: exclusively owns one provider client and turns typed
/// requests into provider calls — create, get and delete pass through
/// unmodified — plus the readiness wait. It keeps no other state; each wait
/// computes its own deadline locally.
pub struct OrcaHCloud<C: HCloud> {
    hcloud: C,
}

impl<C: HCloud> OrcaHCloud<C> {
    /// The provider client this orchestrator owns.
    pub closed spec fn client(&self) -> C {
        self.hcloud
    }

    /// Takes exclusive ownership of the given provider client.
    pub fn new(hcloud: C) -> (r: Self)
        ensures
            r.client() == hcloud,
    {
        Self { hcloud }
    }

    /// Borrows the owned provider client.
    pub fn client_ref(&self) -> (c: &C)
        ensures
            c == self.client(),
    {
        &self.hcloud
    }

    /// Builds a creation request, rendering `server_type` and `location` to
    /// their exact provider wire strings, and delegates to the client's
    /// create; the client's answer comes back unmodified, on the success and
    /// on the error path alike.
    pub fn create_server(
        &self,
        name: &str,
        image_id: &str,
        server_type: HCloudServerType,
        location: HCloudLocation,
    ) -> (r: Result<CreateServerResponse, OrcaError>)
        ensures
            self.client().create_post(
                name@,
                image_id@,
                server_type.wire_spec(),
                location.wire_spec(),
                r,
            ),
    {
        let request = CreateServerParams {
            name: name.to_owned(),
            image: image_id.to_owned(),
            server_type: server_type.wire_str().to_owned(),
            location: location.wire_str().to_owned(),
        };
        self.hcloud.create_server(request)
    }

    /// Delegates a fetch for the given id to the client and returns its
    /// answer unmodified.
    pub fn get_server(&self, server_id: i64) -> (r: Result<GetServerResponse, OrcaError>)
        ensures
            self.client().get_post(server_id, r),
    {
        self.hcloud.get_server(GetServerParams { id: server_id })
    }

    /// Delegates a deletion of the given id to the client and returns its
    /// answer unmodified; deletion completes remotely on its own schedule.
    pub fn delete_server(&self, server_id: i64) -> (r: Result<DeleteServerResponse, OrcaError>)
        ensures
            self.client().delete_post(server_id, r),
    {
        self.hcloud.delete_server(DeleteServerParams { id: server_id })
    }

    /// Polls the instance until its status is `Running` or the deadline has
    /// elapsed.
    ///
    /// One unconditional fetch happens before any sleep; each fetched record
    /// is checked at once, and a `Running` status returns success with no
    /// further poll. Otherwise the wait sleeps for `tick_ms` and only
    /// afterwards compares the elapsed time against `timeout_ms` — so one
    /// more check after expiry is possible, and the worst-case latency is
    /// bounded by the timeout plus one tick, not cut hard at the timeout. A
    /// fetch error is fatal and propagates at once; a record without a
    /// payload is a provider-contract violation and surfaces as `NotFound`
    /// instead of crashing. Should the clock peg at the top of its range,
    /// the wait gives up with the same timeout error rather than spin
    /// forever.
    ///
    /// On success, a fetch of this id answered a record in `Running` state;
    /// a client that only ever answers such records makes success certain.
    /// Every error is either the client's own answer for this id, the
    /// missing-payload violation, or this function's one own error:
    /// `TimeoutExceeded` carrying exactly the configured timeout.
    pub fn wait_until_running<K: Clock>(
        &self,
        clock: &mut K,
        server_id: i64,
        timeout_ms: u64,
        tick_ms: u64,
    ) -> (r: Result<(), OrcaError>)
        requires
            tick_ms >= 1,
        ensures
            r is Ok ==> exists|resp: GetServerResponse|
                #[trigger] self.client().get_post(server_id, Ok(resp)) && running_response(resp),
            r matches Err(e) ==> self.client().get_post(server_id, Err(e)) || (e is NotFound
                && exists|resp: GetServerResponse|
                #[trigger] self.client().get_post(server_id, Ok(resp)) && resp.server is None) || (
            e matches OrcaError::TimeoutExceeded { timeout_ms: t } && t == timeout_ms),
            (forall|answer: Result<GetServerResponse, OrcaError>|
                #[trigger] self.client().get_post(server_id, answer) ==> (answer matches Ok(resp)
                    && running_response(resp))) ==> r is Ok,
    {
        let mut response = match self.get_server(server_id) {
            Ok(resp) => resp,
            Err(e) => { return Err(e) },
        };
        let start = clock.now_ms();
        loop
            invariant
                tick_ms >= 1,
                start <= clock.millis(),
                self.client().get_post(server_id, Ok(response)),
            decreases u64::MAX - clock.millis(),
        {
            match response.server {
                None => { return Err(OrcaError::NotFound) },
                Some(s) => {
                    if s.status == Status::Running {
                        return Ok(());
                    }
                },
            }
            clock.sleep_ms(tick_ms);
            let now = clock.now_ms();
            let elapsed = now - start;
            if elapsed > timeout_ms || now == u64::MAX {
                return Err(OrcaError::TimeoutExceeded { timeout_ms });
            }
            response = match self.get_server(server_id) {
                Ok(resp) => resp,
                Err(e) => { return Err(e) },
            };
        }
    }
}

} // verus!
