use vstd::prelude::*;
use vstd::string::StringExecFns;

verus! {

/// The machine sizes this library knows how to request from the provider.
///
/// Every variant maps to exactly one provider wire string; the mapping is
/// total and injective (see `lemma_server_type_wire_injective`).
#[derive(Clone, Copy, Debug)]
pub enum HCloudServerType {
    CAX11,
}

impl HCloudServerType {
    /// The provider wire string of this variant, as a sequence of characters.
    pub open spec fn wire_spec(self) -> Seq<char> {
        match self {
            HCloudServerType::CAX11 => "cax11"@,
        }
    }

    /// Renders this variant to its exact provider wire string.
    pub fn wire_str(&self) -> (r: &'static str)
        ensures
            r@ == self.wire_spec(),
    {
        match self {
            HCloudServerType::CAX11 => "cax11",
        }
    }
}

/// No two server types share a wire string.
pub proof fn lemma_server_type_wire_injective(a: HCloudServerType, b: HCloudServerType)
    ensures
        a.wire_spec() == b.wire_spec() ==> a == b,
{
}

/// The datacenter regions this library knows how to request from the provider.
///
/// Every variant maps to exactly one provider wire string; the mapping is
/// total and injective (see `lemma_location_wire_injective`).
#[derive(Clone, Copy, Debug)]
pub enum HCloudLocation {
    FSN1,
}

impl HCloudLocation {
    /// The provider wire string of this variant, as a sequence of characters.
    pub open spec fn wire_spec(self) -> Seq<char> {
        match self {
            HCloudLocation::FSN1 => "fsn1"@,
        }
    }

    /// Renders this variant to its exact provider wire string.
    pub fn wire_str(&self) -> (r: &'static str)
        ensures
            r@ == self.wire_spec(),
    {
        match self {
            HCloudLocation::FSN1 => "fsn1",
        }
    }
}

/// No two locations share a wire string.
pub proof fn lemma_location_wire_injective(a: HCloudLocation, b: HCloudLocation)
    ensures
        a.wire_spec() == b.wire_spec() ==> a == b,
{
}

/// The provider-reported lifecycle state of an instance.
#[derive(Clone, Copy, Debug, PartialEq, Eq, Structural)]
pub enum Status {
    Initializing,
    Starting,
    Running,
    Stopping,
    Off,
    Deleting,
    Migrating,
    Rebuilding,
    Unknown,
}

/// The part of a provider instance record that the orchestrator reads:
/// the assigned id and the current status. All other provider fields are
/// opaque to this library and stay with the transport adapter.
#[derive(Clone, Copy, Debug, PartialEq, Eq, Structural)]
pub struct Server {
    pub id: i64,
    pub status: Status,
}

/// The wire parameters of a creation request: the caller's name and image,
/// and the server type and location already rendered to their wire strings.
#[derive(Clone, Debug)]
pub struct CreateServerParams {
    pub name: String,
    pub image: String,
    pub server_type: String,
    pub location: String,
}

/// The wire parameters of a fetch request.
#[derive(Clone, Copy, Debug)]
pub struct GetServerParams {
    pub id: i64,
}

/// The wire parameters of a deletion request.
#[derive(Clone, Copy, Debug)]
pub struct DeleteServerParams {
    pub id: i64,
}

/// What the provider answers to a creation request.
#[derive(Clone, Copy, Debug)]
pub struct CreateServerResponse {
    pub server: Option<Server>,
}

/// What the provider answers to a fetch request. An absent payload for an
/// existing id is a provider-contract violation and is surfaced as an error
/// by the orchestrator, never unwrapped blindly.
#[derive(Clone, Copy, Debug)]
pub struct GetServerResponse {
    pub server: Option<Server>,
}

/// The provider's acknowledgement of a deletion request. Deletion proceeds
/// remotely; the acknowledgement carries nothing the orchestrator reads.
#[derive(Clone, Copy, Debug)]
pub struct DeleteServerResponse {
}

/// Everything that can go wrong in this library.
///
/// The first three variants are provider-reported and pass through the
/// orchestrator unmodified; `TimeoutExceeded` is the one error the
/// orchestrator itself introduces, on the exhausted-deadline path of
/// `wait_until_running`, and carries the configured timeout for diagnostics.
#[derive(Clone, Debug)]
pub enum OrcaError {
    TransportError(String),
    ApiError(String),
    NotFound,
    TimeoutExceeded { timeout_ms: u64 },
}

/// The decimal digit character for `d < 10`.
pub open spec fn digit_char(d: nat) -> char {
    if d == 0 {
        '0'
    } else if d == 1 {
        '1'
    } else if d == 2 {
        '2'
    } else if d == 3 {
        '3'
    } else if d == 4 {
        '4'
    } else if d == 5 {
        '5'
    } else if d == 6 {
        '6'
    } else if d == 7 {
        '7'
    } else if d == 8 {
        '8'
    } else {
        '9'
    }
}

/// The usual decimal rendering of `n`: most significant digit first,
/// no leading zeroes, a single `'0'` for zero.
pub open spec fn dec_seq(n: nat) -> Seq<char>
    decreases n,
{
    if n < 10 {
        seq![digit_char(n)]
    } else {
        dec_seq(n / 10).push(digit_char(n % 10))
    }
}

/// The one-character string of a single decimal digit.
fn digit_str(d: u64) -> (s: &'static str)
    requires
        d < 10,
    ensures
        s@ == seq![digit_char(d as nat)],
{
    proof {
        reveal_strlit("0");
        reveal_strlit("1");
        reveal_strlit("2");
        reveal_strlit("3");
        reveal_strlit("4");
        reveal_strlit("5");
        reveal_strlit("6");
        reveal_strlit("7");
        reveal_strlit("8");
        reveal_strlit("9");
    }
    let s: &'static str = if d == 0 {
        "0"
    } else if d == 1 {
        "1"
    } else if d == 2 {
        "2"
    } else if d == 3 {
        "3"
    } else if d == 4 {
        "4"
    } else if d == 5 {
        "5"
    } else if d == 6 {
        "6"
    } else if d == 7 {
        "7"
    } else if d == 8 {
        "8"
    } else {
        "9"
    };
    proof {
        assert(s@ =~= seq![digit_char(d as nat)]);
    }
    s
}

/// Renders `n` in decimal, least significant digit extracted first.
fn decimal_string(n: u64) -> (s: String)
    ensures
        s@ == dec_seq(n as nat),
{
    let mut s = String::new();
    let mut m: u64 = n;
    loop
        invariant_except_break
            m == 0 ==> s@ =~= Seq::<char>::empty() && n == 0,
            m > 0 ==> dec_seq(n as nat) =~= dec_seq(m as nat) + s@,
        ensures
            s@ == dec_seq(n as nat),
        decreases m,
    {
        let ghost m0: u64 = m;
        let d = m % 10;
        m = m / 10;
        let ds = digit_str(d);
        let tail = s;
        s = ds.to_owned().concat(tail.as_str());
        proof {
            assert(s@ =~= seq![digit_char(d as nat)] + tail@);
            if m0 == 0 {
                assert(s@ =~= dec_seq(n as nat));
            } else if m0 < 10 {
                assert(dec_seq(m0 as nat) =~= seq![digit_char(m0 as nat)]);
                assert(s@ =~= dec_seq(n as nat));
            } else {
                assert(1 <= m0 / 10 && m0 / 10 < m0) by (nonlinear_arith)
                    requires m0 >= 10;
                assert(dec_seq(m0 as nat) =~= dec_seq((m0 / 10) as nat) + seq![digit_char((m0 % 10) as nat)]);
                assert(dec_seq(n as nat) =~= dec_seq(m as nat) + s@);
            }
        }
        if m == 0 {
            break;
        }
    }
    s
}

impl OrcaError {
    /// The diagnostic text of this error: provider-reported messages pass
    /// through verbatim, and a timeout reads `Timeout <n>ms reached!` with
    /// the configured timeout rendered in decimal.
    pub open spec fn message_spec(self) -> Seq<char> {
        match self {
            OrcaError::TransportError(m) => m@,
            OrcaError::ApiError(m) => m@,
            OrcaError::NotFound => "server not found"@,
            OrcaError::TimeoutExceeded { timeout_ms } => "Timeout "@ + dec_seq(
                timeout_ms as nat,
            ) + "ms reached!"@,
        }
    }

    /// Renders this error's diagnostic text.
    pub fn message(&self) -> (s: String)
        ensures
            s@ == self.message_spec(),
    {
        match self {
            OrcaError::TransportError(m) => m.as_str().to_owned(),
            OrcaError::ApiError(m) => m.as_str().to_owned(),
            OrcaError::NotFound => "server not found".to_owned(),
            OrcaError::TimeoutExceeded { timeout_ms } => {
                let head: String = "Timeout ".to_owned();
                let mid = decimal_string(*timeout_ms);
                head.concat(mid.as_str()).concat("ms reached!")
            },
        }
    }
}

} // verus!
