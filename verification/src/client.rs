//! The workload client: how it is reached.
//!
//! The client itself talks to the workload engine, which is outside work.
//! Here it is only made, from the address of the engine's endpoint, and
//! carried along for the caller who performs the requests.

use rs_docker::Docker;
use vstd::prelude::*;

verus! {

/// `rs_docker::Docker`, the workload client. It is made here and handed to
/// the caller; nothing of its inside is known or used.
#[verifier::external_type_specification]
#[verifier::external_body]
pub struct ExDocker(Docker);

/// `std::io::Error`, with which the client refuses an address. Nothing is
/// read out of it.
#[verifier::external_type_specification]
#[verifier::external_body]
pub struct ExIoError(std::io::Error);

/// The text `://` stands in `s` at `i`.
pub open spec fn separator_at(s: Seq<char>, i: int) -> bool {
    0 <= i && i + 3 <= s.len() && s[i] == ':' && s[i + 1] == '/' && s[i + 2] == '/'
}

/// `s` names an endpoint that the workload client can be made for: a
/// protocol, `unix` or `tcp`, then `://`, then a path or a host in which
/// `://` does not occur again.
pub open spec fn is_endpoint(s: Seq<char>) -> bool {
    exists|i: int|
        #[trigger] separator_at(s, i) && (forall|j: int| separator_at(s, j) ==> j == i) && (s.take(
            i,
        ) == seq!['u', 'n', 'i', 'x'] || s.take(i) == seq!['t', 'c', 'p'])
}

/// Makes the client for `endpoint` with `Docker::connect`, which opens no
/// connection yet. It splits the address at every `://` and refuses it
/// unless that leaves exactly two parts, the first of them `unix` or `tcp`.
#[verifier::external_body]
pub(crate) fn connect(endpoint: &str) -> (client: Result<Docker, std::io::Error>)
    ensures
        client is Ok <==> is_endpoint(endpoint@),
{
    Docker::connect(endpoint)
}

} // verus!
