//! The two commands of the mobile shell, which talks to a backend that runs
//! elsewhere.

use vstd::prelude::*;
use vstd::string::*;
use crate::probe::{is_success_status, status_is_success};
use crate::text::concat2;

verus! {

/// The address of the list of clusters of a backend.
pub open spec fn spec_clusters_url(backend_url: Seq<char>) -> Seq<char> {
    backend_url + "/api/v1/clusters"@
}

/// The address that a connection test asks.
pub fn clusters_url(backend_url: &str) -> (res: String)
    ensures
        res@ == spec_clusters_url(backend_url@),
{
    concat2(backend_url, "/api/v1/clusters")
}

/// The address of the topology of a cluster.
pub open spec fn spec_topology_url(backend_url: Seq<char>, cluster_id: Seq<char>) -> Seq<char> {
    backend_url + "/api/v1/clusters/"@ + cluster_id + "/topology"@
}

/// The address that the topology of the cluster `cluster_id` is read from.
pub fn topology_url(backend_url: &str, cluster_id: &str) -> (res: String)
    ensures
        res@ == spec_topology_url(backend_url@, cluster_id@),
{
    let mut url = String::from_str(backend_url);
    url.append("/api/v1/clusters/");
    url.append(cluster_id);
    url.append("/topology");
    url
}

/// What a connection test answers.
pub open spec fn spec_connect_to_cluster(response: Result<u16, Seq<char>>) -> Result<
    Seq<char>,
    Seq<char>,
> {
    match response {
        Ok(status) => if is_success_status(status) {
            Ok("Connected"@)
        } else {
            Err("Connection failed"@)
        },
        Err(error) => Err("Connection failed: "@ + error),
    }
}

/// Judges a connection test. `response` is the status of the answer, or the
/// description of why no answer came.
pub fn connect_to_cluster(response: Result<u16, String>) -> (res: Result<String, String>)
    ensures
        match res {
            Ok(text) => spec_connect_to_cluster(
                match response {
                    Ok(status) => Ok(status),
                    Err(error) => Err(error@),
                },
            ) == Ok::<Seq<char>, Seq<char>>(text@),
            Err(message) => spec_connect_to_cluster(
                match response {
                    Ok(status) => Ok(status),
                    Err(error) => Err(error@),
                },
            ) == Err::<Seq<char>, Seq<char>>(message@),
        },
{
    match response {
        Ok(status) => if status_is_success(status) {
            Ok(String::from_str("Connected"))
        } else {
            Err(String::from_str("Connection failed"))
        },
        Err(error) => Err(concat2("Connection failed: ", error.as_str())),
    }
}

/// What a request for a topology brought: no answer, an answer whose body
/// could not be read, or the body.
#[derive(Debug, PartialEq, Eq)]
pub enum TopologyResponse {
    RequestFailed { error: String },
    BodyUnreadable { error: String },
    Body { text: String },
}

/// What a request for a topology answers.
pub open spec fn spec_get_topology(response: TopologyResponse) -> Result<Seq<char>, Seq<char>> {
    match response {
        TopologyResponse::RequestFailed { error } => Err("Request failed: "@ + error@),
        TopologyResponse::BodyUnreadable { error } => Err("Failed to read response: "@ + error@),
        TopologyResponse::Body { text } => Ok(text@),
    }
}

/// Hands on the topology that the backend sent, or says what went wrong.
pub fn get_topology(response: TopologyResponse) -> (res: Result<String, String>)
    ensures
        match res {
            Ok(text) => spec_get_topology(response) == Ok::<Seq<char>, Seq<char>>(text@),
            Err(message) => spec_get_topology(response) == Err::<Seq<char>, Seq<char>>(message@),
        },
{
    match response {
        TopologyResponse::RequestFailed { error } => Err(
            concat2("Request failed: ", error.as_str()),
        ),
        TopologyResponse::BodyUnreadable { error } => Err(
            concat2("Failed to read response: ", error.as_str()),
        ),
        TopologyResponse::Body { text } => Ok(text),
    }
}

} // verus!
