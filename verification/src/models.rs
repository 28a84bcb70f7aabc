//! The bodies that the HTTP API reads and writes.

use vstd::prelude::*;
use crate::text::{decimal, decimal_string, views};

verus! {

/// A request to build a source directory into an image and run it.
pub struct DeployRequest {
    pub source: String,
    pub image_name: String,
    pub port: u16,
    pub env: Vec<String>,
    pub pkgs: Vec<String>,
    pub build_cmd: Option<String>,
    pub start_cmd: Option<String>,
}

/// A request to stop a container; `remove` defaults to false.
pub struct StopRequest {
    pub remove: bool,
}

pub struct HealthResponse {
    pub status: &'static str,
    pub version: &'static str,
}

pub struct DeployResponse {
    pub container_id: String,
    pub image: String,
    pub host_port: u16,
    pub message: String,
}

pub struct ContainerInfo {
    pub id: String,
    pub name: String,
    pub image: String,
    pub state: String,
    pub status: String,
}

pub struct StopResponse {
    pub id: String,
    pub message: String,
}

pub struct LogsResponse {
    pub container_id: String,
    pub logs: Vec<String>,
}

pub struct ErrorResponse {
    pub error: String,
}

/// The image name of a deploy request that names none.
pub open spec fn spec_default_image_name() -> Seq<char> {
    "railway-app:latest"@
}

/// The port of a deploy request that names none.
pub open spec fn spec_default_port() -> u16 {
    3000
}

/// The image name that a deploy request without one gets: `railway-app:latest`.
pub fn default_image_name() -> (s: String)
    ensures
        s@ == spec_default_image_name(),
{
    "railway-app:latest".to_string()
}

/// The port that a deploy request without one gets: 3000.
pub fn default_port() -> (p: u16)
    ensures
        p == spec_default_port(),
{
    3000
}

/// The answer to a health probe: status `ok` and the given version.
pub fn health(version: &'static str) -> (r: HealthResponse)
    ensures
        r.status@ == "ok"@,
        r.version == version,
{
    HealthResponse { status: "ok", version }
}

/// The message of a successful stop.
pub open spec fn stopped_message() -> Seq<char> {
    "Container stopped and removed"@
}

/// The answer to a successful stop of container `id`.
pub fn stop_response(id: String) -> (r: StopResponse)
    ensures
        r.id@ == id@,
        r.message@ == stopped_message(),
{
    StopResponse { id, message: "Container stopped and removed".to_string() }
}

/// The answer that carries the log lines read from container `id`.
pub fn logs_response(id: String, lines: Vec<String>) -> (r: LogsResponse)
    ensures
        r.container_id@ == id@,
        views(r.logs@) == views(lines@),
{
    LogsResponse { container_id: id, logs: lines }
}

/// The `tail` option of a log request for `count` lines.
pub fn log_tail_arg(count: u32) -> (s: String)
    ensures
        s@ == decimal(count as nat),
{
    decimal_string(count as u64)
}

} // verus!
