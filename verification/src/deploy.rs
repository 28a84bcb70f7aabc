//! What a deployment builds and runs, from a request or from the command line.

use vstd::prelude::*;
use crate::models::{DeployRequest, DeployResponse};
use crate::nixpacks::{ensure_port_env, opt_view, with_port_env, BuildConfig};
use crate::runner::RunConfig;
use crate::text::{concatenate, decimal, decimal_string, replace_char, replace_char_string, views};

verus! {

/// The name of the container that runs image `image_name`: `railway-` followed by
/// the image name with each `:` made a `-`.
pub open spec fn spec_container_name(image_name: Seq<char>) -> Seq<char> {
    "railway-"@ + replace_char(image_name, ':', '-')
}

/// The port that the application listens on inside its container, as Docker names it.
pub open spec fn spec_container_port(port: u16) -> Seq<char> {
    decimal(port as nat) + "/tcp"@
}

/// The message of a successful deployment.
pub open spec fn deployed_message(port: u16) -> Seq<char> {
    "Container running on port "@ + decimal(port as nat)
}

/// The name of the container that runs image `image_name`.
pub fn container_name(image_name: &str) -> (s: String)
    ensures
        s@ == spec_container_name(image_name@),
{
    concatenate("railway-", replace_char_string(image_name, ':', '-').as_str())
}

/// The container port for application port `port`: `<port>/tcp`.
pub fn container_port(port: u16) -> (s: String)
    ensures
        s@ == spec_container_port(port),
{
    concatenate(decimal_string(port as u64).as_str(), "/tcp")
}

/// The build of a deployment: the given source, image name, packages and
/// commands, with `PORT=<port>` added to the environment unless it sets `PORT`.
pub fn build_config(
    source: String,
    image_name: String,
    env: Vec<String>,
    port: u16,
    pkgs: Vec<String>,
    build_cmd: Option<String>,
    start_cmd: Option<String>,
) -> (cfg: BuildConfig)
    ensures
        cfg.source@ == source@,
        cfg.image_name@ == image_name@,
        views(cfg.env@) == with_port_env(views(env@), port),
        views(cfg.pkgs@) == views(pkgs@),
        opt_view(cfg.build_cmd) == opt_view(build_cmd),
        opt_view(cfg.start_cmd) == opt_view(start_cmd),
{
    BuildConfig {
        source,
        image_name,
        env: ensure_port_env(env, port),
        pkgs,
        build_cmd,
        start_cmd,
    }
}

/// The build that a deploy request asks for.
pub fn deploy_build_config(req: &DeployRequest) -> (cfg: BuildConfig)
    ensures
        cfg.source@ == req.source@,
        cfg.image_name@ == req.image_name@,
        views(cfg.env@) == with_port_env(views(req.env@), req.port),
        views(cfg.pkgs@) == views(req.pkgs@),
        opt_view(cfg.build_cmd) == opt_view(req.build_cmd),
        opt_view(cfg.start_cmd) == opt_view(req.start_cmd),
{
    let env = req.env.clone();
    let pkgs = req.pkgs.clone();
    assert(views(env@) =~= views(req.env@));
    assert(views(pkgs@) =~= views(req.pkgs@));
    build_config(
        req.source.clone(),
        req.image_name.clone(),
        env,
        req.port,
        pkgs,
        req.build_cmd.clone(),
        req.start_cmd.clone(),
    )
}

/// The container that runs `image`, built under the name `image_name`, publishing
/// `port` on the same host port, with the build's environment `env`.
pub fn run_config(image: String, image_name: &str, port: u16, env: Vec<String>) -> (cfg: RunConfig)
    ensures
        cfg.image@ == image@,
        cfg.name@ == spec_container_name(image_name@),
        cfg.container_port@ == spec_container_port(port),
        cfg.host_port == port,
        views(cfg.env@) == views(env@),
{
    RunConfig {
        image,
        name: container_name(image_name),
        container_port: container_port(port),
        host_port: port,
        env,
    }
}

/// The answer to a deployment that started container `id` from `image` on `port`.
pub fn deploy_response(id: String, image: String, port: u16) -> (r: DeployResponse)
    ensures
        r.container_id@ == id@,
        r.image@ == image@,
        r.host_port == port,
        r.message@ == deployed_message(port),
{
    DeployResponse {
        container_id: id,
        image,
        host_port: port,
        message: concatenate("Container running on port ", decimal_string(port as u64).as_str()),
    }
}

} // verus!
