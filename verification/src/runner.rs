//! How a built image is run: the container that is created for it, and the label
//! by which the containers of this tool are found again.

use vstd::prelude::*;
use vstd::string::StringSliceAdditionalSpecFns;
use vstd::utf8::{decode_utf8, encode_utf8, is_char_boundary};
use crate::text::{concatenate, decimal, decimal_string, min_nat, views};

verus! {

/// The label key that marks the containers this tool manages.
pub const LABEL_MANAGED_BY: &'static str = "managed-by";

/// The value of that label.
pub const LABEL_MANAGED_BY_VALUE: &'static str = "railway-rs";

/// What a container is started with.
pub struct RunConfig {
    pub image: String,
    pub name: String,
    pub container_port: String,
    pub host_port: u16,
    pub env: Vec<String>,
}

/// A published port: the container port and where on the host it is bound.
pub struct PortPublication {
    pub container_port: String,
    pub host_ip: String,
    pub host_port: String,
}

/// The container that the Docker daemon is asked to create.
pub struct ContainerSpec {
    pub name: String,
    pub image: String,
    pub env: Vec<String>,
    pub exposed_ports: Vec<String>,
    pub port_bindings: Vec<PortPublication>,
    pub labels: Vec<(String, String)>,
}

/// The address that published ports are bound to: every interface.
pub open spec fn any_host_ip() -> Seq<char> {
    "0.0.0.0"@
}

/// The container for `cfg`: named `cfg.name`, from `cfg.image` with `cfg.env`, exposing
/// `cfg.container_port` and publishing it on `0.0.0.0:<host_port>`, labelled
/// `managed-by=railway-rs`.
pub fn container_spec(cfg: &RunConfig) -> (c: ContainerSpec)
    ensures
        c.name@ == cfg.name@,
        c.image@ == cfg.image@,
        views(c.env@) == views(cfg.env@),
        views(c.exposed_ports@) == seq![cfg.container_port@],
        c.port_bindings@.len() == 1,
        c.port_bindings@[0].container_port@ == cfg.container_port@,
        c.port_bindings@[0].host_ip@ == any_host_ip(),
        c.port_bindings@[0].host_port@ == decimal(cfg.host_port as nat),
        c.labels@.len() == 1,
        c.labels@[0].0@ == LABEL_MANAGED_BY@,
        c.labels@[0].1@ == LABEL_MANAGED_BY_VALUE@,
{
    let mut exposed_ports: Vec<String> = Vec::new();
    exposed_ports.push(cfg.container_port.clone());
    assert(views(exposed_ports@) =~= seq![cfg.container_port@]);
    let mut port_bindings: Vec<PortPublication> = Vec::new();
    port_bindings.push(PortPublication {
        container_port: cfg.container_port.clone(),
        host_ip: "0.0.0.0".to_string(),
        host_port: decimal_string(cfg.host_port as u64),
    });
    let mut labels: Vec<(String, String)> = Vec::new();
    labels.push((LABEL_MANAGED_BY.to_string(), LABEL_MANAGED_BY_VALUE.to_string()));
    let env = cfg.env.clone();
    assert(views(env@) =~= views(cfg.env@));
    ContainerSpec {
        name: cfg.name.clone(),
        image: cfg.image.clone(),
        env,
        exposed_ports,
        port_bindings,
        labels,
    }
}

/// The list filter that selects the containers this tool manages: `managed-by=railway-rs`.
pub open spec fn managed_filter() -> Seq<char> {
    LABEL_MANAGED_BY@ + "="@ + LABEL_MANAGED_BY_VALUE@
}

/// The filters of a container listing: the key `label` with the one value `managed-by=railway-rs`.
pub fn list_filters() -> (f: Vec<(String, Vec<String>)>)
    ensures
        f@.len() == 1,
        f@[0].0@ == "label"@,
        views(f@[0].1@) == seq![managed_filter()],
{
    let filter = concatenate(concatenate(LABEL_MANAGED_BY, "=").as_str(), LABEL_MANAGED_BY_VALUE);
    let mut values: Vec<String> = Vec::new();
    values.push(filter);
    assert(views(values@) =~= seq![managed_filter()]);
    let mut f: Vec<(String, Vec<String>)> = Vec::new();
    f.push(("label".to_string(), values));
    f
}

/// How many bytes of a container id are shown.
pub open spec fn short_id_len() -> nat {
    12
}

/// Where the shown form of a container id ends, in bytes of its UTF-8 encoding:
/// after twelve bytes, or at its end when it is shorter.
pub open spec fn short_id_cut(id: Seq<char>) -> int {
    min_nat(short_id_len(), encode_utf8(id).len()) as int
}

/// Whether a container id can be cut there: the cut falls between two characters
/// (Docker's ids are hexadecimal, so it always does for them), and, as for any text
/// held in memory, its encoding is no longer than `usize::MAX` bytes.
pub open spec fn short_id_fits(id: Seq<char>) -> bool {
    &&& encode_utf8(id).len() <= usize::MAX
    &&& is_char_boundary(encode_utf8(id), short_id_cut(id))
}

/// The shown form of a container id: the characters of its first twelve bytes, or
/// all of it when it is shorter.
pub open spec fn short_id(id: Seq<char>) -> Seq<char> {
    decode_utf8(encode_utf8(id).subrange(0, short_id_cut(id)))
}

/// The shown form of a container id (`&id[..id.len().min(12)]`).
pub fn short_id_string(id: &str) -> (s: String)
    requires
        short_id_fits(id@),
    ensures
        s@ == short_id(id@),
{
    broadcast use vstd::utf8::group_utf8_lib;
    let n = id.len();
    let cut = if n < 12 { n } else { 12 };
    assert(id.spec_bytes() == encode_utf8(id@));
    assert(cut == short_id_cut(id@));
    let (head, _) = id.split_at(cut);
    proof {
        assert(head.spec_bytes() == encode_utf8(head@));
        assert(head@ == decode_utf8(encode_utf8(head@)));
        assert(head@ == short_id(id@));
    }
    head.to_string()
}

} // verus!
