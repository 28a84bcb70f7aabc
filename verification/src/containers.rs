//! What is shown of a container: the fields read from the Docker daemon, the
//! answers of the API and the reports of the command line.

use vstd::prelude::*;
use crate::models::ContainerInfo;
use crate::runner::{short_id, short_id_fits, short_id_string};
use crate::text::{
    concatenate, join, join_strings, pad_right, pad_right_string, strip_leading, trim_start_char, views,
};

verus! {

/// The fields of a container listing entry that are shown.
pub struct ContainerSummary {
    pub id: Option<String>,
    pub names: Option<Vec<String>>,
    pub image: Option<String>,
    pub state: Option<String>,
    pub status: Option<String>,
}

/// A host address and port that a container port is bound to.
pub struct HostBinding {
    pub host_ip: Option<String>,
    pub host_port: Option<String>,
}

/// A container port and its host bindings.
pub struct PortEntry {
    pub port: String,
    pub bindings: Option<Vec<HostBinding>>,
}

/// The fields of a container inspection that are shown.
pub struct ContainerDetails {
    pub id: Option<String>,
    pub name: Option<String>,
    pub image: Option<String>,
    pub status: Option<String>,
    pub started_at: Option<String>,
    pub ports: Option<Vec<PortEntry>>,
}

/// An optional string, or the empty string.
pub open spec fn or_empty(o: Option<String>) -> Seq<char> {
    match o {
        Some(s) => s@,
        None => Seq::empty(),
    }
}

/// An optional string, or `default`.
pub open spec fn or_default(o: Option<String>, default: Seq<char>) -> Seq<char> {
    match o {
        Some(s) => s@,
        None => default,
    }
}

/// The first of the names, or the empty string.
pub open spec fn first_name(names: Option<Vec<String>>) -> Seq<char> {
    match names {
        Some(n) => if n@.len() > 0 { n@[0]@ } else { Seq::empty() },
        None => Seq::empty(),
    }
}

/// The shown name of a container: Docker's name without its leading slashes.
pub open spec fn shown_name(name: Seq<char>) -> Seq<char> {
    strip_leading(name, '/')
}

fn text_or_empty(o: &Option<String>) -> (s: String)
    ensures
        s@ == or_empty(*o),
{
    match o {
        Some(s) => s.clone(),
        None => String::new(),
    }
}

fn text_or(o: &Option<String>, default: &str) -> (s: String)
    ensures
        s@ == or_default(*o, default@),
{
    match o {
        Some(s) => s.clone(),
        None => default.to_string(),
    }
}

/// The shown fields of a listed container.
pub fn container_info_from_summary(s: &ContainerSummary) -> (c: ContainerInfo)
    ensures
        c.id@ == or_empty(s.id),
        c.name@ == shown_name(first_name(s.names)),
        c.image@ == or_empty(s.image),
        c.state@ == or_empty(s.state),
        c.status@ == or_empty(s.status),
{
    let first = match &s.names {
        Some(n) => if n.len() > 0 { n[0].clone() } else { String::new() },
        None => String::new(),
    };
    ContainerInfo {
        id: text_or_empty(&s.id),
        name: trim_start_char(first.as_str(), '/'),
        image: text_or_empty(&s.image),
        state: text_or_empty(&s.state),
        status: text_or_empty(&s.status),
    }
}

/// The shown fields of every listed container, in the order listed.
pub fn container_infos(list: &Vec<ContainerSummary>) -> (r: Vec<ContainerInfo>)
    ensures
        r@.len() == list@.len(),
        forall|i: int|
            0 <= i < list@.len() ==> {
                &&& (#[trigger] r@[i]).id@ == or_empty(list@[i].id)
                &&& r@[i].name@ == shown_name(first_name(list@[i].names))
                &&& r@[i].image@ == or_empty(list@[i].image)
                &&& r@[i].state@ == or_empty(list@[i].state)
                &&& r@[i].status@ == or_empty(list@[i].status)
            },
{
    let mut r: Vec<ContainerInfo> = Vec::new();
    let n = list.len();
    let mut i: usize = 0;
    while i < n
        invariant
            i <= n,
            n == list@.len(),
            r@.len() == i,
            forall|j: int|
                0 <= j < i ==> {
                    &&& (#[trigger] r@[j]).id@ == or_empty(list@[j].id)
                    &&& r@[j].name@ == shown_name(first_name(list@[j].names))
                    &&& r@[j].image@ == or_empty(list@[j].image)
                    &&& r@[j].state@ == or_empty(list@[j].state)
                    &&& r@[j].status@ == or_empty(list@[j].status)
                },
        decreases n - i,
    {
        r.push(container_info_from_summary(&list[i]));
        i += 1;
    }
    r
}

/// The shown fields of an inspected container; its state and status are both the
/// state's status.
pub fn container_info_from_details(d: &ContainerDetails) -> (c: ContainerInfo)
    ensures
        c.id@ == or_empty(d.id),
        c.name@ == shown_name(or_empty(d.name)),
        c.image@ == or_empty(d.image),
        c.state@ == or_empty(d.status),
        c.status@ == or_empty(d.status),
{
    let name = text_or_empty(&d.name);
    ContainerInfo {
        id: text_or_empty(&d.id),
        name: trim_start_char(name.as_str(), '/'),
        image: text_or_empty(&d.image),
        state: text_or_empty(&d.status),
        status: text_or_empty(&d.status),
    }
}

/// One line of the container table: five columns padded to 14, 30, 25 and 12
/// characters, separated by single spaces.
pub open spec fn table_line(
    id: Seq<char>,
    name: Seq<char>,
    image: Seq<char>,
    state: Seq<char>,
    status: Seq<char>,
) -> Seq<char> {
    pad_right(id, 14) + " "@ + pad_right(name, 30) + " "@ + pad_right(image, 25) + " "@
        + pad_right(state, 12) + " "@ + status
}

/// The heading of the container table.
pub open spec fn table_header() -> Seq<char> {
    table_line("CONTAINER ID"@, "NAME"@, "IMAGE"@, "STATE"@, "STATUS"@)
}

/// The table line of a container, with its id shortened.
pub open spec fn table_row(c: ContainerInfo) -> Seq<char> {
    table_line(short_id(c.id@), c.name@, c.image@, c.state@, c.status@)
}

/// The text that says that no container is managed.
pub open spec fn no_containers() -> Seq<char> {
    "No containers found."@
}

/// The container table: its heading, then one line per container; or a single
/// line saying there are none.
pub open spec fn table_report(cs: Seq<ContainerInfo>) -> Seq<Seq<char>> {
    if cs.len() == 0 {
        seq![no_containers()]
    } else {
        seq![table_header()] + cs.map_values(|c: ContainerInfo| table_row(c))
    }
}

fn table_line_string(id: &str, name: &str, image: &str, state: &str, status: &str) -> (s: String)
    ensures
        s@ == table_line(id@, name@, image@, state@, status@),
{
    let mut s = pad_right_string(id, 14);
    s.append(" ");
    s.append(pad_right_string(name, 30).as_str());
    s.append(" ");
    s.append(pad_right_string(image, 25).as_str());
    s.append(" ");
    s.append(pad_right_string(state, 12).as_str());
    s.append(" ");
    s.append(status);
    s
}

/// The lines of the container table for `cs`.
pub fn table_lines(cs: &Vec<ContainerInfo>) -> (lines: Vec<String>)
    requires
        forall|i: int| 0 <= i < cs@.len() ==> short_id_fits(#[trigger] cs@[i].id@),
    ensures
        views(lines@) == table_report(cs@),
{
    let mut lines: Vec<String> = Vec::new();
    if cs.len() == 0 {
        lines.push("No containers found.".to_string());
        assert(views(lines@) =~= seq![no_containers()]);
        return lines;
    }
    lines.push(table_line_string("CONTAINER ID", "NAME", "IMAGE", "STATE", "STATUS"));
    let n = cs.len();
    let mut i: usize = 0;
    while i < n
        invariant
            i <= n,
            n == cs@.len(),
            forall|k: int| 0 <= k < cs@.len() ==> short_id_fits(#[trigger] cs@[k].id@),
            views(lines@) == seq![table_header()] + cs@.subrange(0, i as int).map_values(
                |c: ContainerInfo| table_row(c),
            ),
        decreases n - i,
    {
        let c = &cs[i];
        let id = short_id_string(c.id.as_str());
        let line = table_line_string(id.as_str(), c.name.as_str(), c.image.as_str(), c.state.as_str(), c.status.as_str());
        let ghost before = lines@;
        lines.push(line);
        assert(cs@.subrange(0, i + 1).map_values(|c: ContainerInfo| table_row(c)) =~= cs@.subrange(
            0,
            i as int,
        ).map_values(|c: ContainerInfo| table_row(c)).push(table_row(cs@[i as int])));
        assert(views(lines@) =~= views(before).push(line@));
        i += 1;
    }
    assert(cs@.subrange(0, n as int) =~= cs@);
    lines
}

/// How one host binding is shown: `<ip>:<port>`, with `0.0.0.0` and `?` for what is missing.
pub open spec fn binding_text(b: HostBinding) -> Seq<char> {
    or_default(b.host_ip, "0.0.0.0"@) + ":"@ + or_default(b.host_port, "?"@)
}

/// How the bindings of a port are shown: comma-separated, or nothing.
pub open spec fn bindings_text(bs: Option<Vec<HostBinding>>) -> Seq<char> {
    match bs {
        Some(v) => join(v@.map_values(|b: HostBinding| binding_text(b)), ", "@),
        None => Seq::empty(),
    }
}

/// How a published port is shown: `<port> → <bindings>`.
pub open spec fn port_text(p: PortEntry) -> Seq<char> {
    p.port@ + " \u{2192} "@ + bindings_text(p.bindings)
}

/// The separator between the shown ports: a new line, indented under the first.
pub open spec fn ports_separator() -> Seq<char> {
    "\n         "@
}

/// How the ports of a container are shown: one per line, or `none`.
pub open spec fn ports_text(ports: Option<Vec<PortEntry>>) -> Seq<char> {
    match ports {
        Some(v) => join(v@.map_values(|p: PortEntry| port_text(p)), ports_separator()),
        None => "none"@,
    }
}

fn bindings_string(bs: &Option<Vec<HostBinding>>) -> (s: String)
    ensures
        s@ == bindings_text(*bs),
{
    match bs {
        None => String::new(),
        Some(v) => {
            let mut parts: Vec<String> = Vec::new();
            let n = v.len();
            let mut i: usize = 0;
            while i < n
                invariant
                    i <= n,
                    n == v@.len(),
                    views(parts@) == v@.subrange(0, i as int).map_values(|b: HostBinding| binding_text(b)),
                decreases n - i,
            {
                let b = &v[i];
                let mut t = text_or(&b.host_ip, "0.0.0.0");
                t.append(":");
                t.append(text_or(&b.host_port, "?").as_str());
                let ghost before = parts@;
                parts.push(t);
                assert(v@.subrange(0, i + 1).map_values(|b: HostBinding| binding_text(b)) =~= v@.subrange(
                    0,
                    i as int,
                ).map_values(|b: HostBinding| binding_text(b)).push(binding_text(v@[i as int])));
                assert(views(parts@) =~= views(before).push(t@));
                i += 1;
            }
            assert(v@.subrange(0, n as int) =~= v@);
            join_strings(&parts, ", ")
        },
    }
}

/// How the ports of a container are shown.
pub fn ports_string(ports: &Option<Vec<PortEntry>>) -> (s: String)
    ensures
        s@ == ports_text(*ports),
{
    match ports {
        None => "none".to_string(),
        Some(v) => {
            let mut parts: Vec<String> = Vec::new();
            let n = v.len();
            let mut i: usize = 0;
            while i < n
                invariant
                    i <= n,
                    n == v@.len(),
                    views(parts@) == v@.subrange(0, i as int).map_values(|p: PortEntry| port_text(p)),
                decreases n - i,
            {
                let p = &v[i];
                let mut t = concatenate(p.port.as_str(), " \u{2192} ");
                t.append(bindings_string(&p.bindings).as_str());
                let ghost before = parts@;
                parts.push(t);
                assert(v@.subrange(0, i + 1).map_values(|p: PortEntry| port_text(p)) =~= v@.subrange(
                    0,
                    i as int,
                ).map_values(|p: PortEntry| port_text(p)).push(port_text(v@[i as int])));
                assert(views(parts@) =~= views(before).push(t@));
                i += 1;
            }
            assert(v@.subrange(0, n as int) =~= v@);
            join_strings(&parts, "\n         ")
        },
    }
}

/// The report on one inspected container: its id, name, image, state, start time
/// and ports, one labelled line each.
pub open spec fn inspect_report(d: ContainerDetails) -> Seq<Seq<char>> {
    seq![
        "ID:      "@ + or_empty(d.id),
        "Name:    "@ + shown_name(or_empty(d.name)),
        "Image:   "@ + or_empty(d.image),
        "State:   "@ + or_empty(d.status),
        "Started: "@ + or_empty(d.started_at),
        "Ports:   "@ + ports_text(d.ports),
    ]
}

/// The lines of the report on one inspected container.
pub fn inspect_lines(d: &ContainerDetails) -> (lines: Vec<String>)
    ensures
        views(lines@) == inspect_report(*d),
{
    let name = text_or_empty(&d.name);
    let mut lines: Vec<String> = Vec::new();
    lines.push(concatenate("ID:      ", text_or_empty(&d.id).as_str()));
    lines.push(concatenate("Name:    ", trim_start_char(name.as_str(), '/').as_str()));
    lines.push(concatenate("Image:   ", text_or_empty(&d.image).as_str()));
    lines.push(concatenate("State:   ", text_or_empty(&d.status).as_str()));
    lines.push(concatenate("Started: ", text_or_empty(&d.started_at).as_str()));
    lines.push(concatenate("Ports:   ", ports_string(&d.ports).as_str()));
    assert(views(lines@) =~= inspect_report(*d));
    lines
}

} // verus!
