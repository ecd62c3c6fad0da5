//! Lines printed for runtime responses.
//!
//! Every line the program writes for a successful runtime response is built
//! here, with a specification that pins the exact text.

use vstd::prelude::*;
use vstd::string::StringExecFns;

verus! {

/// What the runtime reports for one container: identifier, image reference
/// and status text, displayed verbatim.
pub struct ContainerSummary {
    pub id: String,
    pub image: String,
    pub status: String,
}

/// The line printed for one container in a listing.
pub open spec fn container_line_spec(c: ContainerSummary) -> Seq<char> {
    "ID: "@ + c.id@ + ", Image: "@ + c.image@ + ", Status: "@ + c.status@
}

/// The line printed for one progress event while pulling an image.
pub open spec fn pull_status_line_spec(status: Seq<char>) -> Seq<char> {
    "Pull status: "@ + status
}

/// The line printed once a pull's progress sequence has ended.
pub open spec fn pull_finished_line_spec(image: Seq<char>) -> Seq<char> {
    "Finished pulling image: "@ + image
}

/// The line printed after the runtime has created a container.
pub open spec fn created_line_spec(id: Seq<char>) -> Seq<char> {
    "Created container with ID: "@ + id
}

/// The line printed after the runtime has started the created container.
pub open spec fn started_line_spec() -> Seq<char> {
    "Container started successfully!"@
}

/// The line printed after the runtime has stopped a container.
pub open spec fn stopped_line_spec(id: Seq<char>) -> Seq<char> {
    "Stopped container: "@ + id
}

/// The line printed for one chunk of a container's log stream.
pub open spec fn log_line_spec(chunk: Seq<char>) -> Seq<char> {
    "log "@ + chunk
}

/// The notice printed when an exec session runs detached.
pub open spec fn detached_line_spec() -> Seq<char> {
    "Command executed in detached mode"@
}

pub fn container_line(c: &ContainerSummary) -> (r: String)
    ensures
        r@ == container_line_spec(*c),
{
    "ID: ".to_owned()
        .concat(c.id.as_str())
        .concat(", Image: ")
        .concat(c.image.as_str())
        .concat(", Status: ")
        .concat(c.status.as_str())
}

/// One line per container, in the order the runtime returned them.
pub fn container_lines(containers: &Vec<ContainerSummary>) -> (lines: Vec<String>)
    ensures
        lines.deep_view() == containers@.map_values(|c: ContainerSummary| container_line_spec(c)),
{
    let mut lines: Vec<String> = Vec::new();
    let mut i: usize = 0;
    while i < containers.len()
        invariant
            i <= containers.len(),
            lines.deep_view() == containers@.take(i as int).map_values(
                |c: ContainerSummary| container_line_spec(c),
            ),
        decreases containers.len() - i,
    {
        let line = container_line(&containers[i]);
        lines.push(line);
        i = i + 1;
        proof {
            let f = |c: ContainerSummary| container_line_spec(c);
            containers@.lemma_map_take_succ(f, i as int - 1);
            assert(lines.deep_view() =~= containers@.take(i as int).map_values(f));
        }
    }
    proof {
        let f = |c: ContainerSummary| container_line_spec(c);
        assert(containers@.take(containers@.len() as int) =~= containers@);
        assert(lines.deep_view() == containers@.map_values(f));
    }
    lines
}

pub fn pull_status_line(status: &str) -> (r: String)
    ensures
        r@ == pull_status_line_spec(status@),
{
    "Pull status: ".to_owned().concat(status)
}

pub fn pull_finished_line(image: &str) -> (r: String)
    ensures
        r@ == pull_finished_line_spec(image@),
{
    "Finished pulling image: ".to_owned().concat(image)
}

pub fn created_line(id: &str) -> (r: String)
    ensures
        r@ == created_line_spec(id@),
{
    "Created container with ID: ".to_owned().concat(id)
}

pub fn started_line() -> (r: String)
    ensures
        r@ == started_line_spec(),
{
    "Container started successfully!".to_owned()
}

pub fn stopped_line(id: &str) -> (r: String)
    ensures
        r@ == stopped_line_spec(id@),
{
    "Stopped container: ".to_owned().concat(id)
}

pub fn log_line(chunk: &str) -> (r: String)
    ensures
        r@ == log_line_spec(chunk@),
{
    "log ".to_owned().concat(chunk)
}

pub fn detached_line() -> (r: String)
    ensures
        r@ == detached_line_spec(),
{
    "Command executed in detached mode".to_owned()
}

} // verus!
