//! Identity of the environment that the process runs in, and the parsing of
//! the raw values it is discovered from.
use vstd::prelude::*;

verus! {

/// Metadata for a container, capturing its id and name.
#[derive(Debug)]
pub struct ContainerMetadata {
    /// Unique identifier of the container
    pub id: String,
    /// Name of the container
    pub name: String,
}

/// Metadata for a compute instance.
#[derive(Debug)]
pub struct InstanceMetadata {
    /// Name of the instance
    pub name: String,
    /// Unique identifier of the instance
    pub id: String,
    /// Zone where the instance is located
    pub zone: String,
    /// Cloud project id
    pub project_id: String,
}

/// The environment metadata attached to every delivered entry.
#[derive(Debug)]
pub struct LogContextMetadata {
    /// Container metadata, when the process runs in a container
    pub container: Option<ContainerMetadata>,
    /// Instance metadata
    pub instance: InstanceMetadata,
}

/// The index where the last `/`-separated segment of `s` starts: just past
/// the last `/`, or 0 when there is none.
pub open spec fn segment_start(s: Seq<char>) -> nat
    decreases s.len(),
{
    if s.len() == 0 {
        0
    } else if s.last() == '/' {
        s.len()
    } else {
        segment_start(s.drop_last())
    }
}

/// The part of `s` after its last `/`; all of `s` when it holds none.
pub open spec fn last_segment(s: Seq<char>) -> Seq<char> {
    s.subrange(segment_start(s) as int, s.len() as int)
}

pub open spec fn contains_slash(s: Seq<char>) -> bool {
    exists|j: int| 0 <= j < s.len() && s[j] == '/'
}

proof fn lemma_segment_start_bounds(s: Seq<char>)
    ensures
        segment_start(s) <= s.len(),
        segment_start(s) > 0 <==> contains_slash(s),
        segment_start(s) > 0 ==> s[segment_start(s) - 1] == '/',
    decreases s.len(),
{
    if s.len() > 0 {
        if s.last() == '/' {
            assert(s[s.len() - 1] == '/');
        } else {
            let t = s.drop_last();
            lemma_segment_start_bounds(t);
            if contains_slash(s) {
                let j = choose|j: int| 0 <= j < s.len() && s[j] == '/';
                assert(t[j] == '/');
            }
            if contains_slash(t) {
                let j = choose|j: int| 0 <= j < t.len() && t[j] == '/';
                assert(s[j] == '/');
            }
        }
    }
}

/// Finds where the last segment of `s` starts.
fn find_segment_start(s: &str) -> (r: usize)
    ensures
        r == segment_start(s@),
{
    let n = s.unicode_len();
    let mut i: usize = n;
    assert(s@.subrange(0, n as int) =~= s@);
    while i > 0 && s.get_char(i - 1) != '/'
        invariant
            i <= n,
            n == s@.len(),
            segment_start(s@) == segment_start(s@.subrange(0, i as int)),
        decreases i,
    {
        assert(s@.subrange(0, i as int).drop_last() =~= s@.subrange(0, i - 1));
        i = i - 1;
    }
    if i == 0 {
        assert(s@.subrange(0, 0).len() == 0);
    }
    i
}

/// The last `/`-separated segment of `path` (a zone reads as
/// `projects/<n>/zones/<zone>`).
pub fn zone_from_path(path: &str) -> (r: String)
    ensures
        r@ == last_segment(path@),
{
    proof {
        lemma_segment_start_bounds(path@);
    }
    let start = find_segment_start(path);
    let n = path.unicode_len();
    String::from_str(path.substring_char(start, n))
}

/// The id that a line of the cgroup file gives: its last segment, where the
/// line holds a `/`.
pub open spec fn line_id(line: Seq<char>) -> Option<Seq<char>> {
    if contains_slash(line) {
        Some(last_segment(line))
    } else {
        None
    }
}

/// A line without the `\r` of a `\r\n` ending.
pub open spec fn strip_cr(line: Seq<char>) -> Seq<char> {
    if line.len() > 0 && line.last() == '\r' {
        line.drop_last()
    } else {
        line
    }
}

/// Reads `rest` character by character, `line` holding what the current line
/// has so far, and yields the id of the first line that has one.
pub open spec fn scan_lines(line: Seq<char>, rest: Seq<char>) -> Option<Seq<char>>
    decreases rest.len(),
{
    if rest.len() == 0 {
        line_id(line)
    } else if rest[0] == '\n' {
        if contains_slash(strip_cr(line)) {
            line_id(strip_cr(line))
        } else {
            scan_lines(Seq::empty(), rest.drop_first())
        }
    } else {
        scan_lines(line.push(rest[0]), rest.drop_first())
    }
}

/// The container id that the text of a cgroup file gives: the last segment of
/// its first line that holds a `/`, if any line does.
pub open spec fn cgroup_container_id(text: Seq<char>) -> Option<Seq<char>> {
    scan_lines(Seq::empty(), text)
}

pub open spec fn opt_view(o: Option<String>) -> Option<Seq<char>> {
    match o {
        Some(v) => Some(v@),
        None => None,
    }
}

fn line_container_id(line: &str) -> (r: Option<String>)
    ensures
        opt_view(r) == line_id(line@),
{
    proof {
        lemma_segment_start_bounds(line@);
    }
    let start = find_segment_start(line);
    if start > 0 {
        let n = line.unicode_len();
        Some(String::from_str(line.substring_char(start, n)))
    } else {
        None
    }
}

/// Derives the container id from the text of the process's cgroup file.
pub fn container_id_from_cgroup(text: &str) -> (r: Option<String>)
    ensures
        opt_view(r) == cgroup_container_id(text@),
{
    let n = text.unicode_len();
    let mut ls: usize = 0;
    let mut i: usize = 0;
    assert(text@.subrange(0, n as int) =~= text@);
    assert(text@.subrange(0, 0) =~= Seq::<char>::empty());
    while i < n
        invariant
            ls <= i <= n,
            n == text@.len(),
            cgroup_container_id(text@) == scan_lines(
                text@.subrange(ls as int, i as int),
                text@.subrange(i as int, n as int),
            ),
        decreases n - i,
    {
        let c = text.get_char(i);
        let ghost line = text@.subrange(ls as int, i as int);
        let ghost rest = text@.subrange(i as int, n as int);
        assert(rest[0] == c);
        assert(rest.drop_first() =~= text@.subrange(i + 1, n as int));
        if c == '\n' {
            let raw = text.substring_char(ls, i);
            let mut end: usize = i - ls;
            if end > 0 && raw.get_char(end - 1) == '\r' {
                end = end - 1;
            }
            let stripped = raw.substring_char(0, end);
            assert(stripped@ =~= strip_cr(line));
            let found = line_container_id(stripped);
            if found.is_some() {
                return found;
            }
            ls = i + 1;
            assert(text@.subrange(ls as int, ls as int) =~= Seq::<char>::empty());
        } else {
            assert(line.push(c) =~= text@.subrange(ls as int, i + 1));
        }
        i = i + 1;
    }
    assert(text@.subrange(n as int, n as int).len() == 0);
    let last = text.substring_char(ls, n);
    line_container_id(last)
}

/// A discovered value, or the empty string where discovery failed.
pub open spec fn or_empty(o: Option<String>) -> Seq<char> {
    match o {
        Some(v) => v@,
        None => Seq::empty(),
    }
}

/// The container name: the host name where it is set, else `unknown`.
pub open spec fn container_name(hostname: Option<String>) -> Seq<char> {
    match hostname {
        Some(h) => h@,
        None => "unknown"@,
    }
}

fn string_or_empty(o: Option<String>) -> (r: String)
    ensures
        r@ == or_empty(o),
{
    match o {
        Some(v) => v,
        None => String::new(),
    }
}

/// Puts together the metadata from the raw values that discovery found: the
/// container id from the cgroup file, the host name, and the instance name,
/// id and zone path from the metadata service. A value that was not found
/// becomes the empty string; the zone is the last segment of its path.
pub fn assemble_metadata(
    project_id: String,
    container_id: Option<String>,
    hostname: Option<String>,
    instance_name: Option<String>,
    instance_id: Option<String>,
    zone_path: Option<String>,
) -> (r: LogContextMetadata)
    ensures
        r.instance.project_id@ == project_id@,
        r.instance.name@ == or_empty(instance_name),
        r.instance.id@ == or_empty(instance_id),
        r.instance.zone@ == last_segment(or_empty(zone_path)),
        r.container is Some <==> container_id is Some,
        r.container is Some ==> r.container->0.id@ == container_id->0@
            && r.container->0.name@ == container_name(hostname),
{
    let container = match container_id {
        Some(id) => {
            let name = match hostname {
                Some(h) => h,
                None => String::from_str("unknown"),
            };
            Some(ContainerMetadata { id, name })
        },
        None => None,
    };
    let path = string_or_empty(zone_path);
    let zone = zone_from_path(path.as_str());
    LogContextMetadata {
        container,
        instance: InstanceMetadata {
            name: string_or_empty(instance_name),
            id: string_or_empty(instance_id),
            zone,
            project_id,
        },
    }
}

/// The metadata used when discovery fails as a whole: no container, the
/// instance named `unknown` with id `0` and an empty zone, in the given
/// project.
pub fn fallback_metadata(project_id: String) -> (r: LogContextMetadata)
    ensures
        r.container is None,
        r.instance.name@ == "unknown"@,
        r.instance.id@ == "0"@,
        r.instance.zone@ == Seq::<char>::empty(),
        r.instance.project_id@ == project_id@,
{
    LogContextMetadata {
        container: None,
        instance: InstanceMetadata {
            name: String::from_str("unknown"),
            id: String::from_str("0"),
            zone: String::new(),
            project_id,
        },
    }
}

} // verus!
