use vstd::prelude::*;
use vstd::string::StrSliceExecFns;
use vstd::string::StringExecFns;
use crate::errors::LauncherError;

verus! {

/// The least index at or after `from` where `c` stands in `s`, or `s.len()`
/// when no such index exists.
pub open spec fn find_char(s: Seq<char>, c: char, from: int) -> int
    decreases s.len() - from,
{
    if from < 0 || from >= s.len() {
        s.len() as int
    } else if s[from] == c {
        from
    } else {
        find_char(s, c, from + 1)
    }
}

/// Index of the first colon of a coordinate, or its length when it has none.
pub open spec fn first_colon(s: Seq<char>) -> int {
    find_char(s, ':', 0)
}

/// Index of the second colon, or the length when there is no second one.
pub open spec fn second_colon(s: Seq<char>) -> int {
    find_char(s, ':', first_colon(s) + 1)
}

/// Index of the third colon, or the length when there is no third one; the
/// third segment of a coordinate ends here, and anything beyond is ignored.
pub open spec fn third_colon(s: Seq<char>) -> int {
    find_char(s, ':', second_colon(s) + 1)
}

/// The group segment: everything before the first colon.
pub open spec fn group_seq(s: Seq<char>) -> Seq<char> {
    s.subrange(0, first_colon(s))
}

/// The artifact segment: everything between the first and second colons.
pub open spec fn artifact_seq(s: Seq<char>) -> Seq<char> {
    s.subrange(first_colon(s) + 1, second_colon(s))
}

/// The version segment: everything between the second colon and the third
/// one or the end.
pub open spec fn version_seq(s: Seq<char>) -> Seq<char> {
    s.subrange(second_colon(s) + 1, third_colon(s))
}

/// A coordinate is valid when it has at least three colon-separated segments
/// and its group, artifact and version segments are all non-empty.
pub open spec fn valid_coordinate(s: Seq<char>) -> bool {
    &&& second_colon(s) < s.len()
    &&& 0 < first_colon(s)
    &&& first_colon(s) + 1 < second_colon(s)
    &&& second_colon(s) + 1 < third_colon(s)
}

/// The group with every dot replaced by a path separator.
pub open spec fn slash_for_dot(g: Seq<char>) -> Seq<char> {
    Seq::new(g.len(), |i: int| if g[i] == '.' { '/' } else { g[i] })
}

/// The cache path a valid coordinate resolves to under the given root:
/// `<root>/<group-as-path>/<artifact>/<version>/<artifact>-<version>.jar`.
pub open spec fn resolved_path_spec(root: Seq<char>, coordinate: Seq<char>) -> Seq<char> {
    root + seq!['/'] + slash_for_dot(group_seq(coordinate)) + seq!['/'] + artifact_seq(coordinate)
        + seq!['/'] + version_seq(coordinate) + seq!['/'] + artifact_seq(coordinate) + seq!['-']
        + version_seq(coordinate) + seq!['.', 'j', 'a', 'r']
}

/// Relies on `String::push`: appends exactly the given character at the end.
#[verifier::external_body]
fn push_char(s: &mut String, c: char)
    ensures
        final(s)@ == old(s)@.push(c),
{
    s.push(c);
}

/// Finds the first occurrence of `c` in `s` at or after `from`, as an index;
/// yields the length when there is none.
fn find_char_at(s: &str, c: char, from: usize) -> (r: usize)
    requires
        from <= s@.len(),
    ensures
        r == find_char(s@, c, from as int),
        from <= r <= s@.len(),
{
    let n: usize = s.unicode_len();
    let mut j: usize = from;
    while j < n
        invariant
            from <= j <= n,
            n == s@.len(),
            find_char(s@, c, from as int) == find_char(s@, c, j as int),
        decreases n - j,
    {
        if s.get_char(j) == c {
            return j;
        }
        j += 1;
    }
    j
}

/// Builds the group-as-path: the group text with every dot replaced by a
/// path separator.
fn group_as_path(group: &str) -> (r: String)
    ensures
        r@ == slash_for_dot(group@),
{
    let n: usize = group.unicode_len();
    let mut out: String = String::new();
    let mut i: usize = 0;
    while i < n
        invariant
            i <= n,
            n == group@.len(),
            out@ == slash_for_dot(group@).subrange(0, i as int),
        decreases n - i,
    {
        let c = group.get_char(i);
        if c == '.' {
            push_char(&mut out, '/');
        } else {
            push_char(&mut out, c);
        }
        proof {
            assert(slash_for_dot(group@).subrange(0, i + 1) =~= slash_for_dot(
                group@,
            ).subrange(0, i as int).push(if group@[i as int] == '.' {
                '/'
            } else {
                group@[i as int]
            }));
        }
        i += 1;
    }
    proof {
        assert(slash_for_dot(group@).subrange(0, n as int) =~= slash_for_dot(group@));
    }
    out
}

/// Resolves a Maven-style `group:artifact:version` coordinate to its
/// deterministic path under the given libraries root:
/// `<root>/<group-as-path>/<artifact>/<version>/<artifact>-<version>.jar`,
/// where the group's dots become path separators.
///
/// Fails with `MalformedCoordinate` — and only then — when the coordinate
/// has fewer than three colon-separated segments or an empty group, artifact
/// or version. No existence check is performed on the resulting path.
pub fn parse_library_name_to_path(libraries_root: &str, mavenized_path: &str) -> (r: Result<
    String,
    LauncherError,
>)
    ensures
        r is Ok <==> valid_coordinate(mavenized_path@),
        r matches Ok(p) ==> p@ == resolved_path_spec(libraries_root@, mavenized_path@),
        r matches Err(e) ==> e == LauncherError::MalformedCoordinate,
{
    let n: usize = mavenized_path.unicode_len();
    let c1: usize = find_char_at(mavenized_path, ':', 0);
    let c2: usize = if c1 < n {
        find_char_at(mavenized_path, ':', c1 + 1)
    } else {
        proof {
            assert(find_char(mavenized_path@, ':', c1 as int + 1) == mavenized_path@.len());
        }
        n
    };
    if c2 >= n {
        return Err(LauncherError::MalformedCoordinate);
    }
    let c3: usize = find_char_at(mavenized_path, ':', c2 + 1);
    if c1 == 0 || c2 == c1 + 1 || c3 == c2 + 1 {
        return Err(LauncherError::MalformedCoordinate);
    }
    let group = mavenized_path.substring_char(0, c1);
    let artifact = mavenized_path.substring_char(c1 + 1, c2);
    let version = mavenized_path.substring_char(c2 + 1, c3);
    let slashed = group_as_path(group);
    let mut out: String = libraries_root.to_owned();
    push_char(&mut out, '/');
    out.append(slashed.as_str());
    push_char(&mut out, '/');
    out.append(artifact);
    push_char(&mut out, '/');
    out.append(version);
    push_char(&mut out, '/');
    out.append(artifact);
    push_char(&mut out, '-');
    out.append(version);
    push_char(&mut out, '.');
    push_char(&mut out, 'j');
    push_char(&mut out, 'a');
    push_char(&mut out, 'r');
    proof {
        assert(out@ =~= resolved_path_spec(libraries_root@, mavenized_path@));
    }
    Ok(out)
}

} // verus!
