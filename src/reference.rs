use vstd::prelude::*;

use crate::error::PluginError;
use crate::text::owned;

verus! {

/// The host of the supported hosting service.
pub open spec fn supported_host() -> Seq<char> {
    "github.com"@
}

/// A repository on the hosting service.
#[derive(Debug)]
pub struct RepositoryReference {
    pub host: String,
    pub owner: String,
    pub name: String,
}

/// A path segment: non-empty and free of `/`.
pub open spec fn is_segment(s: Seq<char>) -> bool {
    s.len() > 0 && forall|i: int| 0 <= i < s.len() ==> s[i] != '/'
}

/// The path `/owner/name`.
pub open spec fn repository_path(owner: Seq<char>, name: Seq<char>) -> Seq<char> {
    seq!['/'] + owner + seq!['/'] + name
}

/// `path` is `/owner/name` or `/owner/name/`, with two proper segments.
pub open spec fn names_repository(path: Seq<char>, owner: Seq<char>, name: Seq<char>) -> bool {
    &&& is_segment(owner)
    &&& is_segment(name)
    &&& (path == repository_path(owner, name) || path == repository_path(owner, name).push('/'))
}

/// Where a repository path ends once an optional trailing `/` is dropped.
pub open spec fn path_end(path: Seq<char>) -> int {
    if path.len() > 1 && path.last() == '/' {
        path.len() - 1
    } else {
        path.len() as int
    }
}

/// The slashes of a repository path: one in front, one between owner and
/// name, and perhaps one at the end.
proof fn lemma_repository_path_shape(path: Seq<char>, owner: Seq<char>, name: Seq<char>)
    requires
        names_repository(path, owner, name),
    ensures
        path[0] == '/',
        path_end(path) == 2 + owner.len() + name.len(),
        path[1 + owner.len() as int] == '/',
        forall|k: int|
            1 <= k < path_end(path) && k != 1 + owner.len() ==> #[trigger] path[k] != '/',
        path.subrange(1, 1 + owner.len() as int) == owner,
        path.subrange(2 + owner.len() as int, path_end(path)) == name,
{
    let base = repository_path(owner, name);
    assert(base.len() == 2 + owner.len() + name.len());
    assert(base[0] == '/');
    assert(base[1 + owner.len() as int] == '/');
    assert(base.last() == name.last());
    assert forall|k: int| 1 <= k < base.len() && k != 1 + owner.len() implies base[k] != '/' by {
        if k < 1 + owner.len() {
            assert(base[k] == owner[k - 1]);
        } else {
            assert(base[k] == name[k - 2 - owner.len()]);
        }
    }
    if path != base {
        assert(path == base.push('/'));
        assert(path.last() == '/');
        assert forall|k: int| 0 <= k < base.len() implies path[k] == base[k] by {}
    }
    assert(path.subrange(1, 1 + owner.len() as int) =~= owner);
    assert(path.subrange(2 + owner.len() as int, path_end(path)) =~= name);
}

/// Splits a URL path of the form `/owner/name` (a trailing `/` allowed)
/// into owner and name; `None` for any other shape.
pub fn parse_repository_path(path: &str) -> (r: Option<(String, String)>)
    ensures
        match r {
            Some((owner, name)) => names_repository(path@, owner@, name@),
            None => forall|o: Seq<char>, n: Seq<char>| !names_repository(path@, o, n),
        },
{
    let len = path.unicode_len();
    if len == 0 || path.get_char(0) != '/' {
        assert forall|o: Seq<char>, n: Seq<char>| !names_repository(path@, o, n) by {
            if names_repository(path@, o, n) {
                lemma_repository_path_shape(path@, o, n);
            }
        }
        return None;
    }
    let end: usize = if len > 1 && path.get_char(len - 1) == '/' { len - 1 } else { len };
    assert(end == path_end(path@));
    let mut mid: usize = 0;
    let mut i: usize = 1;
    while i < end
        invariant
            1 <= i <= end <= len,
            len == path@.len(),
            end == path_end(path@),
            mid == 0 ==> forall|k: int| 1 <= k < i ==> path@[k] != '/',
            mid != 0 ==> 1 <= mid < i && path@[mid as int] == '/',
            mid != 0 ==> forall|k: int| 1 <= k < i && k != mid ==> path@[k] != '/',
        decreases end - i,
    {
        if path.get_char(i) == '/' {
            if mid != 0 {
                assert forall|o: Seq<char>, n: Seq<char>| !names_repository(path@, o, n) by {
                    if names_repository(path@, o, n) {
                        lemma_repository_path_shape(path@, o, n);
                        assert(path@[i as int] == '/');
                    }
                }
                return None;
            }
            mid = i;
        }
        i = i + 1;
    }
    if mid <= 1 || mid + 1 >= end {
        assert forall|o: Seq<char>, n: Seq<char>| !names_repository(path@, o, n) by {
            if names_repository(path@, o, n) {
                lemma_repository_path_shape(path@, o, n);
                assert(path@[1 + o.len() as int] == '/');
            }
        }
        return None;
    }
    let owner = path.substring_char(1, mid);
    let name = path.substring_char(mid + 1, end);
    let owner = owned(owner);
    let name = owned(name);
    proof {
        let p = path@;
        let base = repository_path(owner@, name@);
        assert(base =~= p.subrange(0, end as int));
        if end < len {
            assert(p =~= base.push('/'));
        } else {
            assert(p =~= base);
        }
    }
    Some((owner, name))
}

/// The host (if any) and the path of a text parsed as a URL; `None` where
/// it is no URL.
pub uninterp spec fn url_host_and_path(s: Seq<char>) -> Option<(Option<Seq<char>>, Seq<char>)>;

/// Relies on url::Url::parse, Url::host_str and Url::path to parse `s` as a
/// URL and hand back its host and its path; they depend on the text alone.
#[verifier::external_body]
fn split_url(s: &str) -> (r: Option<(Option<String>, String)>)
    ensures
        match r {
            Some((host, path)) => url_host_and_path(s@) == Some(
                (
                    match host {
                        Some(h) => Some(h@),
                        None => None,
                    },
                    path@,
                ),
            ),
            None => url_host_and_path(s@) is None,
        },
{
    let url = url::Url::parse(s).ok()?;
    Some((url.host_str().map(|h| h.to_string()), url.path().to_string()))
}

/// A URL with this host and path names the repository `owner/name`.
pub open spec fn resolves_to(
    host: Option<Seq<char>>,
    path: Seq<char>,
    owner: Seq<char>,
    name: Seq<char>,
) -> bool {
    host == Some(supported_host()) && names_repository(path, owner, name)
}

/// How a URL with this host and path resolves: to the repository, or to
/// the error that its host or its path gives.
pub open spec fn resolution_of(
    host: Option<Seq<char>>,
    path: Seq<char>,
    r: Result<RepositoryReference, PluginError>,
) -> bool {
    match r {
        Ok(reference) => reference.host@ == supported_host() && resolves_to(
            host,
            path,
            reference.owner@,
            reference.name@,
        ),
        Err(e) => if host != Some(supported_host()) {
            e is UnsupportedHost
        } else {
            e is MalformedRepositoryPath && forall|o: Seq<char>, n: Seq<char>|
                !names_repository(path, o, n)
        },
    }
}

/// The repository that a parsed URL names, from its host and its path.
pub fn reference_from_parts(host: Option<&str>, path: &str) -> (r: Result<
    RepositoryReference,
    PluginError,
>)
    ensures
        resolution_of(
            match host {
                Some(h) => Some(h@),
                None => None,
            },
            path@,
            r,
        ),
{
    let supported = owned("github.com");
    let host = match host {
        Some(h) => owned(h),
        None => return Err(PluginError::UnsupportedHost),
    };
    if host != supported {
        return Err(PluginError::UnsupportedHost);
    }
    match parse_repository_path(path) {
        Some((owner, name)) => Ok(RepositoryReference { host, owner, name }),
        None => Err(PluginError::MalformedRepositoryPath),
    }
}

/// The repository that a URL such as `https://github.com/owner/name` names.
pub fn resolve_reference(url: &str) -> (r: Result<RepositoryReference, PluginError>)
    ensures
        match url_host_and_path(url@) {
            None => r is Err && r->Err_0 is InvalidUrl,
            Some((host, path)) => resolution_of(host, path, r),
        },
{
    match split_url(url) {
        None => Err(PluginError::InvalidUrl),
        Some((host, path)) => match host {
            Some(h) => reference_from_parts(Some(h.as_str()), path.as_str()),
            None => reference_from_parts(None, path.as_str()),
        },
    }
}

/// On the supported host, `/owner/name` and `/owner/name/` resolve to that
/// owner and name and to nothing else; on any other host they resolve to
/// nothing; a path with a third segment, or with only one, names no
/// repository.
pub proof fn lemma_repository_url_resolution(owner: Seq<char>, name: Seq<char>, extra: Seq<char>)
    requires
        is_segment(owner),
        is_segment(name),
        is_segment(extra),
    ensures
        forall|o: Seq<char>, n: Seq<char>|
            resolves_to(Some(supported_host()), repository_path(owner, name), o, n) <==> (o
                == owner && n == name),
        forall|o: Seq<char>, n: Seq<char>|
            resolves_to(Some(supported_host()), repository_path(owner, name).push('/'), o, n)
                <==> (o == owner && n == name),
        forall|h: Option<Seq<char>>, o: Seq<char>, n: Seq<char>|
            h != Some(supported_host()) ==> !resolves_to(h, repository_path(owner, name), o, n),
        forall|o: Seq<char>, n: Seq<char>|
            !names_repository(repository_path(owner, name) + seq!['/'] + extra, o, n),
        forall|o: Seq<char>, n: Seq<char>| !names_repository(seq!['/'] + owner, o, n),
        forall|o: Seq<char>, n: Seq<char>| !names_repository(seq!['/'] + owner + seq!['/'], o, n),
{
    let base = repository_path(owner, name);
    assert(names_repository(base, owner, name));
    assert(names_repository(base.push('/'), owner, name));
    lemma_repository_path_shape(base, owner, name);
    lemma_repository_path_shape(base.push('/'), owner, name);
    assert forall|o: Seq<char>, n: Seq<char>| names_repository(base, o, n) implies o == owner
        && n == name by {
        lemma_repository_path_shape(base, o, n);
    }
    assert forall|o: Seq<char>, n: Seq<char>| names_repository(base.push('/'), o, n) implies o
        == owner && n == name by {
        lemma_repository_path_shape(base.push('/'), o, n);
    }
    let longer = base + seq!['/'] + extra;
    assert forall|o: Seq<char>, n: Seq<char>| !names_repository(longer, o, n) by {
        if names_repository(longer, o, n) {
            lemma_repository_path_shape(longer, o, n);
            assert(longer.last() == extra.last());
            assert(longer[1 + owner.len() as int] == '/');
            assert(longer[base.len() as int] == '/');
        }
    }
    let short = seq!['/'] + owner;
    assert forall|o: Seq<char>, n: Seq<char>| !names_repository(short, o, n) by {
        if names_repository(short, o, n) {
            lemma_repository_path_shape(short, o, n);
            assert(short.last() == owner.last());
            assert(short[1 + o.len() as int] == owner[o.len() as int]);
        }
    }
    let open = seq!['/'] + owner + seq!['/'];
    assert forall|o: Seq<char>, n: Seq<char>| !names_repository(open, o, n) by {
        if names_repository(open, o, n) {
            lemma_repository_path_shape(open, o, n);
            assert(open[1 + o.len() as int] == owner[o.len() as int]);
        }
    }
}

} // verus!
