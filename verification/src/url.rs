//! URL construction: the configured base joined with a resource path,
//! with the site identifier appended as a query parameter.
use vstd::prelude::*;
use vstd::string::StrSliceExecFns;
use vstd::string::StringExecFns;
use crate::config::Config;
use crate::text::contains_char;

verus! {

/// `s` without its trailing `c` characters.
pub open spec fn spec_trim_end(s: Seq<char>, c: char) -> Seq<char>
    decreases s.len(),
{
    if s.len() > 0 && s.last() == c {
        spec_trim_end(s.drop_last(), c)
    } else {
        s
    }
}

/// `s` without its leading `c` characters.
pub open spec fn spec_trim_start(s: Seq<char>, c: char) -> Seq<char>
    decreases s.len(),
{
    if s.len() > 0 && s.first() == c {
        spec_trim_start(s.drop_first(), c)
    } else {
        s
    }
}

/// The URL before the site parameter: the base with its trailing slashes
/// trimmed, a single slash, and the path with its leading slashes trimmed.
pub open spec fn spec_joined_url(base: Seq<char>, path: Seq<char>) -> Seq<char> {
    spec_trim_end(base, '/') + "/"@ + spec_trim_start(path, '/')
}

/// The full URL of a request: the joined URL followed by the `site_uuid`
/// query parameter, introduced by `'?'` unless the joined URL already
/// carries a query string, by `'&'` otherwise.
pub open spec fn spec_build_url(base: Seq<char>, site: Seq<char>, path: Seq<char>) -> Seq<char> {
    let joined = spec_joined_url(base, path);
    let sep = if joined.contains('?') {
        "&"@
    } else {
        "?"@
    };
    joined + sep + "site_uuid="@ + site
}

/// A borrowed view of `s` without its trailing `c` characters.
pub fn trim_end_char<'a>(s: &'a str, c: char) -> (r: &'a str)
    ensures
        r@ == spec_trim_end(s@, c),
{
    let len = s.unicode_len();
    let mut end: usize = len;
    assert(s@.take(len as int) =~= s@);
    while end > 0 && s.get_char(end - 1) == c
        invariant
            end <= len,
            len == s@.len(),
            spec_trim_end(s@, c) == spec_trim_end(s@.take(end as int), c),
        decreases end,
    {
        assert(s@.take(end as int).drop_last() =~= s@.take(end - 1));
        end = end - 1;
    }
    proof {
        if end > 0 {
            assert(s@.take(end as int).last() != c);
        }
        assert(spec_trim_end(s@.take(end as int), c) == s@.take(end as int));
    }
    let r = s.substring_char(0, end);
    assert(r@ =~= s@.take(end as int));
    r
}

/// A borrowed view of `s` without its leading `c` characters.
pub fn trim_start_char<'a>(s: &'a str, c: char) -> (r: &'a str)
    ensures
        r@ == spec_trim_start(s@, c),
{
    let len = s.unicode_len();
    let mut start: usize = 0;
    assert(s@.skip(0) =~= s@);
    while start < len && s.get_char(start) == c
        invariant
            start <= len,
            len == s@.len(),
            spec_trim_start(s@, c) == spec_trim_start(s@.skip(start as int), c),
        decreases len - start,
    {
        assert(s@.skip(start as int).drop_first() =~= s@.skip(start + 1));
        start = start + 1;
    }
    proof {
        if start < len {
            assert(s@.skip(start as int).first() != c);
        }
        assert(spec_trim_start(s@.skip(start as int), c) == s@.skip(start as int));
    }
    let r = s.substring_char(start, len);
    assert(r@ =~= s@.skip(start as int));
    r
}

/// Build the URL for a request: the configured base joined with `path`,
/// with the configured site identifier appended as a query parameter.
pub fn build_url(config: &Config, path: &str) -> (url: String)
    ensures
        url@ == spec_build_url(config.base_url@, config.site_uuid@, path@),
{
    let base_trimmed = trim_end_char(config.base_url.as_str(), '/');
    let path_trimmed = trim_start_char(path, '/');
    let mut url = base_trimmed.to_owned();
    url.append("/");
    url.append(path_trimmed);
    assert(url@ =~= spec_joined_url(config.base_url@, path@));
    if contains_char(url.as_str(), '?') {
        url.append("&");
    } else {
        url.append("?");
    }
    url.append("site_uuid=");
    url.append(config.site_uuid.as_str());
    assert(url@ =~= spec_build_url(config.base_url@, config.site_uuid@, path@));
    url
}

} // verus!
