//! Versions: what the managed Codex binary reports and whether the node supports it,
//! the daemon's own version, and the strict settings of the newer node daemon.
use vstd::prelude::*;

use crate::node_config::{comma_list, parse_comma_list};
use crate::split::{split_on, split_on_exec};
use crate::text::{
    all_digits, char_is_ws, chars_of, concat2, is_digit, is_ws, parse_u64_chars, parse_u64_spec,
    push_str, str_eq, string_from, string_of, strings_view, subrange_chars, to_ascii_lower,
    to_ascii_lower_chars,
};

verus! {

/// `s` without its leading `v`s.
pub open spec fn strip_leading_v(s: Seq<char>) -> Seq<char>
    decreases s.len(),
{
    if s.len() > 0 && s[0] == 'v' {
        strip_leading_v(s.drop_first())
    } else {
        s
    }
}

/// The ASCII digits that open `s`.
pub open spec fn digit_prefix(s: Seq<char>) -> Seq<char>
    decreases s.len(),
{
    if s.len() > 0 && is_digit(s[0]) {
        seq![s[0]] + digit_prefix(s.drop_first())
    } else {
        seq![]
    }
}

/// A numeric version `major.minor.patch`: after leading `v`s, the first two pieces
/// between dots as numbers, and the digits that open the third.
pub open spec fn numeric_version_spec(value: Seq<char>) -> Option<(u64, u64, u64)> {
    let parts = split_on(strip_leading_v(value), '.');
    if parts.len() >= 3 {
        match (parse_u64_spec(parts[0]), parse_u64_spec(parts[1]), parse_u64_spec(digit_prefix(parts[2]))) {
            (Some(a), Some(b), Some(c)) => Some((a, b, c)),
            _ => None,
        }
    } else {
        None
    }
}

pub fn parse_numeric_version(value: &str) -> (r: Option<(u64, u64, u64)>)
    ensures
        r == numeric_version_spec(value@),
{
    let cs = chars_of(value);
    let mut i: usize = 0;
    assert(cs@.skip(0) =~= cs@);
    while i < cs.len() && cs[i] == 'v'
        invariant
            i <= cs@.len(),
            strip_leading_v(cs@) == strip_leading_v(cs@.skip(i as int)),
        decreases cs@.len() - i,
    {
        assert(cs@.skip(i as int).drop_first() =~= cs@.skip(i + 1));
        i += 1;
    }
    let rest = subrange_chars(&cs, i, cs.len());
    assert(rest@ =~= cs@.skip(i as int));
    assert(strip_leading_v(rest@) == rest@);
    let parts = split_on_exec(&rest, '.');
    let ghost pv = parts@.map_values(|v: Vec<char>| v@);
    if parts.len() < 3 {
        return None;
    }
    assert(pv[0] == parts@[0]@ && pv[1] == parts@[1]@ && pv[2] == parts@[2]@);
    let major = parse_u64_chars(parts[0].as_slice());
    let minor = parse_u64_chars(parts[1].as_slice());
    let third = &parts[2];
    let mut k: usize = 0;
    assert(third@.skip(0) =~= third@);
    assert(third@.take(0) + digit_prefix(third@) =~= digit_prefix(third@));
    while k < third.len() && '0' <= third[k] && third[k] <= '9'
        invariant
            k <= third@.len(),
            digit_prefix(third@) == third@.take(k as int) + digit_prefix(third@.skip(k as int)),
        decreases third@.len() - k,
    {
        assert(third@.skip(k as int).drop_first() =~= third@.skip(k + 1));
        assert(third@.take(k + 1) =~= third@.take(k as int) + seq![third@[k as int]]);
        k += 1;
    }
    assert(digit_prefix(third@) =~= third@.take(k as int)) by {
        assert(third@.take(k as int) + seq![] =~= third@.take(k as int));
    }
    let digits = subrange_chars(third, 0, k);
    assert(digits@ =~= third@.take(k as int));
    let patch = parse_u64_chars(digits.as_slice());
    match (major, minor, patch) {
        (Some(a), Some(b), Some(c)) => Some((a, b, c)),
        _ => None,
    }
}

/// Where the last run of whitespace in `s` ends.
pub open spec fn last_word_start(s: Seq<char>) -> int
    decreases s.len(),
{
    if s.len() == 0 {
        0
    } else if is_ws(s.last()) {
        s.len() as int
    } else {
        last_word_start(s.drop_last())
    }
}

pub proof fn lemma_last_word_start(s: Seq<char>)
    ensures
        0 <= last_word_start(s) <= s.len(),
        s.len() > 0 && !is_ws(s.last()) ==> last_word_start(s) < s.len(),
    decreases s.len(),
{
    if s.len() > 0 && !is_ws(s.last()) {
        lemma_last_word_start(s.drop_last());
    }
}

/// `str::split_whitespace`: the runs of characters between whitespace.
pub open spec fn words(s: Seq<char>) -> Seq<Seq<char>>
    decreases s.len(),
{
    if s.len() == 0 {
        seq![]
    } else if is_ws(s.last()) {
        words(s.drop_last())
    } else {
        proof {
            lemma_last_word_start(s);
        }
        let k = last_word_start(s);
        words(s.take(k)).push(s.skip(k))
    }
}

/// The version that the first word that reads as one gives.
pub open spec fn first_version(ws: Seq<Seq<char>>) -> Option<(u64, u64, u64)>
    decreases ws.len(),
{
    if ws.len() == 0 {
        None
    } else {
        match numeric_version_spec(ws[0]) {
            Some(v) => Some(v),
            None => first_version(ws.drop_first()),
        }
    }
}

/// A managed Codex is supported from version 0.144.1 on.
pub open spec fn version_supported(v: (u64, u64, u64)) -> bool {
    v.0 > 0 || v.1 > 144 || (v.1 == 144 && v.2 >= 1)
}

/// Why the managed Codex that reported `version` cannot be used: no version in it, or
/// one that is too old; nothing when it is supported.
pub open spec fn version_unavailable_reason(version: Seq<char>) -> Option<Seq<char>> {
    match first_version(words(version)) {
        None => Some("version_unrecognized"@),
        Some(v) => if version_supported(v) {
            None
        } else {
            Some("version_unsupported"@)
        },
    }
}

/// The words of `s`, in order.
pub fn split_whitespace(s: &str) -> (r: Vec<String>)
    ensures
        strings_view(r@) == words(s@),
{
    let cs = chars_of(s);
    let mut out: Vec<String> = Vec::new();
    let mut start: usize = 0;
    let mut i: usize = 0;
    while i < cs.len()
        invariant
            start <= i <= cs@.len(),
            start == 0 || is_ws(cs@[start - 1]),
            forall|k: int| start <= k < i ==> !is_ws(#[trigger] cs@[k]),
            strings_view(out@) == words(cs@.take(start as int)),
        decreases cs@.len() - i,
    {
        if char_is_ws(cs[i]) {
            let ghost before = out@;
            if i > start {
                let w = subrange_chars(&cs, start, i);
                out.push(string_of(&w));
                proof {
                    lemma_words_of_word(cs@, start as int, i as int);
                    assert(strings_view(out@) =~= strings_view(before).push(w@));
                }
            } else {
                assert(cs@.take(start as int) =~= cs@.take(i as int));
            }
            proof {
                assert(cs@.take(i + 1).drop_last() =~= cs@.take(i as int));
            }
            start = i + 1;
        }
        i += 1;
    }
    if i > start {
        let ghost before = out@;
        let w = subrange_chars(&cs, start, i);
        out.push(string_of(&w));
        proof {
            lemma_words_of_word(cs@, start as int, i as int);
            assert(strings_view(out@) =~= strings_view(before).push(w@));
        }
    } else {
        assert(cs@.take(start as int) =~= cs@.take(i as int));
    }
    assert(cs@.take(i as int) =~= cs@);
    out
}

/// A word from `start` to `end` after whitespace (or at the start) adds one word.
proof fn lemma_words_of_word(s: Seq<char>, start: int, end: int)
    requires
        0 <= start < end <= s.len(),
        start == 0 || is_ws(s[start - 1]),
        forall|k: int| start <= k < end ==> !is_ws(#[trigger] s[k]),
    ensures
        words(s.take(end)) == words(s.take(start)).push(s.subrange(start, end)),
{
    let t = s.take(end);
    assert(!is_ws(t.last()));
    lemma_last_word_start_at(s, start, end);
    assert(t.take(start) =~= s.take(start));
    assert(t.skip(start) =~= s.subrange(start, end));
}

proof fn lemma_last_word_start_at(s: Seq<char>, start: int, end: int)
    requires
        0 <= start <= end <= s.len(),
        start == 0 || is_ws(s[start - 1]),
        forall|k: int| start <= k < end ==> !is_ws(#[trigger] s[k]),
    ensures
        last_word_start(s.take(end)) == start,
    decreases end - start,
{
    if end > start {
        assert(s.take(end).drop_last() =~= s.take(end - 1));
        lemma_last_word_start_at(s, start, end - 1);
    } else if start > 0 {
        assert(s.take(end).last() == s[start - 1]);
    } else {
        assert(s.take(end).len() == 0);
    }
}

/// Whether the managed Codex that reported `version` can be used, and if not why.
pub fn codex_version_unavailable_reason(version: &str) -> (r: Option<String>)
    ensures
        match r {
            Some(s) => version_unavailable_reason(version@) == Some(s@),
            None => version_unavailable_reason(version@) is None,
        },
{
    let ws = split_whitespace(version);
    let ghost wv = strings_view(ws@);
    let mut i: usize = 0;
    assert(wv.skip(0) =~= wv);
    while i < ws.len()
        invariant
            i <= ws@.len(),
            wv == strings_view(ws@),
            wv == words(version@),
            first_version(wv) == first_version(wv.skip(i as int)),
        decreases ws@.len() - i,
    {
        assert(wv.skip(i as int)[0] == ws@[i as int]@);
        assert(wv.skip(i as int).drop_first() =~= wv.skip(i + 1));
        if let Some(v) = parse_numeric_version(ws[i].as_str()) {
            let supported = v.0 > 0 || v.1 > 144 || (v.1 == 144 && v.2 >= 1);
            if supported {
                return None;
            } else {
                return Some(string_from("version_unsupported"));
            }
        }
        i += 1;
    }
    Some(string_from("version_unrecognized"))
}

/// What a node records of its managed Codex: the version it reported and why it cannot
/// be used, when it cannot: a missing binary, a failed probe, or its version.
pub open spec fn managed_codex_spec(available: bool, probe: Result<Seq<char>, Seq<char>>) -> (
    Option<Seq<char>>,
    Option<Seq<char>>,
) {
    if !available {
        (None, Some("binary_not_found"@))
    } else {
        match probe {
            Err(reason) => (None, Some(reason)),
            Ok(version) => (Some(version), version_unavailable_reason(version)),
        }
    }
}

pub fn probe_managed_codex(available: bool, probe: Result<String, String>) -> (r: (
    Option<String>,
    Option<String>,
))
    ensures
        (crate::node_config::opt_seq(r.0), crate::node_config::opt_seq(r.1)) == managed_codex_spec(
            available,
            match probe {
                Ok(v) => Ok(v@),
                Err(e) => Err(e@),
            },
        ),
{
    if !available {
        return (None, Some(string_from("binary_not_found")));
    }
    match probe {
        Err(reason) => (None, Some(reason)),
        Ok(version) => {
            let reason = codex_version_unavailable_reason(version.as_str());
            (Some(version), reason)
        },
    }
}

/// The daemon's version: the package version, with the release id after a `+` when the
/// build names one other than `unknown`.
pub open spec fn daemon_version_spec(package_version: Seq<char>, release_id: Option<Seq<char>>) -> Seq<char> {
    match release_id {
        Some(r) => if r.len() > 0 && r != "unknown"@ {
            package_version + "+"@ + r
        } else {
            package_version
        },
        None => package_version,
    }
}

pub fn daemon_version(package_version: &str, release_id: Option<&str>) -> (r: String)
    ensures
        r@ == daemon_version_spec(
            package_version@,
            match release_id {
                Some(x) => Some(x@),
                None => None,
            },
        ),
{
    match release_id {
        Some(r) => {
            if !r.is_empty() && !str_eq(r, "unknown") {
                let mut s = concat2(package_version, "+");
                push_str(&mut s, r);
                s
            } else {
                string_from(package_version)
            }
        },
        None => string_from(package_version),
    }
}

/// A strict boolean setting: `true` or `false` in any letter case; unset gives
/// `fallback`; anything else is an error.
pub open spec fn strict_bool_spec(name: Seq<char>, value: Option<Seq<char>>, fallback: bool) -> Result<bool, Seq<char>> {
    match value {
        None => Ok(fallback),
        Some(v) => if to_ascii_lower(v) == "true"@ {
            Ok(true)
        } else if to_ascii_lower(v) == "false"@ {
            Ok(false)
        } else {
            Err(name + " must be true or false"@)
        },
    }
}

pub fn parse_env_bool_strict(name: &str, value: Option<&str>, fallback: bool) -> (r: Result<bool, String>)
    ensures
        match r {
            Ok(b) => strict_bool_spec(
                name@,
                match value {
                    Some(v) => Some(v@),
                    None => None,
                },
                fallback,
            ) == Ok::<bool, Seq<char>>(b),
            Err(e) => strict_bool_spec(
                name@,
                match value {
                    Some(v) => Some(v@),
                    None => None,
                },
                fallback,
            ) == Err::<bool, Seq<char>>(e@),
        },
{
    match value {
        None => Ok(fallback),
        Some(v) => {
            let lower = string_of(to_ascii_lower_chars(chars_of(v).as_slice()).as_slice());
            if str_eq(lower.as_str(), "true") {
                Ok(true)
            } else if str_eq(lower.as_str(), "false") {
                Ok(false)
            } else {
                Err(concat2(name, " must be true or false"))
            }
        },
    }
}

/// The workspace roots a node must be given: the entries of the list, at least one.
pub open spec fn required_workspaces_spec(value: Option<Seq<char>>) -> Option<Seq<Seq<char>>> {
    match value {
        Some(v) => if comma_list(v).len() > 0 {
            Some(comma_list(v))
        } else {
            None
        },
        None => None,
    }
}

/// The workspace roots of the list, or an error when it is unset or lists none.
pub fn parse_required_workspaces(value: Option<&str>) -> (r: Result<Vec<String>, String>)
    ensures
        match r {
            Ok(ws) => required_workspaces_spec(
                match value {
                    Some(v) => Some(v@),
                    None => None,
                },
            ) == Some(strings_view(ws@)),
            Err(e) => required_workspaces_spec(
                match value {
                    Some(v) => Some(v@),
                    None => None,
                },
            ) is None && e@ == "UPRAVA_NODE_WORKSPACES must list one or more allowed workspace roots"@,
        },
{
    match value {
        Some(v) => {
            let ws = parse_comma_list(v);
            if ws.len() > 0 {
                Ok(ws)
            } else {
                Err(string_from("UPRAVA_NODE_WORKSPACES must list one or more allowed workspace roots"))
            }
        },
        None => Err(string_from("UPRAVA_NODE_WORKSPACES must list one or more allowed workspace roots")),
    }
}

} // verus!
