//! What a node reads from `git status --porcelain=v1 --branch`: the branch, how far it
//! is from its upstream, and how many paths changed; and the badges it shows for them.
use vstd::prelude::*;

use crate::policy::{badges_view, BadgeView, ResourceBadge};
use crate::split::{
    before_first, before_first_exec, find_first, find_first_exec, lines_exec, lines_of, split_on,
    split_on_exec,
};
use crate::states::WarningSeverity;
use crate::text::{
    chars_of, decimal, has_prefix, parse_u64_chars, parse_u64_spec, push_str, starts_with_chars,
    string_from, string_of, subrange_chars, trim, trim_chars, u64_to_string,
};

verus! {

/// The branch named by the summary of `git status --branch`: the text before the
/// upstream (`...`) and before the tracking note (` [`), trimmed, when not blank.
pub open spec fn branch_label_spec(summary: Seq<char>) -> Option<Seq<char>> {
    let b = trim(before_first(before_first(summary, "..."@), " ["@));
    if b.len() > 0 {
        Some(b)
    } else {
        None
    }
}

pub fn git_branch_label(summary: &str) -> (r: Option<String>)
    ensures
        match r {
            Some(s) => branch_label_spec(summary@) == Some(s@),
            None => branch_label_spec(summary@) is None,
        },
{
    let cs = chars_of(summary);
    let a = before_first_exec(&cs, "...");
    let b = before_first_exec(&a, " [");
    let t = trim_chars(&b);
    if t.len() > 0 {
        Some(string_of(&t))
    } else {
        None
    }
}

/// `s.parse::<usize>()`.
pub open spec fn parse_usize_spec(s: Seq<char>) -> Option<usize> {
    match parse_u64_spec(s) {
        Some(v) => if v <= usize::MAX {
            Some(v as usize)
        } else {
            None
        },
        None => None,
    }
}

/// The count after `key` in the first of `parts`, from index `j` on, that starts with
/// `key` followed by a number.
pub open spec fn first_count(parts: Seq<Seq<char>>, key: Seq<char>, j: int) -> usize
    decreases parts.len() - j,
{
    if j < 0 || j >= parts.len() {
        0
    } else {
        let p = trim(parts[j]);
        if has_prefix(p, key) && parse_usize_spec(trim(p.skip(key.len() as int))) is Some {
            parse_usize_spec(trim(p.skip(key.len() as int)))->0
        } else {
            first_count(parts, key, j + 1)
        }
    }
}

/// The tracking note of a status summary: what follows the first `[`, without a
/// closing `]`.
pub open spec fn tracking_note(summary: Seq<char>) -> Option<Seq<char>> {
    let i = find_first(summary, "["@);
    if i < 0 {
        None
    } else {
        let t = summary.skip(i + 1);
        Some(
            if t.len() > 0 && t.last() == ']' {
                t.drop_last()
            } else {
                t
            },
        )
    }
}

/// How many commits the summary's tracking note counts under `key` (`ahead` or
/// `behind`); zero when it counts none.
pub open spec fn tracking_count_spec(summary: Seq<char>, key: Seq<char>) -> usize {
    match tracking_note(summary) {
        Some(t) => first_count(split_on(t, ','), key, 0),
        None => 0,
    }
}

fn parse_usize_chars(s: &Vec<char>) -> (r: Option<usize>)
    ensures
        r == parse_usize_spec(s@),
{
    match parse_u64_chars(s.as_slice()) {
        Some(v) => if (v as u128) <= (usize::MAX as u128) {
            Some(v as usize)
        } else {
            None
        },
        None => None,
    }
}

pub fn git_tracking_count(summary: &str, key: &str) -> (n: usize)
    ensures
        n == tracking_count_spec(summary@, key@),
{
    proof {
        reveal_strlit("[");
    }
    let cs = chars_of(summary);
    let open = chars_of("[");
    assert(open@.len() == 1);
    let i = match find_first_exec(&cs, &open) {
        Some(i) => i,
        None => {
            return 0;
        },
    };
    let n = cs.len();
    assert(i + 1 <= n);
    let t0 = subrange_chars(&cs, i + 1, n);
    assert(t0@ =~= cs@.skip(i + 1));
    let t = if t0.len() > 0 && t0[t0.len() - 1] == ']' {
        let r = subrange_chars(&t0, 0, t0.len() - 1);
        assert(r@ =~= t0@.drop_last());
        r
    } else {
        t0
    };
    let parts = split_on_exec(&t, ',');
    let ghost pv = parts@.map_values(|v: Vec<char>| v@);
    let kc = chars_of(key);
    let mut j: usize = 0;
    while j < parts.len()
        invariant
            j <= parts@.len(),
            pv == parts@.map_values(|v: Vec<char>| v@),
            kc@ == key@,
            tracking_count_spec(summary@, key@) == first_count(pv, key@, 0),
            first_count(pv, key@, 0) == first_count(pv, key@, j as int),
        decreases parts@.len() - j,
    {
        assert(pv[j as int] == parts@[j as int]@);
        let p = trim_chars(&parts[j]);
        if starts_with_chars(&p, &kc) {
            let rest = subrange_chars(&p, kc.len(), p.len());
            assert(rest@ =~= p@.skip(key@.len() as int));
            let rt = trim_chars(&rest);
            if let Some(v) = parse_usize_chars(&rt) {
                return v;
            }
        }
        j += 1;
    }
    0
}

/// The label of the badge for a workspace with changed paths.
pub open spec fn dirty_label_spec(dirty: nat, untracked: nat) -> Seq<char> {
    if untracked == 0 {
        "Git workspace has "@ + decimal(dirty) + " changed path(s)"@
    } else {
        "Git workspace has "@ + decimal(dirty) + " changed path(s)"@ + ", including "@ + decimal(
            untracked,
        ) + " untracked"@
    }
}

pub fn dirty_workspace_label(dirty_count: usize, untracked_count: usize) -> (r: String)
    ensures
        r@ == dirty_label_spec(dirty_count as nat, untracked_count as nat),
{
    assert(dirty_count as u64 == dirty_count && untracked_count as u64 == untracked_count);
    let mut r = string_from("Git workspace has ");
    push_str(&mut r, u64_to_string(dirty_count as u64).as_str());
    push_str(&mut r, " changed path(s)");
    if untracked_count != 0 {
        push_str(&mut r, ", including ");
        push_str(&mut r, u64_to_string(untracked_count as u64).as_str());
        push_str(&mut r, " untracked");
    }
    r
}

/// What `git status` reports, line by line: the branch, the commits ahead and behind
/// upstream from the last branch line, and the count of changed and of untracked paths.
pub struct StatusScan {
    pub branch: Option<Seq<char>>,
    pub ahead: usize,
    pub behind: usize,
    pub dirty: nat,
    pub untracked: nat,
}

pub open spec fn scan_line(acc: StatusScan, line: Seq<char>) -> StatusScan {
    if has_prefix(line, "## "@) {
        let summary = line.skip(3);
        StatusScan {
            branch: branch_label_spec(summary),
            ahead: tracking_count_spec(summary, "ahead"@),
            behind: tracking_count_spec(summary, "behind"@),
            ..acc
        }
    } else if trim(line).len() > 0 {
        StatusScan {
            dirty: acc.dirty + 1,
            untracked: if has_prefix(line, "?? "@) {
                acc.untracked + 1
            } else {
                acc.untracked
            },
            ..acc
        }
    } else {
        acc
    }
}

pub open spec fn scan_lines(lines: Seq<Seq<char>>) -> StatusScan
    decreases lines.len(),
{
    if lines.len() == 0 {
        StatusScan { branch: None, ahead: 0, behind: 0, dirty: 0, untracked: 0 }
    } else {
        scan_line(scan_lines(lines.drop_last()), lines.last())
    }
}

pub open spec fn badge(kind: Seq<char>, severity: WarningSeverity, label: Seq<char>) -> BadgeView {
    BadgeView { kind, severity, label }
}

/// The badges for a scan: the branch, changed paths, commits behind and ahead, each only
/// when there is something to show, in this order.
pub open spec fn scan_badges(s: StatusScan) -> Seq<BadgeView> {
    let b1: Seq<BadgeView> = match s.branch {
        Some(b) => seq![badge("git_branch"@, WarningSeverity::Info, "Git branch: "@ + b)],
        None => seq![],
    };
    let b2: Seq<BadgeView> = if s.dirty > 0 {
        seq![badge("dirty_workspace"@, WarningSeverity::Warning, dirty_label_spec(s.dirty, s.untracked))]
    } else {
        seq![]
    };
    let b3: Seq<BadgeView> = if s.behind > 0 {
        seq![
            badge(
                "branch_behind"@,
                WarningSeverity::Warning,
                "Branch is behind upstream by "@ + decimal(s.behind as nat) + " commit(s)"@,
            ),
        ]
    } else {
        seq![]
    };
    let b4: Seq<BadgeView> = if s.ahead > 0 {
        seq![
            badge(
                "branch_ahead"@,
                WarningSeverity::Info,
                "Branch is ahead of upstream by "@ + decimal(s.ahead as nat) + " commit(s)"@,
            ),
        ]
    } else {
        seq![]
    };
    b1 + b2 + b3 + b4
}

/// The badges for the output of `git status --porcelain=v1 --branch`.
pub open spec fn git_status_badges_spec(status: Seq<char>) -> Seq<BadgeView> {
    scan_badges(scan_lines(lines_of(status)))
}

proof fn lemma_scan_counts(lines: Seq<Seq<char>>)
    ensures
        scan_lines(lines).untracked <= scan_lines(lines).dirty <= lines.len(),
    decreases lines.len(),
{
    if lines.len() > 0 {
        lemma_scan_counts(lines.drop_last());
    }
}

fn push_badge(badges: &mut Vec<ResourceBadge>, kind: &str, severity: WarningSeverity, label: String)
    ensures
        badges_view(final(badges)@) == badges_view(old(badges)@).push(badge(kind@, severity, label@)),
{
    badges.push(ResourceBadge { kind: string_from(kind), severity, label });
    assert(badges_view(badges@) =~= badges_view(old(badges)@).push(badge(kind@, severity, label@)));
}

pub fn git_status_badges(status: &str) -> (r: Vec<ResourceBadge>)
    ensures
        badges_view(r@) == git_status_badges_spec(status@),
{
    let lines = lines_exec(status);
    let ghost lv = lines@.map_values(|v: String| v@);
    let mut branch: Option<String> = None;
    let mut dirty: usize = 0;
    let mut untracked: usize = 0;
    let mut ahead: usize = 0;
    let mut behind: usize = 0;
    proof {
        reveal_strlit("## ");
    }
    let head = chars_of("## ");
    assert(head@.len() == 3);
    let untracked_mark = chars_of("?? ");
    let mut i: usize = 0;
    while i < lines.len()
        invariant
            i <= lines@.len(),
            lv == lines@.map_values(|v: String| v@),
            head@ == "## "@,
            head@.len() == 3,
            untracked_mark@ == "?? "@,
            scan_lines(lv.take(i as int)) == (StatusScan {
                branch: match branch {
                    Some(b) => Some(b@),
                    None => None,
                },
                ahead,
                behind,
                dirty: dirty as nat,
                untracked: untracked as nat,
            }),
            untracked <= dirty <= i,
        decreases lines@.len() - i,
    {
        let line = chars_of(lines[i].as_str());
        assert(lv[i as int] == line@);
        assert(lv.take(i + 1).drop_last() =~= lv.take(i as int));
        if starts_with_chars(&line, &head) {
            let summary_chars = subrange_chars(&line, 3, line.len());
            assert(summary_chars@ =~= line@.skip(3));
            let summary = string_of(&summary_chars);
            branch = git_branch_label(summary.as_str());
            ahead = git_tracking_count(summary.as_str(), "ahead");
            behind = git_tracking_count(summary.as_str(), "behind");
        } else if trim_chars(&line).len() > 0 {
            dirty = dirty + 1;
            if starts_with_chars(&line, &untracked_mark) {
                untracked = untracked + 1;
            }
        }
        i += 1;
    }
    assert(lv.take(lines@.len() as int) =~= lv);
    let mut badges: Vec<ResourceBadge> = Vec::new();
    let ghost b0 = badges_view(badges@);
    assert(b0 =~= seq![]);
    if let Some(b) = &branch {
        let mut label = string_from("Git branch: ");
        push_str(&mut label, b.as_str());
        push_badge(&mut badges, "git_branch", WarningSeverity::Info, label);
    }
    if dirty > 0 {
        push_badge(
            &mut badges,
            "dirty_workspace",
            WarningSeverity::Warning,
            dirty_workspace_label(dirty, untracked),
        );
    }
    assert(behind as u64 == behind && ahead as u64 == ahead);
    if behind > 0 {
        let mut label = string_from("Branch is behind upstream by ");
        push_str(&mut label, u64_to_string(behind as u64).as_str());
        push_str(&mut label, " commit(s)");
        push_badge(&mut badges, "branch_behind", WarningSeverity::Warning, label);
    }
    if ahead > 0 {
        let mut label = string_from("Branch is ahead of upstream by ");
        push_str(&mut label, u64_to_string(ahead as u64).as_str());
        push_str(&mut label, " commit(s)");
        push_badge(&mut badges, "branch_ahead", WarningSeverity::Info, label);
    }
    assert(badges_view(badges@) =~= git_status_badges_spec(status@));
    badges
}

} // verus!
