//! Placements on a node: which workspace paths lie under the allowed roots, the snapshot
//! a placement command reports, and the event that carries it.
use vstd::prelude::*;

use crate::dispatch::{payload_text, str_or, seqs_advanced, seq_base};
use crate::node_state::next_seq;
use crate::policy::{badges_view, clone_badge, BadgeView, ResourceBadge};
use crate::protocol::{
    clone_opt, clone_refs, entries_view, json_str, opt_view, push_member, str_member, ActorRef,
    ActorView, CommandEnvelope, CommandView, EventEnvelope, EventView, JsonValue, JsonView, ScopeRef,
    ScopeView,
};
use crate::git::{git_status_badges, git_status_badges_spec};
use crate::split::{split_on, split_on_exec};
use crate::states::{
    format_placement_state, format_warning_severity, placement_state_name, warning_severity_name,
    EventKind, PlacementState, WarningSeverity,
};
use crate::strmap::StrMap;
use crate::text::{chars_eq, chars_of, string_from};

verus! {

/// The components of a path that `Path::components` yields on Unix: the root for an
/// absolute path, a leading `.` for a path that starts with one, then each non-empty
/// piece between slashes other than `.`.
pub open spec fn path_components(s: Seq<char>) -> Seq<Seq<char>> {
    let parts = split_on(s, '/');
    let lead: Seq<Seq<char>> = if s.len() > 0 && s[0] == '/' {
        seq![seq!['/']]
    } else if parts.len() > 0 && parts[0] == seq!['.'] {
        seq![seq!['.']]
    } else {
        seq![]
    };
    lead + normal_parts(parts)
}

/// The pieces that name a directory entry: not empty and not `.`.
pub open spec fn normal_parts(parts: Seq<Seq<char>>) -> Seq<Seq<char>>
    decreases parts.len(),
{
    if parts.len() == 0 {
        seq![]
    } else {
        let rest = normal_parts(parts.drop_last());
        let p = parts.last();
        if p.len() > 0 && p != seq!['.'] {
            rest.push(p)
        } else {
            rest
        }
    }
}

/// `Path::starts_with`: the components of `base` begin the components of `path`.
pub open spec fn path_starts_with(path: Seq<char>, base: Seq<char>) -> bool {
    let p = path_components(path);
    let b = path_components(base);
    b.len() <= p.len() && p.take(b.len() as int) == b
}

fn path_components_exec(s: &str) -> (r: Vec<Vec<char>>)
    ensures
        r@.map_values(|v: Vec<char>| v@) == path_components(s@),
{
    let cs = chars_of(s);
    let parts = split_on_exec(&cs, '/');
    let ghost pv = parts@.map_values(|v: Vec<char>| v@);
    let dot = vec!['.'];
    assert(dot@ =~= seq!['.']);
    let mut out: Vec<Vec<char>> = Vec::new();
    assert(out@.map_values(|v: Vec<char>| v@) =~= seq![]);
    if cs.len() > 0 && cs[0] == '/' {
        let root = vec!['/'];
        assert(root@ =~= seq!['/']);
        out.push(root);
        assert(out@.map_values(|v: Vec<char>| v@) =~= seq![seq!['/']]);
    } else if parts.len() > 0 && chars_eq(parts[0].as_slice(), dot.as_slice()) {
        assert(pv[0] == parts@[0]@);
        let cur = vec!['.'];
        assert(cur@ =~= seq!['.']);
        out.push(cur);
        assert(out@.map_values(|v: Vec<char>| v@) =~= seq![seq!['.']]);
    } else {
        assert(parts@.len() > 0 ==> pv[0] == parts@[0]@);
    }
    let ghost lead = out@.map_values(|v: Vec<char>| v@);
    assert(lead =~= if s@.len() > 0 && s@[0] == '/' {
        seq![seq!['/']]
    } else if pv.len() > 0 && pv[0] == seq!['.'] {
        seq![seq!['.']]
    } else {
        seq![]
    });
    let mut i: usize = 0;
    while i < parts.len()
        invariant
            i <= parts@.len(),
            pv == parts@.map_values(|v: Vec<char>| v@),
            dot@ == seq!['.'],
            out@.map_values(|v: Vec<char>| v@) == lead + normal_parts(pv.take(i as int)),
        decreases parts@.len() - i,
    {
        let p = &parts[i];
        assert(pv[i as int] == p@);
        assert(pv.take(i + 1).drop_last() =~= pv.take(i as int));
        if p.len() > 0 && !chars_eq(p.as_slice(), dot.as_slice()) {
            let ghost before = out@;
            let mut copy: Vec<char> = Vec::new();
            let mut k: usize = 0;
            while k < p.len()
                invariant
                    k <= p@.len(),
                    copy@ == p@.take(k as int),
                decreases p@.len() - k,
            {
                copy.push(p[k]);
                assert(p@.take(k + 1) =~= p@.take(k as int).push(p@[k as int]));
                k += 1;
            }
            assert(p@.take(p@.len() as int) =~= p@);
            out.push(copy);
            assert(out@.map_values(|v: Vec<char>| v@) =~= before.map_values(|v: Vec<char>| v@).push(p@));
        }
        i += 1;
    }
    assert(pv.take(parts@.len() as int) =~= pv);
    out
}

/// `Path::new(path).starts_with(base)`.
pub fn path_starts_with_exec(path: &str, base: &str) -> (b: bool)
    ensures
        b == path_starts_with(path@, base@),
{
    let p = path_components_exec(path);
    let q = path_components_exec(base);
    let ghost pv = p@.map_values(|v: Vec<char>| v@);
    let ghost qv = q@.map_values(|v: Vec<char>| v@);
    assert(pv.len() == p@.len() && qv.len() == q@.len());
    if q.len() > p.len() {
        return false;
    }
    let mut i: usize = 0;
    while i < q.len()
        invariant
            i <= q@.len() <= p@.len(),
            pv == p@.map_values(|v: Vec<char>| v@),
            qv == q@.map_values(|v: Vec<char>| v@),
            pv == path_components(path@),
            qv == path_components(base@),
            forall|k: int| 0 <= k < i ==> pv[k] == qv[k],
        decreases q@.len() - i,
    {
        assert(pv[i as int] == p@[i as int]@ && qv[i as int] == q@[i as int]@);
        if !chars_eq(p[i].as_slice(), q[i].as_slice()) {
            assert(pv.take(qv.len() as int)[i as int] != qv[i as int]);
            return false;
        }
        i += 1;
    }
    assert(pv.take(qv.len() as int) =~= qv);
    true
}

/// A workspace path is allowed when no roots are configured or it lies under one of them.
pub open spec fn workspace_allowed(roots: Seq<Seq<char>>, path: Seq<char>) -> bool {
    roots.len() == 0 || exists|i: int| 0 <= i < roots.len() && path_starts_with(path, #[trigger] roots[i])
}

pub fn workspace_path_allowed(roots: &Vec<String>, path: &str) -> (b: bool)
    ensures
        b == workspace_allowed(crate::text::strings_view(roots@), path@),
{
    let ghost rv = crate::text::strings_view(roots@);
    if roots.len() == 0 {
        return true;
    }
    let mut i: usize = 0;
    while i < roots.len()
        invariant
            i <= roots@.len(),
            rv == crate::text::strings_view(roots@),
            forall|k: int| 0 <= k < i ==> !path_starts_with(path@, #[trigger] rv[k]),
        decreases roots@.len() - i,
    {
        assert(rv[i as int] == roots@[i as int]@);
        if path_starts_with_exec(path, roots[i].as_str()) {
            return true;
        }
        i += 1;
    }
    false
}

/// What a node reports of a workspace: its name and path, its state, its badges, and
/// when it was validated (RFC 3339).
pub struct WorkspaceSnapshot {
    pub display_name: String,
    pub workspace_path: String,
    pub state: PlacementState,
    pub resource_badges: Vec<ResourceBadge>,
    pub last_validated_at: String,
}

/// The snapshot of a workspace outside the allowed roots: in error, hard-blocked.
pub open spec fn outside_roots_badge() -> BadgeView {
    BadgeView {
        kind: "workspace_outside_allowed_roots"@,
        severity: WarningSeverity::HardBlock,
        label: "Workspace outside allowed roots"@,
    }
}

pub fn outside_roots_snapshot(display_name: &str, workspace_path: &str, validated_at: String) -> (r:
    WorkspaceSnapshot)
    ensures
        r.display_name@ == display_name@,
        r.workspace_path@ == workspace_path@,
        r.state == PlacementState::Error,
        badges_view(r.resource_badges@) == seq![outside_roots_badge()],
        r.last_validated_at@ == validated_at@,
{
    let mut badges: Vec<ResourceBadge> = Vec::new();
    badges.push(
        ResourceBadge {
            kind: string_from("workspace_outside_allowed_roots"),
            severity: WarningSeverity::HardBlock,
            label: string_from("Workspace outside allowed roots"),
        },
    );
    assert(badges_view(badges@) =~= seq![outside_roots_badge()]);
    WorkspaceSnapshot {
        display_name: string_from(display_name),
        workspace_path: string_from(workspace_path),
        state: PlacementState::Error,
        resource_badges: badges,
        last_validated_at: validated_at,
    }
}

/// The workspace that a placement command names: its display name, `workspace` when it
/// names none, and its path, empty when it names none; nothing for a command without a
/// placement.
pub open spec fn placement_request_spec(c: CommandView) -> Option<(Seq<char>, Seq<char>)> {
    match c.project_placement_id {
        Some(_) => Some(
            (
                str_or(payload_text(c.payload, "display_name"@), "workspace"@),
                str_or(payload_text(c.payload, "workspace_path"@), ""@),
            ),
        ),
        None => None,
    }
}

pub fn placement_workspace_request(command: &CommandEnvelope) -> (r: Option<(String, String)>)
    ensures
        match r {
            Some((n, p)) => placement_request_spec(command@) == Some((n@, p@)),
            None => placement_request_spec(command@) is None,
        },
{
    if command.project_placement_id.is_none() {
        return None;
    }
    let name = match crate::dispatch::command_payload_str(command, "display_name") {
        Some(n) => n,
        None => string_from("workspace"),
    };
    let path = match crate::dispatch::command_payload_str(command, "workspace_path") {
        Some(p) => p,
        None => string_from(""),
    };
    Some((name, path))
}

/// The JSON form of a badge.
pub open spec fn badge_json(b: BadgeView) -> JsonView {
    JsonView::Object(
        seq![
            ("kind"@, JsonView::Str(b.kind)),
            ("severity"@, JsonView::Str(warning_severity_name(b.severity))),
            ("label"@, JsonView::Str(b.label)),
        ],
    )
}

/// The payload of a placement event: the placement and its workspace snapshot.
pub open spec fn snapshot_payload(
    placement_id: Seq<char>,
    name: Seq<char>,
    path: Seq<char>,
    state: PlacementState,
    badges: Seq<BadgeView>,
    validated_at: Seq<char>,
) -> JsonView {
    JsonView::Object(
        seq![
            ("placement_id"@, JsonView::Str(placement_id)),
            ("display_name"@, JsonView::Str(name)),
            ("workspace_path"@, JsonView::Str(path)),
            ("state"@, JsonView::Str(placement_state_name(state))),
            ("resource_badges"@, JsonView::Array(badges.map_values(|b: BadgeView| badge_json(b)))),
            ("last_validated_at"@, JsonView::Str(validated_at)),
        ],
    )
}

fn badge_json_exec(b: &ResourceBadge) -> (r: JsonValue)
    ensures
        r@ == badge_json(b@),
{
    let mut es: Vec<(String, JsonValue)> = Vec::new();
    assert(entries_view(es@, 0) =~= seq![]);
    push_member(&mut es, "kind", json_str(b.kind.as_str()));
    push_member(&mut es, "severity", json_str(format_warning_severity(b.severity)));
    push_member(&mut es, "label", json_str(b.label.as_str()));
    let ghost ev = entries_view(es@, es@.len());
    let r = crate::protocol::json_object(es);
    assert(ev =~= match badge_json(b@) {
        JsonView::Object(e) => e,
        _ => seq![],
    });
    r
}

fn badges_json(badges: &Vec<ResourceBadge>) -> (r: JsonValue)
    ensures
        r@ == JsonView::Array(badges_view(badges@).map_values(|b: BadgeView| badge_json(b))),
{
    let ghost target = badges_view(badges@).map_values(|b: BadgeView| badge_json(b));
    let mut items: Vec<JsonValue> = Vec::new();
    let mut i: usize = 0;
    while i < badges.len()
        invariant
            i <= badges@.len(),
            target == badges_view(badges@).map_values(|b: BadgeView| badge_json(b)),
            items@.len() == i,
            crate::protocol::items_view(items@, items@.len()) == target.take(i as int),
        decreases badges@.len() - i,
    {
        let ghost before = items@;
        let j = badge_json_exec(&badges[i]);
        items.push(j);
        proof {
            crate::protocol::lemma_items_view(items@, items@.len());
            crate::protocol::lemma_items_view(before, before.len());
            assert(crate::protocol::items_view(items@, items@.len()) =~= target.take(i + 1)) by {
                assert forall|k: int| 0 <= k < i + 1 implies #[trigger] crate::protocol::items_view(
                    items@,
                    items@.len(),
                )[k] == target.take(i + 1)[k] by {
                    if k < i {
                        assert(items@[k] == before[k]);
                        assert(crate::protocol::items_view(before, before.len())[k] == target.take(i as int)[k]);
                    } else {
                        assert(badges_view(badges@)[k] == badges@[k]@);
                    }
                }
            }
        }
        i += 1;
    }
    assert(target.take(badges@.len() as int) =~= target);
    JsonValue::Array(items)
}

/// `e` is the placement event that a node emits for command `c` on placement `pid`,
/// numbered `seq` in the placement's stream. Its id and its time are fresh and not
/// stated.
pub open spec fn placement_event(e: EventView, c: CommandView, pid: Seq<char>, kind: EventKind, seq: int, payload: JsonView) -> bool {
    &&& e.command_id == Some(c.command_id)
    &&& e.correlation_id == Some(c.correlation_id)
    &&& e.actor_ref == ActorView::Node { node_id: c.target_node_id }
    &&& e.scope_ref == ScopeView::Placement { project_placement_id: pid }
    &&& e.node_id == Some(c.target_node_id)
    &&& e.runtime_session_id is None
    &&& e.session_thread_id is None
    &&& e.turn_id is None
    &&& e.seq == seq
    &&& e.kind == kind
    &&& e.source_refs == c.source_refs
    &&& e.evidence_refs.len() == 0
    &&& e.cause_refs == c.cause_refs
    &&& e.result_refs.len() == 0
    &&& e.payload == payload
}

/// The events a placement command of `kind` reports: none without a placement, else one
/// event with the workspace `snapshot`, numbered next in the placement's stream.
pub fn placement_snapshot_events(
    command: &CommandEnvelope,
    placement_seqs: &mut StrMap<i64>,
    kind: EventKind,
    snapshot: &WorkspaceSnapshot,
) -> (r: Vec<EventEnvelope>)
    requires
        old(placement_seqs).wf(),
        command@.project_placement_id matches Some(pid) ==> seq_base(*old(placement_seqs), pid) < i64::MAX,
    ensures
        final(placement_seqs).wf(),
        command@.project_placement_id is None ==> r@.len() == 0 && *final(placement_seqs) == *old(
            placement_seqs,
        ),
        command@.project_placement_id matches Some(pid) ==> {
            &&& r@.len() == 1
            &&& placement_event(
                r@[0]@,
                command@,
                pid,
                kind,
                seq_base(*old(placement_seqs), pid) + 1,
                snapshot_payload(
                    pid,
                    snapshot.display_name@,
                    snapshot.workspace_path@,
                    snapshot.state,
                    badges_view(snapshot.resource_badges@),
                    snapshot.last_validated_at@,
                ),
            )
            &&& seqs_advanced(*old(placement_seqs), *final(placement_seqs), pid, 1)
        },
{
    let pid = match &command.project_placement_id {
        Some(p) => p,
        None => {
            return Vec::new();
        },
    };
    let mut es: Vec<(String, JsonValue)> = Vec::new();
    assert(entries_view(es@, 0) =~= seq![]);
    push_member(&mut es, "placement_id", json_str(pid.as_str()));
    push_member(&mut es, "display_name", json_str(snapshot.display_name.as_str()));
    push_member(&mut es, "workspace_path", json_str(snapshot.workspace_path.as_str()));
    push_member(&mut es, "state", json_str(format_placement_state(snapshot.state)));
    push_member(&mut es, "resource_badges", badges_json(&snapshot.resource_badges));
    push_member(&mut es, "last_validated_at", json_str(snapshot.last_validated_at.as_str()));
    let ghost ev = entries_view(es@, es@.len());
    let payload = crate::protocol::json_object(es);
    assert(ev =~= match snapshot_payload(
        pid@,
        snapshot.display_name@,
        snapshot.workspace_path@,
        snapshot.state,
        badges_view(snapshot.resource_badges@),
        snapshot.last_validated_at@,
    ) {
        JsonView::Object(e) => e,
        _ => seq![],
    });
    let seq = next_seq(placement_seqs, pid.as_str());
    let e = EventEnvelope {
        event_id: crate::system::new_uuid(),
        command_id: Some(command.command_id.clone()),
        correlation_id: Some(command.correlation_id.clone()),
        actor_ref: ActorRef::Node { node_id: command.target_node_id.clone() },
        scope_ref: ScopeRef::Placement { project_placement_id: pid.clone() },
        node_id: Some(command.target_node_id.clone()),
        runtime_session_id: None,
        session_thread_id: None,
        turn_id: None,
        seq,
        kind,
        happened_at: crate::system::now_millis(),
        source_refs: clone_refs(&command.source_refs),
        evidence_refs: Vec::new(),
        cause_refs: clone_refs(&command.cause_refs),
        result_refs: Vec::new(),
        payload,
    };
    let mut r: Vec<EventEnvelope> = Vec::new();
    r.push(e);
    r
}


/// What the filesystem and git report of a workspace path: whether it exists, is a
/// directory, is read-only, holds a `.git` entry, and what `git status` printed, if it ran.
pub struct WorkspaceProbe {
    pub exists: bool,
    pub is_dir: bool,
    pub read_only: bool,
    pub is_git: bool,
    pub git_status: Option<String>,
}

/// `Path::file_name`: the last component of the path when it names an entry.
pub open spec fn file_name_spec(path: Seq<char>) -> Option<Seq<char>> {
    let c = path_components(path);
    if c.len() > 0 && c.last() != seq!['/'] && c.last() != seq!['.'] && c.last() != seq!['.', '.'] {
        Some(c.last())
    } else {
        None
    }
}

/// The name a workspace is shown under: its last path component, else `workspace`.
pub open spec fn display_name_spec(path: Seq<char>) -> Seq<char> {
    match file_name_spec(path) {
        Some(n) => n,
        None => "workspace"@,
    }
}

pub fn workspace_display_name(path: &str) -> (r: String)
    ensures
        r@ == display_name_spec(path@),
{
    let c = path_components_exec(path);
    let ghost cv = c@.map_values(|v: Vec<char>| v@);
    proof {
        reveal_strlit("workspace");
    }
    let n = c.len();
    if n == 0 {
        return string_from("workspace");
    }
    let last = &c[n - 1];
    assert(cv.last() == last@);
    let root = vec!['/'];
    let dot = vec!['.'];
    let dotdot = vec!['.', '.'];
    assert(root@ =~= seq!['/']);
    assert(dot@ =~= seq!['.']);
    assert(dotdot@ =~= seq!['.', '.']);
    if chars_eq(last.as_slice(), root.as_slice()) || chars_eq(last.as_slice(), dot.as_slice())
        || chars_eq(last.as_slice(), dotdot.as_slice()) {
        string_from("workspace")
    } else {
        crate::text::string_of(last)
    }
}

pub open spec fn git_workspace_badge() -> BadgeView {
    BadgeView { kind: "git_workspace"@, severity: WarningSeverity::Info, label: "Git workspace"@ }
}

pub open spec fn git_unavailable_badge() -> BadgeView {
    BadgeView {
        kind: "git_snapshot_unavailable"@,
        severity: WarningSeverity::Warning,
        label: "Git snapshot unavailable"@,
    }
}

/// The badges of a usable workspace: none outside git; in a git workspace a note that
/// it is one, then what its status shows, or that no status could be had.
pub open spec fn resource_warnings_spec(is_git: bool, status: Option<Seq<char>>) -> Seq<BadgeView> {
    if !is_git {
        seq![]
    } else {
        seq![git_workspace_badge()] + match status {
            Some(s) => git_status_badges_spec(s),
            None => seq![git_unavailable_badge()],
        }
    }
}

pub fn resource_warnings(is_git: bool, git_status: Option<&str>) -> (r: Vec<ResourceBadge>)
    ensures
        badges_view(r@) == resource_warnings_spec(is_git, opt_str_view(git_status)),
{
    let mut r: Vec<ResourceBadge> = Vec::new();
    if !is_git {
        assert(badges_view(r@) =~= seq![]);
        return r;
    }
    r.push(
        ResourceBadge {
            kind: string_from("git_workspace"),
            severity: WarningSeverity::Info,
            label: string_from("Git workspace"),
        },
    );
    assert(badges_view(r@) =~= seq![git_workspace_badge()]);
    match git_status {
        Some(s) => {
            let more = git_status_badges(s);
            let ghost before = badges_view(r@);
            let mut i: usize = 0;
            while i < more.len()
                invariant
                    i <= more@.len(),
                    before == seq![git_workspace_badge()],
                    badges_view(r@) == before + badges_view(more@).take(i as int),
                decreases more@.len() - i,
            {
                let b = clone_badge(&more[i]);
                let ghost prev = r@;
                r.push(b);
                assert(badges_view(more@).take(i + 1) =~= badges_view(more@).take(i as int).push(
                    more@[i as int]@,
                ));
                assert(badges_view(r@) =~= badges_view(prev).push(b@));
                i += 1;
            }
            assert(badges_view(more@).take(more@.len() as int) =~= badges_view(more@));
        },
        None => {
            r.push(
                ResourceBadge {
                    kind: string_from("git_snapshot_unavailable"),
                    severity: WarningSeverity::Warning,
                    label: string_from("Git snapshot unavailable"),
                },
            );
            assert(badges_view(r@) =~= seq![git_workspace_badge()] + seq![git_unavailable_badge()]);
        },
    }
    r
}

pub open spec fn opt_str_view(o: Option<&str>) -> Option<Seq<char>> {
    match o {
        Some(s) => Some(s@),
        None => None,
    }
}

pub open spec fn missing_badge() -> BadgeView {
    BadgeView { kind: "missing_workspace"@, severity: WarningSeverity::HardBlock, label: "Workspace missing"@ }
}

pub open spec fn not_directory_badge() -> BadgeView {
    BadgeView {
        kind: "workspace_not_directory"@,
        severity: WarningSeverity::HardBlock,
        label: "Workspace is not a directory"@,
    }
}

pub open spec fn read_only_badge() -> BadgeView {
    BadgeView { kind: "read_only_workspace"@, severity: WarningSeverity::HardBlock, label: "Read-only workspace"@ }
}

/// The state and badges that a probe of a workspace gives: missing, not a directory,
/// read-only, else validated with its git badges.
pub open spec fn validation_spec(
    exists: bool,
    is_dir: bool,
    read_only: bool,
    is_git: bool,
    status: Option<Seq<char>>,
) -> (PlacementState, Seq<BadgeView>) {
    if !exists {
        (PlacementState::Missing, seq![missing_badge()])
    } else if !is_dir {
        (PlacementState::Missing, seq![not_directory_badge()])
    } else if read_only {
        (PlacementState::ReadOnly, seq![read_only_badge()])
    } else {
        (PlacementState::Validated, resource_warnings_spec(is_git, status))
    }
}

fn hard_block(kind: &str, label: &str) -> (r: ResourceBadge)
    ensures
        r@ == (BadgeView { kind: kind@, severity: WarningSeverity::HardBlock, label: label@ }),
{
    ResourceBadge { kind: string_from(kind), severity: WarningSeverity::HardBlock, label: string_from(label) }
}

/// The snapshot of a workspace path from what probing it found.
pub fn validate_workspace(workspace_path: &str, probe: &WorkspaceProbe, validated_at: String) -> (r:
    WorkspaceSnapshot)
    ensures
        r.display_name@ == display_name_spec(workspace_path@),
        r.workspace_path@ == workspace_path@,
        (r.state, badges_view(r.resource_badges@)) == validation_spec(
            probe.exists,
            probe.is_dir,
            probe.read_only,
            probe.is_git,
            opt_view(probe.git_status),
        ),
        r.last_validated_at@ == validated_at@,
{
    let (state, badges) = if !probe.exists {
        let mut b: Vec<ResourceBadge> = Vec::new();
        b.push(hard_block("missing_workspace", "Workspace missing"));
        assert(badges_view(b@) =~= seq![missing_badge()]);
        (PlacementState::Missing, b)
    } else if !probe.is_dir {
        let mut b: Vec<ResourceBadge> = Vec::new();
        b.push(hard_block("workspace_not_directory", "Workspace is not a directory"));
        assert(badges_view(b@) =~= seq![not_directory_badge()]);
        (PlacementState::Missing, b)
    } else if probe.read_only {
        let mut b: Vec<ResourceBadge> = Vec::new();
        b.push(hard_block("read_only_workspace", "Read-only workspace"));
        assert(badges_view(b@) =~= seq![read_only_badge()]);
        (PlacementState::ReadOnly, b)
    } else {
        let status: Option<&str> = match &probe.git_status {
            Some(s) => Some(s.as_str()),
            None => None,
        };
        assert(opt_str_view(status) == opt_view(probe.git_status));
        (PlacementState::Validated, resource_warnings(probe.is_git, status))
    };
    WorkspaceSnapshot {
        display_name: workspace_display_name(workspace_path),
        workspace_path: string_from(workspace_path),
        state,
        resource_badges: badges,
        last_validated_at: validated_at,
    }
}


/// The snapshot a placement command reports for a workspace: hard-blocked when the path
/// lies outside the allowed roots, else what probing it found, under the requested name.
pub fn validate_command_workspace(
    roots: &Vec<String>,
    display_name: &str,
    workspace_path: &str,
    probe: &WorkspaceProbe,
    validated_at: String,
) -> (r: WorkspaceSnapshot)
    ensures
        r.display_name@ == display_name@,
        r.workspace_path@ == workspace_path@,
        r.last_validated_at@ == validated_at@,
        !workspace_allowed(crate::text::strings_view(roots@), workspace_path@) ==> r.state
            == PlacementState::Error && badges_view(r.resource_badges@) == seq![outside_roots_badge()],
        workspace_allowed(crate::text::strings_view(roots@), workspace_path@) ==> (
        r.state,
        badges_view(r.resource_badges@),
        ) == validation_spec(
            probe.exists,
            probe.is_dir,
            probe.read_only,
            probe.is_git,
            opt_view(probe.git_status),
        ),
{
    if !workspace_path_allowed(roots, workspace_path) {
        return outside_roots_snapshot(display_name, workspace_path, validated_at);
    }
    let snapshot = validate_workspace(workspace_path, probe, validated_at);
    WorkspaceSnapshot { display_name: string_from(display_name), ..snapshot }
}

} // verus!
