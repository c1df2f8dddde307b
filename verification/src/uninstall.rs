//! Uninstalling a native installation: the plan, the report, and the removal of
//! the installer's PATH block from a shell profile.
use vstd::prelude::*;
use vstd::string::StringSliceAdditionalSpecFns;
use crate::text::{owned, push_str, push_char, chars_of, string_from};
use crate::redis::{hex, hex_digit};
use crate::update::{trim_start, trim_end, count_leading_white, kept_length, sub_chars, lemma_leading_white_bound, lemma_kept_bound};
use sha2::Digest;

verus! {

broadcast use vstd::string::group_string_axioms;

/// One entry of the uninstall report.
#[derive(Clone, Debug)]
pub struct UninstallAction {
    pub kind: &'static str,
    pub path: String,
    pub reason: &'static str,
    pub status: &'static str,
}

/// What uninstall did or would do.
#[derive(Clone, Debug)]
pub struct UninstallReport {
    pub schema_version: u32,
    pub status: &'static str,
    pub manager: &'static str,
    pub installation_root: Option<String>,
    pub actions: Vec<UninstallAction>,
    pub preserved: Vec<String>,
    pub warnings: Vec<String>,
}

/// A shell profile the installer edited, with the digest of the block it added.
#[derive(Clone, Debug)]
pub struct ShellProfile {
    pub path: String,
    pub block_sha256: String,
}

/// A native installation as found on disk.
#[derive(Clone, Debug)]
pub struct Installation {
    pub config_dir: String,
    pub root: String,
    pub launcher: String,
    pub shell_profiles: Vec<ShellProfile>,
}

/// An action in the given state.
pub fn action_with_status(kind: &'static str, path: String, reason: &'static str, status: &'static str) -> (a: UninstallAction)
    ensures
        a.kind == kind && a.path == path && a.reason == reason && a.status == status,
{
    UninstallAction { kind, path, reason, status }
}

/// A planned action.
pub fn action(kind: &'static str, path: String, reason: &'static str) -> (a: UninstallAction)
    ensures
        a.kind == kind && a.path == path && a.reason == reason && a.status@ == "planned"@,
{
    UninstallAction { kind, path, reason, status: "planned" }
}

/// `base` joined with a relative `name`: a `/` is put between them unless `base` is
/// empty or already ends with one.
pub open spec fn joined_path(base: Seq<char>, name: Seq<char>) -> Seq<char> {
    if base.len() == 0 || base.last() == '/' { base + name } else { base + seq!['/'] + name }
}

/// Joins a relative file name onto a directory path.
pub fn join_path(base: &str, name: &str) -> (out: String)
    ensures
        out@ == joined_path(base@, name@),
{
    let chars = chars_of(base);
    let mut out = owned(base);
    if chars.len() > 0 && chars[chars.len() - 1] != '/' {
        push_char(&mut out, '/');
    }
    push_str(&mut out, name);
    out
}

/// User files kept by a plain uninstall, in report order.
pub open spec fn user_file(i: int) -> Seq<char> {
    if i == 0 { "connections.toml"@ } else if i == 1 { "credential.key"@ } else if i == 2 { "settings.toml"@ }
    else if i == 3 { "workspace.toml"@ } else if i == 4 { "sql"@ } else { "update-check.json"@ }
}

/// The uninstall plan: remove the launcher, the `current` link, the installation
/// metadata and every release directory; keep the user's files, except that
/// `--purge` also removes the settings, workspace, update-check, connections and
/// credential files (the `sql` directory stays).
pub open spec fn planned(inst: Installation, releases: Seq<String>, purge: bool, r: UninstallReport) -> bool {
    let data: Seq<Seq<char>> = Seq::new(6, |i: int| joined_path(inst.config_dir@, user_file(i)));
    &&& r.schema_version == 1
    &&& r.status@ == "planned"@
    &&& r.manager@ == "native"@
    &&& r.installation_root == Some(inst.root)
    &&& r.actions@.len() == 3 + releases.len() + (if purge { 5int } else { 0int })
    &&& r.actions@[0].kind@ == "launcher"@ && r.actions@[0].path@ == inst.launcher@
        && r.actions@[0].reason@ == "native LazyDB launcher"@
    &&& r.actions@[1].kind@ == "current"@ && r.actions@[1].path@ == joined_path(inst.root@, "current"@)
        && r.actions@[1].reason@ == "native current release link"@
    &&& r.actions@[2].kind@ == "state"@ && r.actions@[2].path@ == joined_path(inst.root@, "install.json"@)
        && r.actions@[2].reason@ == "native installation metadata"@
    &&& forall|i: int| 0 <= i < releases.len() ==> (#[trigger] r.actions@[3 + i]).kind@ == "release"@
        && r.actions@[3 + i].path == releases[i] && r.actions@[3 + i].reason@ == "native release directory"@
    &&& forall|i: int| 0 <= i < r.actions@.len() ==> (#[trigger] r.actions@[i]).status@ == "planned"@
    &&& purge ==> {
        &&& forall|i: int| 0 <= i < 4 ==> (#[trigger] r.actions@[3 + releases.len() + i]).path@ == data[i]
        &&& r.actions@[3 + releases.len() + 4int].path@ == data[5]
        &&& forall|i: int| 0 <= i < 5 ==> (#[trigger] r.actions@[3 + releases.len() + i]).kind@ == "data"@
            && r.actions@[3 + releases.len() + i].reason@ == "explicit --purge"@
        &&& r.preserved@.len() == 1 && r.preserved@[0]@ == data[4]
    }
    &&& !purge ==> r.preserved@.len() == 6 && forall|i: int| 0 <= i < 6 ==> (#[trigger] r.preserved@[i])@ == data[i]
    &&& r.warnings@.len() == 2
    &&& r.warnings@[0]@ == "MCP configuration is not changed by uninstall; remove project entries separately"@
    &&& r.warnings@[1]@ == "review the action list before confirming; unknown files are preserved"@
}

/// Plans the uninstall of `installation`, given its release directories.
pub fn plan_installation(installation: &Installation, releases: Vec<String>, purge: bool) -> (r: UninstallReport)
    ensures
        planned(*installation, releases@, purge, r),
{
    let mut actions: Vec<UninstallAction> = Vec::new();
    actions.push(action("launcher", installation.launcher.clone(), "native LazyDB launcher"));
    actions.push(action("current", join_path(installation.root.as_str(), "current"), "native current release link"));
    actions.push(action("state", join_path(installation.root.as_str(), "install.json"), "native installation metadata"));
    let mut i: usize = 0;
    while i < releases.len()
        invariant
            i <= releases@.len(),
            actions@.len() == 3 + i,
            actions@[0].kind@ == "launcher"@ && actions@[0].path@ == installation.launcher@
                && actions@[0].reason@ == "native LazyDB launcher"@,
            actions@[1].kind@ == "current"@ && actions@[1].path@ == joined_path(installation.root@, "current"@)
                && actions@[1].reason@ == "native current release link"@,
            actions@[2].kind@ == "state"@ && actions@[2].path@ == joined_path(installation.root@, "install.json"@)
                && actions@[2].reason@ == "native installation metadata"@,
            forall|k: int| 0 <= k < i ==> (#[trigger] actions@[3 + k]).kind@ == "release"@
                && actions@[3 + k].path == releases@[k] && actions@[3 + k].reason@ == "native release directory"@,
            forall|k: int| 0 <= k < actions@.len() ==> (#[trigger] actions@[k]).status@ == "planned"@,
        decreases releases@.len() - i,
    {
        actions.push(action("release", releases[i].clone(), "native release directory"));
        i = i + 1;
    }
    let dir = installation.config_dir.as_str();
    let connections = join_path(dir, "connections.toml");
    let credential = join_path(dir, "credential.key");
    let settings = join_path(dir, "settings.toml");
    let workspace = join_path(dir, "workspace.toml");
    let sql = join_path(dir, "sql");
    let update_check = join_path(dir, "update-check.json");
    let ghost data: Seq<Seq<char>> = Seq::new(6, |i: int| joined_path(installation.config_dir@, user_file(i)));
    let mut preserved: Vec<String> = Vec::new();
    let n = actions.len();
    if purge {
        actions.push(action("data", connections, "explicit --purge"));
        actions.push(action("data", credential, "explicit --purge"));
        actions.push(action("data", settings, "explicit --purge"));
        actions.push(action("data", workspace, "explicit --purge"));
        actions.push(action("data", update_check, "explicit --purge"));
        preserved.push(sql);
        assert(actions@[n as int + 0].path@ == data[0]);
        assert(actions@[n as int + 1].path@ == data[1]);
        assert(actions@[n as int + 2].path@ == data[2]);
        assert(actions@[n as int + 3].path@ == data[3]);
        assert(actions@[n as int + 4].path@ == data[5]);
    } else {
        preserved.push(connections);
        preserved.push(credential);
        preserved.push(settings);
        preserved.push(workspace);
        preserved.push(sql);
        preserved.push(update_check);
        assert(preserved@[0]@ == data[0]);
        assert(preserved@[1]@ == data[1]);
        assert(preserved@[2]@ == data[2]);
        assert(preserved@[3]@ == data[3]);
        assert(preserved@[4]@ == data[4]);
        assert(preserved@[5]@ == data[5]);
    }
    let mut warnings: Vec<String> = Vec::new();
    warnings.push(owned("MCP configuration is not changed by uninstall; remove project entries separately"));
    warnings.push(owned("review the action list before confirming; unknown files are preserved"));
    UninstallReport {
        schema_version: 1,
        status: "planned",
        manager: "native",
        installation_root: Some(installation.root.clone()),
        actions,
        preserved,
        warnings,
    }
}

/// The installer-edited shell profile to clean up: the first one recorded.
pub fn installation_shell_profile(installation: &Installation) -> (r: Option<(String, String)>)
    ensures
        installation.shell_profiles@.len() == 0 ==> r is None,
        installation.shell_profiles@.len() > 0 ==> r == Some((installation.shell_profiles@[0].path, installation.shell_profiles@[0].block_sha256)),
{
    if installation.shell_profiles.len() == 0 {
        None
    } else {
        let p = &installation.shell_profiles[0];
        Some((p.path.clone(), p.block_sha256.clone()))
    }
}

/// The human-readable report: a status line, the installation root, one line per
/// action and per preserved path, then the warnings.
pub open spec fn report_text(r: UninstallReport) -> Seq<char> {
    let head = "LazyDB uninstall "@ + r.status@ + "\n"@;
    let root = match r.installation_root {
        Some(root) => "installation root: "@ + root@ + "\n"@,
        None => seq![],
    };
    head + root + action_lines(r.actions@) + prefixed_lines("preserve: "@, r.preserved@) + prefixed_lines("warning: "@, r.warnings@)
}

/// `remove: <path> (<reason>)` for each action, one per line.
pub open spec fn action_lines(actions: Seq<UninstallAction>) -> Seq<char>
    decreases actions.len(),
{
    if actions.len() == 0 {
        seq![]
    } else {
        let a = actions.last();
        action_lines(actions.drop_last()) + "remove: "@ + a.path@ + " ("@ + a.reason@ + ")\n"@
    }
}

/// `<prefix><item>` for each item, one per line.
pub open spec fn prefixed_lines(prefix: Seq<char>, items: Seq<String>) -> Seq<char>
    decreases items.len(),
{
    if items.len() == 0 {
        seq![]
    } else {
        prefixed_lines(prefix, items.drop_last()) + prefix + items.last()@ + "\n"@
    }
}

/// Renders the report for a terminal.
pub fn format_report(report: &UninstallReport) -> (out: String)
    ensures
        out@ == report_text(*report),
{
    let mut output = owned("LazyDB uninstall ");
    push_str(&mut output, report.status);
    push_str(&mut output, "\n");
    if let Some(root) = &report.installation_root {
        push_str(&mut output, "installation root: ");
        push_str(&mut output, root.as_str());
        push_str(&mut output, "\n");
    }
    let ghost before_actions = output@;
    let mut i: usize = 0;
    while i < report.actions.len()
        invariant
            i <= report.actions@.len(),
            output@ == before_actions + action_lines(report.actions@.take(i as int)),
        decreases report.actions@.len() - i,
    {
        let a = &report.actions[i];
        let ghost prev = output@;
        push_str(&mut output, "remove: ");
        push_str(&mut output, a.path.as_str());
        assert(output@ =~= prev + ("remove: "@ + a.path@));
        push_str(&mut output, " (");
        assert(output@ =~= prev + ("remove: "@ + a.path@ + " ("@));
        push_str(&mut output, a.reason);
        assert(output@ =~= prev + ("remove: "@ + a.path@ + " ("@ + a.reason@));
        push_str(&mut output, ")\n");
        assert(output@ =~= prev + ("remove: "@ + a.path@ + " ("@ + a.reason@ + ")\n"@));
        assert(report.actions@.take(i as int + 1).drop_last() =~= report.actions@.take(i as int));
        i = i + 1;
    }
    assert(report.actions@.take(i as int) =~= report.actions@);
    let ghost before_preserved = output@;
    let mut j: usize = 0;
    while j < report.preserved.len()
        invariant
            j <= report.preserved@.len(),
            output@ == before_preserved + prefixed_lines("preserve: "@, report.preserved@.take(j as int)),
        decreases report.preserved@.len() - j,
    {
        let ghost prev = output@;
        push_str(&mut output, "preserve: ");
        push_str(&mut output, report.preserved[j].as_str());
        assert(output@ =~= prev + ("preserve: "@ + report.preserved@[j as int]@));
        push_str(&mut output, "\n");
        assert(output@ =~= prev + ("preserve: "@ + report.preserved@[j as int]@ + "
"@));
        assert(report.preserved@.take(j as int + 1).drop_last() =~= report.preserved@.take(j as int));
        j = j + 1;
    }
    assert(report.preserved@.take(j as int) =~= report.preserved@);
    let ghost before_warnings = output@;
    let mut k: usize = 0;
    while k < report.warnings.len()
        invariant
            k <= report.warnings@.len(),
            output@ == before_warnings + prefixed_lines("warning: "@, report.warnings@.take(k as int)),
        decreases report.warnings@.len() - k,
    {
        let ghost prev = output@;
        push_str(&mut output, "warning: ");
        push_str(&mut output, report.warnings[k].as_str());
        assert(output@ =~= prev + ("warning: "@ + report.warnings@[k as int]@));
        push_str(&mut output, "\n");
        assert(output@ =~= prev + ("warning: "@ + report.warnings@[k as int]@ + "
"@));
        assert(report.warnings@.take(k as int + 1).drop_last() =~= report.warnings@.take(k as int));
        k = k + 1;
    }
    assert(report.warnings@.take(k as int) =~= report.warnings@);
    assert(output@ =~= report_text(*report));
    output
}

/// The SHA-256 digest of a byte string.
pub uninterp spec fn sha256_of(bytes: Seq<u8>) -> Seq<u8>;

/// `sha2::Sha256::digest`: the 32-byte SHA-256 digest of `bytes`.
#[verifier::external_body]
fn sha256(bytes: &[u8]) -> (d: Vec<u8>)
    ensures
        d@ == sha256_of(bytes@),
        d@.len() == 32,
{
    sha2::Sha256::digest(bytes).to_vec()
}

/// Two lowercase hex digits per byte (what `{:x}` writes for a digest).
pub open spec fn lower_hex(v: Seq<u8>) -> Seq<char>
    decreases v.len(),
{
    if v.len() == 0 {
        seq![]
    } else {
        let b = v.last();
        lower_hex(v.drop_last()) + seq![hex_digit((b / 16) as nat), hex_digit((b % 16) as nat)]
    }
}

fn push_lower_hex(out: &mut String, v: &[u8])
    ensures
        final(out)@ == old(out)@ + lower_hex(v@),
{
    let ghost start = out@;
    let mut i: usize = 0;
    while i < v.len()
        invariant
            i <= v@.len(),
            out@ == start + lower_hex(v@.take(i as int)),
        decreases v@.len() - i,
    {
        push_char(out, hex(v[i] / 16));
        push_char(out, hex(v[i] % 16));
        assert(v@.take(i as int + 1).drop_last() =~= v@.take(i as int));
        i = i + 1;
        assert(out@ =~= start + lower_hex(v@.take(i as int)));
    }
    assert(v@.take(i as int) =~= v@);
}

/// The pieces `str::split_inclusive('\n')` yields: each line with its `\n`, the
/// last one without when the text does not end in `\n`.
pub open spec fn inclusive_lines(s: Seq<char>) -> Seq<Seq<char>>
    decreases s.len(),
{
    if s.len() == 0 {
        seq![]
    } else {
        let i = crate::text::first_newline(s);
        proof { crate::text::lemma_first_newline_bounds(s); }
        if i == s.len() { seq![s] } else { seq![s.take(i + 1)] + inclusive_lines(s.skip(i + 1)) }
    }
}

/// A line without its trailing `\r` and `\n` characters.
pub open spec fn trim_breaks(s: Seq<char>) -> Seq<char>
    decreases s.len(),
{
    if s.len() > 0 && (s.last() == '\r' || s.last() == '\n') { trim_breaks(s.drop_last()) } else { s }
}

pub open spec fn begin_marker() -> Seq<char> {
    "# >>> LazyDB installer >>>"@
}

pub open spec fn end_marker() -> Seq<char> {
    "# <<< LazyDB installer <<<"@
}

/// Indices, in order, of the first `n` lines that are exactly `marker` once line
/// breaks are trimmed.
pub open spec fn marker_lines(lines: Seq<Seq<char>>, marker: Seq<char>, n: int) -> Seq<int>
    decreases n,
{
    if n <= 0 {
        seq![]
    } else if trim_breaks(lines[n - 1]) == marker {
        marker_lines(lines, marker, n - 1).push(n - 1)
    } else {
        marker_lines(lines, marker, n - 1)
    }
}

pub proof fn lemma_marker_lines_bounded(lines: Seq<Seq<char>>, marker: Seq<char>, n: int)
    ensures
        forall|k: int| 0 <= k < marker_lines(lines, marker, n).len() ==> 0 <= #[trigger] marker_lines(lines, marker, n)[k] < n,
    decreases n,
{
    if n > 0 {
        lemma_marker_lines_bounded(lines, marker, n - 1);
        let prev = marker_lines(lines, marker, n - 1);
        assert forall|k: int| 0 <= k < marker_lines(lines, marker, n).len() implies 0 <= #[trigger] marker_lines(lines, marker, n)[k] < n by {
            if k < prev.len() {
                assert(marker_lines(lines, marker, n)[k] == prev[k]);
            }
        }
    }
}

pub open spec fn concat_range(lines: Seq<Seq<char>>, lo: int, hi: int) -> Seq<char>
    decreases hi - lo,
{
    if hi <= lo { seq![] } else { concat_range(lines, lo, hi - 1) + lines[hi - 1] }
}

/// Removing the installer's PATH block from a shell profile: when the profile has
/// exactly one begin marker line and one end marker line after it, and the SHA-256
/// of the block between them (markers included) is `expected`, the profile without
/// that block; otherwise no change.
pub open spec fn path_block_removed(old: Seq<char>, expected: Seq<char>, r: Option<Seq<char>>) -> bool {
    let lines = inclusive_lines(old);
    let starts = marker_lines(lines, begin_marker(), lines.len() as int);
    let ends = marker_lines(lines, end_marker(), lines.len() as int);
    if starts.len() == 1 && ends.len() == 1 && starts[0] < ends[0] {
        let s = starts[0];
        let e = ends[0];
        let block = concat_range(lines, s, e + 1);
        let digest = lower_hex(sha256_of(vstd::utf8::encode_utf8(block)));
        if digest == expected {
            r == Some(concat_range(lines, 0, s) + concat_range(lines, e + 1, lines.len() as int))
        } else {
            r is None
        }
    } else {
        r is None
    }
}

fn chars_equal(a: &[char], b: &[char]) -> (r: bool)
    ensures
        r == (a@ == b@),
{
    if a.len() != b.len() {
        return false;
    }
    let mut i: usize = 0;
    while i < a.len()
        invariant
            a@.len() == b@.len(),
            i <= a@.len(),
            forall|k: int| 0 <= k < i ==> a@[k] == b@[k],
        decreases a@.len() - i,
    {
        if a[i] != b[i] {
            return false;
        }
        i = i + 1;
    }
    assert(a@ =~= b@);
    true
}

fn trimmed_len(line: &[char]) -> (n: usize)
    ensures
        n <= line@.len(),
        line@.take(n as int) == trim_breaks(line@),
{
    let mut n = line.len();
    assert(line@.take(n as int) =~= line@);
    while n > 0 && (line[n - 1] == '\r' || line[n - 1] == '\n')
        invariant
            n <= line@.len(),
            trim_breaks(line@.take(n as int)) == trim_breaks(line@),
        decreases n,
    {
        assert(line@.take(n as int).drop_last() =~= line@.take(n as int - 1));
        n = n - 1;
    }
    n
}

fn split_inclusive_lines(s: &[char]) -> (lines: Vec<Vec<char>>)
    ensures
        lines@.len() == inclusive_lines(s@).len(),
        forall|i: int| 0 <= i < lines@.len() ==> (#[trigger] lines@[i])@ == inclusive_lines(s@)[i],
{
    let mut lines: Vec<Vec<char>> = Vec::new();
    let mut current: Vec<char> = Vec::new();
    let mut start: usize = 0;
    let mut i: usize = 0;
    let ghost mut done: Seq<Seq<char>> = seq![];
    assert(s@.skip(0) =~= s@);
    while i < s.len()
        invariant
            start <= i <= s@.len(),
            current@ == s@.subrange(start as int, i as int),
            forall|k: int| start <= k < i ==> s@[k] != '\n',
            lines@.len() == done.len(),
            forall|k: int| 0 <= k < lines@.len() ==> (#[trigger] lines@[k])@ == done[k],
            done + inclusive_lines(s@.skip(start as int)) == inclusive_lines(s@),
        decreases s@.len() - i,
    {
        current.push(s[i]);
        assert(current@ =~= s@.subrange(start as int, i + 1));
        if s[i] == '\n' {
            proof {
                let rest = s@.skip(start as int);
                let old_done = done;
                assert forall|k: int| 0 <= k < i - start implies rest[k] != '\n' by {
                    assert(rest[k] == s@[start + k]);
                }
                crate::text::lemma_first_newline(rest, i - start);
                assert(rest.take(i - start + 1) =~= s@.subrange(start as int, i + 1));
                assert(rest.skip(i - start + 1) =~= s@.skip(i + 1));
                assert(inclusive_lines(rest) =~= seq![rest.take(i - start + 1)] + inclusive_lines(s@.skip(i + 1)));
                done = done.push(current@);
                assert(done + inclusive_lines(s@.skip(i + 1)) =~= old_done + (seq![current@] + inclusive_lines(s@.skip(i + 1))));
            }
            lines.push(current);
            current = Vec::new();
            start = i + 1;
        }
        i = i + 1;
    }
    if start < s.len() {
        proof {
            let rest = s@.skip(start as int);
            assert forall|k: int| 0 <= k < rest.len() implies rest[k] != '\n' by {
                assert(rest[k] == s@[start + k]);
            }
            crate::text::lemma_first_newline(rest, rest.len() as int);
            assert(current@ =~= rest);
            done = done.push(current@);
            assert(done =~= inclusive_lines(s@));
        }
        lines.push(current);
    } else {
        assert(s@.skip(start as int).len() == 0);
        assert(done =~= inclusive_lines(s@));
    }
    lines
}

/// Indices of the lines equal to `marker` once breaks are trimmed.
fn find_marker_lines(lines: &Vec<Vec<char>>, marker: &[char], ghost_lines: Ghost<Seq<Seq<char>>>) -> (found: Vec<usize>)
    requires
        lines@.len() == ghost_lines@.len(),
        forall|i: int| 0 <= i < lines@.len() ==> (#[trigger] lines@[i])@ == ghost_lines@[i],
    ensures
        found@.len() == marker_lines(ghost_lines@, marker@, ghost_lines@.len() as int).len(),
        forall|k: int| 0 <= k < found@.len() ==> found@[k] as int == #[trigger] marker_lines(ghost_lines@, marker@, ghost_lines@.len() as int)[k],
{
    let mut found: Vec<usize> = Vec::new();
    let mut i: usize = 0;
    while i < lines.len()
        invariant
            i <= lines@.len(),
            lines@.len() == ghost_lines@.len(),
            forall|k: int| 0 <= k < lines@.len() ==> (#[trigger] lines@[k])@ == ghost_lines@[k],
            found@.len() == marker_lines(ghost_lines@, marker@, i as int).len(),
            forall|k: int| 0 <= k < found@.len() ==> found@[k] as int == #[trigger] marker_lines(ghost_lines@, marker@, i as int)[k],
        decreases lines@.len() - i,
    {
        let n = trimmed_len(lines[i].as_slice());
        let trimmed = &lines[i].as_slice()[0..n];
        assert(trimmed@ =~= lines@[i as int]@.take(n as int));
        if chars_equal(trimmed, marker) {
            found.push(i);
        }
        i = i + 1;
    }
    found
}

/// Characters of `lines[lo..hi]` concatenated.
fn concat_lines(lines: &Vec<Vec<char>>, lo: usize, hi: usize, ghost_lines: Ghost<Seq<Seq<char>>>, out: &mut Vec<char>)
    requires
        lo <= hi <= lines@.len(),
        lines@.len() == ghost_lines@.len(),
        forall|i: int| 0 <= i < lines@.len() ==> (#[trigger] lines@[i])@ == ghost_lines@[i],
    ensures
        final(out)@ == old(out)@ + concat_range(ghost_lines@, lo as int, hi as int),
{
    let ghost start = out@;
    let mut i = lo;
    while i < hi
        invariant
            lo <= i <= hi <= lines@.len(),
            lines@.len() == ghost_lines@.len(),
            forall|k: int| 0 <= k < lines@.len() ==> (#[trigger] lines@[k])@ == ghost_lines@[k],
            out@ == start + concat_range(ghost_lines@, lo as int, i as int),
        decreases hi - i,
    {
        let line = &lines[i];
        let mut j: usize = 0;
        let ghost before = out@;
        while j < line.len()
            invariant
                j <= line@.len(),
                out@ == before + line@.take(j as int),
            decreases line@.len() - j,
        {
            out.push(line[j]);
            j = j + 1;
            assert(out@ =~= before + line@.take(j as int));
        }
        assert(line@.take(j as int) =~= line@);
        i = i + 1;
        assert(out@ =~= start + concat_range(ghost_lines@, lo as int, i as int));
    }
}

/// The shell profile text with the installer's PATH block removed, when the
/// block is present exactly once and its SHA-256 is `expected_sha256`.
pub fn remove_path_block(old: &str, expected_sha256: &str) -> (r: Option<String>)
    ensures
        path_block_removed(old@, expected_sha256@, match r { Some(s) => Some(s@), None => None }),
{
    let chars = chars_of(old);
    let lines = split_inclusive_lines(chars.as_slice());
    let ghost gl = inclusive_lines(old@);
    let begin = chars_of("# >>> LazyDB installer >>>");
    let end = chars_of("# <<< LazyDB installer <<<");
    let starts = find_marker_lines(&lines, begin.as_slice(), Ghost(gl));
    let ends = find_marker_lines(&lines, end.as_slice(), Ghost(gl));
    if starts.len() != 1 || ends.len() != 1 || starts[0] >= ends[0] {
        return None;
    }
    let s = starts[0];
    let e = ends[0];
    proof {
        lemma_marker_lines_bounded(gl, end@, gl.len() as int);
        assert(marker_lines(gl, end@, gl.len() as int)[0] == e as int);
    }
    assert(e < lines.len());
    let mut block: Vec<char> = Vec::new();
    concat_lines(&lines, s, e + 1, Ghost(gl), &mut block);
    assert(block@ =~= concat_range(gl, s as int, e as int + 1));
    let block_text = string_from(block.as_slice());
    let digest = sha256(block_text.as_str().as_bytes());
    let mut actual = String::new();
    push_lower_hex(&mut actual, digest.as_slice());
    let actual_chars = chars_of(actual.as_str());
    let expected_chars = chars_of(expected_sha256);
    if !chars_equal(actual_chars.as_slice(), expected_chars.as_slice()) {
        return None;
    }
    let mut kept: Vec<char> = Vec::new();
    concat_lines(&lines, 0, s, Ghost(gl), &mut kept);
    concat_lines(&lines, e + 1, lines.len(), Ghost(gl), &mut kept);
    assert(kept@ =~= concat_range(gl, 0, s as int) + concat_range(gl, e as int + 1, gl.len() as int));
    Some(string_from(kept.as_slice()))
}

/// What happened when one planned entry was removed.
#[derive(Clone, Debug)]
pub enum RemovalOutcome {
    Removed,
    Missing,
    Failed(String),
}

/// What happened to the installer's PATH block in the shell profile.
#[derive(Clone, Debug)]
pub enum ProfileCleanup {
    Removed,
    Unchanged,
    Failed(String),
}

/// The status an action gets from its removal.
pub open spec fn outcome_status(o: RemovalOutcome) -> Seq<char> {
    match o {
        RemovalOutcome::Removed => "completed"@,
        RemovalOutcome::Missing => "skipped"@,
        RemovalOutcome::Failed(_) => "failed"@,
    }
}

/// Removal goes through the plan in order and stops at the first failure: every
/// outcome but the last is a success, and there is one outcome per planned action
/// unless the last one failed.
pub open spec fn outcomes_fit(planned: Seq<UninstallAction>, outcomes: Seq<RemovalOutcome>) -> bool {
    &&& outcomes.len() <= planned.len()
    &&& forall|i: int| 0 <= i < outcomes.len() - 1 ==> !(#[trigger] outcomes[i] is Failed)
    &&& (outcomes.len() == planned.len() || (outcomes.len() > 0 && outcomes.last() is Failed))
}

/// The report after removal: each attempted action with its outcome. A failure
/// ends the report there, as `failed`, with the error as its only warning.
/// Otherwise it is `complete`, with the shell profile cleanup as one more action
/// when the PATH block went, or a warning when it did not.
pub open spec fn executed(inst: Installation, planned: UninstallReport, outcomes: Seq<RemovalOutcome>,
    profile: Option<(String, ProfileCleanup)>, r: UninstallReport) -> bool {
    let n = outcomes.len() as int;
    let failed = n > 0 && outcomes.last() is Failed;
    &&& r.schema_version == 1
    &&& r.manager@ == "native"@
    &&& r.installation_root == Some(inst.root)
    &&& r.preserved == planned.preserved
    &&& forall|i: int| 0 <= i < n ==> {
        &&& (#[trigger] r.actions@[i]).kind == planned.actions@[i].kind
        &&& r.actions@[i].path == planned.actions@[i].path
        &&& r.actions@[i].reason == planned.actions@[i].reason
        &&& r.actions@[i].status@ == outcome_status(outcomes[i])
    }
    &&& failed ==> {
        &&& r.status@ == "failed"@
        &&& r.actions@.len() == n
        &&& r.warnings@.len() == 1
        &&& r.warnings@[0]@ == "failed to remove an installation entry: "@ + outcomes.last()->Failed_0@
    }
    &&& !failed ==> {
        &&& r.status@ == "complete"@
        &&& match profile {
            Some((path, ProfileCleanup::Removed)) => {
                &&& r.actions@.len() == n + 1
                &&& r.actions@[n].kind@ == "shell-profile"@
                &&& r.actions@[n].path == path
                &&& r.actions@[n].reason@ == "LazyDB installer PATH block"@
                &&& r.actions@[n].status@ == "completed"@
                &&& r.warnings == planned.warnings
            },
            Some((path, ProfileCleanup::Unchanged)) => {
                &&& r.actions@.len() == n
                &&& r.warnings@.len() == planned.warnings@.len() + 1
                &&& r.warnings@.take(planned.warnings@.len() as int) == planned.warnings@
                &&& r.warnings@.last()@ == "PATH configuration was not changed: "@ + path@
            },
            Some((_, ProfileCleanup::Failed(e))) => {
                &&& r.actions@.len() == n
                &&& r.warnings@.len() == planned.warnings@.len() + 1
                &&& r.warnings@.take(planned.warnings@.len() as int) == planned.warnings@
                &&& r.warnings@.last()@ == "could not update PATH configuration: "@ + e@
            },
            None => r.actions@.len() == n && r.warnings == planned.warnings,
        }
    }
}

fn with_prefix(prefix: &str, text: &str) -> (out: String)
    ensures
        out@ == prefix@ + text@,
{
    let mut out = owned(prefix);
    push_str(&mut out, text);
    out
}

/// Builds the report of an executed uninstall from the plan and what each removal
/// did, in order, and what became of the shell profile's PATH block.
pub fn execution_report(installation: &Installation, planned: UninstallReport, outcomes: &[RemovalOutcome],
    profile: Option<(String, ProfileCleanup)>) -> (r: UninstallReport)
    requires
        outcomes_fit(planned.actions@, outcomes@),
    ensures
        executed(*installation, planned, outcomes@, profile, r),
{
    let mut actions: Vec<UninstallAction> = Vec::new();
    let mut i: usize = 0;
    while i < outcomes.len()
        invariant
            i <= outcomes@.len() <= planned.actions@.len(),
            outcomes_fit(planned.actions@, outcomes@),
            actions@.len() == i,
            forall|k: int| 0 <= k < i ==> !(#[trigger] outcomes@[k] is Failed),
            forall|k: int| 0 <= k < i ==> {
                &&& (#[trigger] actions@[k]).kind == planned.actions@[k].kind
                &&& actions@[k].path == planned.actions@[k].path
                &&& actions@[k].reason == planned.actions@[k].reason
                &&& actions@[k].status@ == outcome_status(outcomes@[k])
            },
        decreases outcomes@.len() - i,
    {
        let item = &planned.actions[i];
        match &outcomes[i] {
            RemovalOutcome::Removed => {
                actions.push(action_with_status(item.kind, item.path.clone(), item.reason, "completed"));
            },
            RemovalOutcome::Missing => {
                actions.push(action_with_status(item.kind, item.path.clone(), item.reason, "skipped"));
            },
            RemovalOutcome::Failed(error) => {
                actions.push(action_with_status(item.kind, item.path.clone(), item.reason, "failed"));
                let mut warnings: Vec<String> = Vec::new();
                warnings.push(with_prefix("failed to remove an installation entry: ", error.as_str()));
                assert(i == outcomes@.len() - 1);
                return UninstallReport {
                    schema_version: 1,
                    status: "failed",
                    manager: "native",
                    installation_root: Some(installation.root.clone()),
                    actions,
                    preserved: planned.preserved,
                    warnings,
                };
            },
        }
        i = i + 1;
    }
    let mut warnings = planned.warnings;
    let ghost base = warnings@;
    match profile {
        Some((path, ProfileCleanup::Removed)) => {
            actions.push(action_with_status("shell-profile", path, "LazyDB installer PATH block", "completed"));
        },
        Some((path, ProfileCleanup::Unchanged)) => {
            warnings.push(with_prefix("PATH configuration was not changed: ", path.as_str()));
            assert(warnings@.take(base.len() as int) =~= base);
        },
        Some((_, ProfileCleanup::Failed(error))) => {
            warnings.push(with_prefix("could not update PATH configuration: ", error.as_str()));
            assert(warnings@.take(base.len() as int) =~= base);
        },
        None => {},
    }
    UninstallReport {
        schema_version: 1,
        status: "complete",
        manager: "native",
        installation_root: Some(installation.root.clone()),
        actions,
        preserved: planned.preserved,
        warnings,
    }
}

/// The report when no installation can be uninstalled: blocked, with the reason
/// as its only warning.
pub fn blocked_report(warning: String) -> (r: UninstallReport)
    ensures
        r.schema_version == 1,
        r.status@ == "blocked"@,
        r.manager@ == "unknown"@,
        r.installation_root is None,
        r.actions@.len() == 0,
        r.preserved@.len() == 0,
        r.warnings@ == seq![warning],
{
    let mut warnings: Vec<String> = Vec::new();
    warnings.push(warning);
    UninstallReport {
        schema_version: 1,
        status: "blocked",
        manager: "unknown",
        installation_root: None,
        actions: Vec::new(),
        preserved: Vec::new(),
        warnings,
    }
}

/// JSON output cannot ask for confirmation: it needs `--yes` or `--dry-run`.
pub fn json_consent(json: bool, dry_run: bool, yes: bool) -> (r: Result<(), &'static str>)
    ensures
        r is Ok <==> !(json && !dry_run && !yes),
        r matches Err(e) ==> e@ == "--json uninstall requires --yes or --dry-run"@,
{
    if json && !dry_run && !yes {
        Err("--json uninstall requires --yes or --dry-run")
    } else {
        Ok(())
    }
}

/// What the command does with its plan: report it as it is, ask first, or go
/// ahead and remove.
#[derive(Clone, Copy, Debug, PartialEq, Eq, Structural)]
pub enum AfterPlan {
    Report,
    Ask,
    Execute,
}

/// Only a plan is carried out, and not on a dry run; `--yes` skips the question.
pub fn after_plan(report: &UninstallReport, dry_run: bool, yes: bool) -> (r: AfterPlan)
    ensures
        r == if report.status@ != "planned"@ || dry_run {
            AfterPlan::Report
        } else if yes {
            AfterPlan::Execute
        } else {
            AfterPlan::Ask
        },
{
    if !crate::text::same_text(report.status, "planned") || dry_run {
        AfterPlan::Report
    } else if yes {
        AfterPlan::Execute
    } else {
        AfterPlan::Ask
    }
}

/// An answer agrees to the prompt when, trimmed of white space, it is `y` or
/// `yes` in any ASCII case.
pub open spec fn agrees(answer: Seq<char>) -> bool {
    let t = trim_end(trim_start(answer));
    ||| t.len() == 1 && (t[0] == 'y' || t[0] == 'Y')
    ||| t.len() == 3 && (t[0] == 'y' || t[0] == 'Y') && (t[1] == 'e' || t[1] == 'E') && (t[2] == 's' || t[2] == 'S')
}

/// Reads the answer to `Proceed with uninstall? [y/N]`.
pub fn confirms(answer: &str) -> (r: bool)
    ensures
        r == agrees(answer@),
{
    let chars = chars_of(answer);
    let start = count_leading_white(&chars);
    proof { lemma_leading_white_bound(chars@); }
    let rest = sub_chars(&chars, start, chars.len());
    assert(rest@ == trim_start(answer@));
    let kept = kept_length(&rest);
    proof { lemma_kept_bound(rest@); }
    let t = sub_chars(&rest, 0, kept);
    assert(t@ =~= trim_end(trim_start(answer@)));
    let y = t.len() > 0 && (t[0] == 'y' || t[0] == 'Y');
    (t.len() == 1 && y)
        || (t.len() == 3 && y && (t[1] == 'e' || t[1] == 'E') && (t[2] == 's' || t[2] == 'S'))
}

/// A report the user declined: the plan, marked cancelled.
pub fn cancel(report: &mut UninstallReport)
    ensures
        final(report).status@ == "cancelled"@,
        final(report).schema_version == old(report).schema_version,
        final(report).manager == old(report).manager,
        final(report).installation_root == old(report).installation_root,
        final(report).actions == old(report).actions,
        final(report).preserved == old(report).preserved,
        final(report).warnings == old(report).warnings,
{
    report.status = "cancelled";
}

/// What an uninstall does next: remove the planned entry at `index` (a release
/// directory with everything in it), or stop, then clean the shell profile when
/// no removal failed.
#[derive(Clone, Copy, Debug, PartialEq, Eq, Structural)]
pub enum RemovalStep {
    Remove { index: usize, whole_tree: bool },
    Finish { clean_profile: bool },
}

/// Removals so far: no more than planned, and none but the last failed.
pub open spec fn removals_under_way(planned: Seq<UninstallAction>, outcomes: Seq<RemovalOutcome>) -> bool {
    &&& outcomes.len() <= planned.len()
    &&& forall|i: int| 0 <= i < outcomes.len() - 1 ==> !(#[trigger] outcomes[i] is Failed)
}

/// The next step: stop after a failure or once every planned entry was tried,
/// otherwise remove the next planned entry.
pub open spec fn next_step(planned: Seq<UninstallAction>, outcomes: Seq<RemovalOutcome>) -> RemovalStep {
    let failed = outcomes.len() > 0 && outcomes.last() is Failed;
    if failed || outcomes.len() >= planned.len() {
        RemovalStep::Finish { clean_profile: !failed }
    } else {
        let index = outcomes.len() as int;
        RemovalStep::Remove { index: index as usize, whole_tree: planned[index].kind@ == "release"@ }
    }
}

/// Decides what the uninstall does after the removals done so far.
pub fn next_removal(planned: &UninstallReport, outcomes: &[RemovalOutcome]) -> (step: RemovalStep)
    requires
        removals_under_way(planned.actions@, outcomes@),
    ensures
        step == next_step(planned.actions@, outcomes@),
{
    let n = outcomes.len();
    let failed = n > 0 && match &outcomes[n - 1] {
        RemovalOutcome::Failed(_) => true,
        _ => false,
    };
    if failed || n >= planned.actions.len() {
        RemovalStep::Finish { clean_profile: !failed }
    } else {
        RemovalStep::Remove { index: n, whole_tree: removes_whole_tree(planned.actions[n].kind) }
    }
}

/// Law: following the steps keeps the removals under way, whatever each removal
/// gives; once they say to finish, the outcomes fit the plan, as
/// `execution_report` requires, and the profile is cleaned exactly when no
/// removal failed.
pub proof fn law_removal_steps_fit(planned: Seq<UninstallAction>, outcomes: Seq<RemovalOutcome>, outcome: RemovalOutcome)
    requires
        removals_under_way(planned, outcomes),
    ensures
        next_step(planned, outcomes) is Remove ==> removals_under_way(planned, outcomes.push(outcome)),
        next_step(planned, outcomes) is Finish ==> outcomes_fit(planned, outcomes),
        next_step(planned, outcomes) matches RemovalStep::Finish { clean_profile }
            ==> clean_profile == !(outcomes.len() > 0 && outcomes.last() is Failed),
{
    if next_step(planned, outcomes) is Remove {
        let pushed = outcomes.push(outcome);
        assert forall|i: int| 0 <= i < pushed.len() - 1 implies !(#[trigger] pushed[i] is Failed) by {
            assert(pushed[i] == outcomes[i]);
            if i == outcomes.len() - 1 {
                assert(outcomes.last() == outcomes[i]);
            }
        }
    }
}

/// Where a connection profile keeps its credential.
#[derive(Clone, Copy, Debug, PartialEq, Eq, Structural)]
pub enum CredentialStore {
    /// Nowhere, or in the profile's own encrypted file.
    Local,
    /// The operating system's credential store.
    System,
    /// The keyring.
    Keyring,
}

/// A profile's credential sits in a store `--purge` clears.
pub open spec fn held_outside(store: CredentialStore) -> bool {
    store == CredentialStore::System || store == CredentialStore::Keyring
}

/// The profiles whose credentials `--purge` removes: those kept in the system
/// store or the keyring, each once, in increasing order.
pub fn purged_credentials(profiles: &[(u128, CredentialStore)]) -> (ids: Vec<u128>)
    ensures
        forall|a: int, b: int| 0 <= a < b < ids@.len() ==> ids@[a] < ids@[b],
        forall|id: u128| ids@.contains(id) <==> exists|k: int| 0 <= k < profiles@.len()
            && #[trigger] profiles@[k].0 == id && held_outside(profiles@[k].1),
{
    let mut ids: Vec<u128> = Vec::new();
    let mut i: usize = 0;
    while i < profiles.len()
        invariant
            i <= profiles@.len(),
            forall|a: int, b: int| 0 <= a < b < ids@.len() ==> ids@[a] < ids@[b],
            forall|id: u128| ids@.contains(id) <==> exists|k: int| 0 <= k < i
                && #[trigger] profiles@[k].0 == id && held_outside(profiles@[k].1),
        decreases profiles@.len() - i,
    {
        let (id, store) = profiles[i];
        if store == CredentialStore::System || store == CredentialStore::Keyring {
            let mut at: usize = 0;
            while at < ids.len() && ids[at] < id
                invariant
                    at <= ids@.len(),
                    forall|a: int| 0 <= a < at ==> ids@[a] < id,
                decreases ids@.len() - at,
            {
                at = at + 1;
            }
            if at == ids.len() || ids[at] != id {
                let ghost before = ids@;
                ids.insert(at, id);
                assert(ids@ == before.insert(at as int, id));
                assert forall|a: int, b: int| 0 <= a < b < ids@.len() implies ids@[a] < ids@[b] by {
                    if b < at {
                    } else if a < at && b == at {
                    } else if a < at {
                        assert(before[a] < before[b - 1] || a == b - 1);
                        if a < b - 1 { assert(before[a] < before[b - 1]); }
                    } else if a == at {
                        assert(before[b - 1] >= id);
                        assert(before[b - 1] != id || at < before.len());
                        if at < before.len() {
                            assert(before[at as int] != id);
                            assert(before[at as int] >= id);
                            if b - 1 > at { assert(before[at as int] < before[b - 1]); }
                        }
                    } else {
                    }
                }
                assert forall|x: u128| ids@.contains(x) <==> exists|k: int| 0 <= k < i + 1
                    && #[trigger] profiles@[k].0 == x && held_outside(profiles@[k].1) by {
                    if ids@.contains(x) {
                        let j = choose|j: int| 0 <= j < ids@.len() && ids@[j] == x;
                        if j == at {
                            assert(profiles@[i as int].0 == x);
                        } else if j < at {
                            assert(before[j] == x);
                            assert(before.contains(x));
                        } else {
                            assert(before[j - 1] == x);
                            assert(before.contains(x));
                        }
                    }
                    if exists|k: int| 0 <= k < i + 1 && #[trigger] profiles@[k].0 == x && held_outside(profiles@[k].1) {
                        if x == id {
                            assert(ids@[at as int] == x);
                        } else {
                            assert(exists|k: int| 0 <= k < i && #[trigger] profiles@[k].0 == x && held_outside(profiles@[k].1));
                            assert(before.contains(x));
                            let j = choose|j: int| 0 <= j < before.len() && before[j] == x;
                            if j < at { assert(ids@[j] == x); } else { assert(ids@[j + 1] == x); }
                        }
                    }
                }
            } else {
                assert(ids@[at as int] == id);
                assert forall|x: u128| ids@.contains(x) <==> exists|k: int| 0 <= k < i + 1
                    && #[trigger] profiles@[k].0 == x && held_outside(profiles@[k].1) by {
                    if exists|k: int| 0 <= k < i + 1 && #[trigger] profiles@[k].0 == x && held_outside(profiles@[k].1) {
                        if x == id {
                            assert(ids@[at as int] == x);
                        } else {
                            assert(exists|k: int| 0 <= k < i && #[trigger] profiles@[k].0 == x && held_outside(profiles@[k].1));
                        }
                    }
                }
            }
        } else {
            assert forall|x: u128| ids@.contains(x) <==> exists|k: int| 0 <= k < i + 1
                && #[trigger] profiles@[k].0 == x && held_outside(profiles@[k].1) by {
                if exists|k: int| 0 <= k < i + 1 && #[trigger] profiles@[k].0 == x && held_outside(profiles@[k].1) {
                    assert(exists|k: int| 0 <= k < i && #[trigger] profiles@[k].0 == x && held_outside(profiles@[k].1));
                }
            }
        }
        i = i + 1;
    }
    ids
}

/// Law: an uninstall without `--purge` removes none of the user's data. Whatever
/// each removal did, the executed report keeps the six user files the plan
/// preserves, and none of its actions is a `data` removal.
pub proof fn law_plain_uninstall_keeps_user_data(inst: Installation, releases: Seq<String>, plan: UninstallReport,
    outcomes: Seq<RemovalOutcome>, profile: Option<(String, ProfileCleanup)>, r: UninstallReport)
    requires
        planned(inst, releases, false, plan),
        outcomes_fit(plan.actions@, outcomes),
        executed(inst, plan, outcomes, profile, r),
    ensures
        r.preserved == plan.preserved,
        r.preserved@.len() == 6,
        forall|i: int| 0 <= i < r.actions@.len() ==> (#[trigger] r.actions@[i]).kind@ != "data"@,
{
    reveal_strlit("data");
    reveal_strlit("launcher");
    reveal_strlit("current");
    reveal_strlit("state");
    reveal_strlit("release");
    reveal_strlit("shell-profile");
    let n = outcomes.len() as int;
    let failed = n > 0 && outcomes.last() is Failed;
    assert(plan.actions@.len() == 3 + releases.len());
    assert(n <= plan.actions@.len());
    assert(r.actions@.len() <= n + 1);
    assert(r.actions@.len() == n + 1 ==> r.actions@[n].kind@ == "shell-profile"@);
    assert forall|i: int| 0 <= i < r.actions@.len() implies (#[trigger] r.actions@[i]).kind@ != "data"@ by {
        if i < n {
            assert(r.actions@[i].kind == plan.actions@[i].kind);
            if i == 0 {
                assert(r.actions@[i].kind@.len() == 8);
            } else if i == 1 {
                assert(r.actions@[i].kind@.len() == 7);
            } else if i == 2 {
                assert(r.actions@[i].kind@.len() == 5);
            } else {
                let k = i - 3;
                assert(0 <= k < releases.len());
                assert(plan.actions@[3 + k].kind@ == "release"@);
                assert(r.actions@[i].kind@.len() == 7);
            }
        } else {
            assert(i == n);
            assert(r.actions@[i].kind@.len() == 13);
        }
        assert("data"@.len() == 4);
    }
}

/// How a planned entry is removed: release directories with everything in them,
/// anything else as a single entry.
pub fn removes_whole_tree(kind: &str) -> (r: bool)
    ensures
        r == (kind@ == "release"@),
{
    crate::text::same_text(kind, "release")
}

/// How a single entry is removed, by what it is on disk.
#[derive(Clone, Copy, Debug, PartialEq, Eq, Structural)]
pub enum EntryRemoval {
    RemoveFile,
    RemoveDir,
    Unsupported,
}

/// Links and files are unlinked, directories removed when empty; anything else
/// is refused.
pub fn entry_removal(is_symlink: bool, is_file: bool, is_dir: bool) -> (r: EntryRemoval)
    ensures
        r == (if is_symlink || is_file { EntryRemoval::RemoveFile } else if is_dir { EntryRemoval::RemoveDir } else { EntryRemoval::Unsupported }),
{
    if is_symlink || is_file {
        EntryRemoval::RemoveFile
    } else if is_dir {
        EntryRemoval::RemoveDir
    } else {
        EntryRemoval::Unsupported
    }
}

/// `Path::parent` of a path (its last component dropped), as text.
pub uninterp spec fn path_parent(p: Seq<char>) -> Option<Seq<char>>;

/// `Path::file_name` of a path (its last normal component), as text.
pub uninterp spec fn path_file_name(p: Seq<char>) -> Option<Seq<char>>;

/// Whether two paths are equal as `Path`s (component by component).
pub uninterp spec fn paths_equal(a: Seq<char>, b: Seq<char>) -> bool;

/// `Path::parent`.
#[verifier::external_body]
fn parent_of(p: &str) -> (r: Option<String>)
    ensures
        match r {
            Some(q) => path_parent(p@) == Some(q@),
            None => path_parent(p@) is None,
        },
{
    match std::path::Path::new(p).parent() {
        Some(q) => Some(q.to_string_lossy().into_owned()),
        None => None,
    }
}

/// `Path::file_name`.
#[verifier::external_body]
fn file_name_of(p: &str) -> (r: Option<String>)
    ensures
        match r {
            Some(q) => path_file_name(p@) == Some(q@),
            None => path_file_name(p@) is None,
        },
{
    match std::path::Path::new(p).file_name() {
        Some(q) => Some(q.to_string_lossy().into_owned()),
        None => None,
    }
}

/// `Path`'s `==`.
#[verifier::external_body]
fn same_path(a: &str, b: &str) -> (r: bool)
    ensures
        r == paths_equal(a@, b@),
{
    std::path::Path::new(a) == std::path::Path::new(b)
}

/// On Unix a path is absolute when it starts at the root.
pub open spec fn absolute(p: Seq<char>) -> bool {
    p.len() > 0 && p[0] == '/'
}

/// What reading and parsing a candidate's `install.json` gave.
#[derive(Clone, Debug)]
pub enum CandidateState {
    /// There is no `install.json`.
    Missing,
    /// It could not be read or parsed; the error text.
    Unreadable(String),
    /// The recorded manager (native or not), launcher and edited shell profiles.
    Recorded { native: bool, launcher: String, shell_profiles: Vec<ShellProfile> },
}

/// The installation metadata file of a candidate directory.
pub fn state_path(config_dir: &str) -> (r: String)
    ensures
        r@ == joined_path(config_dir@, "install.json"@),
{
    join_path(config_dir, "install.json")
}

/// Looks at a candidate's metadata: a native installation yields its launcher
/// and shell profiles; an unreadable or foreign one adds an error naming the file;
/// a missing one is passed over.
pub fn candidate_launcher(config_dir: &str, state: CandidateState, errors: &mut Vec<String>) -> (r: Option<(String, Vec<ShellProfile>)>)
    ensures
        match state {
            CandidateState::Missing => r is None && final(errors)@ == old(errors)@,
            CandidateState::Unreadable(e) => r is None && final(errors)@.len() == old(errors)@.len() + 1
                && final(errors)@.take(old(errors)@.len() as int) == old(errors)@
                && final(errors)@.last()@ == joined_path(config_dir@, "install.json"@) + ": "@ + e@,
            CandidateState::Recorded { native, launcher, shell_profiles } => if native {
                r == Some((launcher, shell_profiles)) && final(errors)@ == old(errors)@
            } else {
                r is None && final(errors)@.len() == old(errors)@.len() + 1
                    && final(errors)@.take(old(errors)@.len() as int) == old(errors)@
                    && final(errors)@.last()@ == joined_path(config_dir@, "install.json"@) + ": installation manager is not native"@
            },
        },
{
    let ghost before = errors@;
    match state {
        CandidateState::Missing => None,
        CandidateState::Unreadable(e) => {
            let mut message = state_path(config_dir);
            push_str(&mut message, ": ");
            push_str(&mut message, e.as_str());
            errors.push(message);
            assert(errors@.take(before.len() as int) =~= before);
            None
        },
        CandidateState::Recorded { native, launcher, shell_profiles } => {
            if native {
                Some((launcher, shell_profiles))
            } else {
                let mut message = state_path(config_dir);
                push_str(&mut message, ": installation manager is not native");
                errors.push(message);
                assert(errors@.take(before.len() as int) =~= before);
                None
            }
        },
    }
}

/// Where the launcher's link leads, relative targets taken from the launcher's
/// directory.
pub open spec fn link_destination(launcher: Seq<char>, target: Seq<char>) -> Seq<char> {
    if absolute(target) {
        target
    } else {
        joined_path(match path_parent(launcher) { Some(d) => d, None => "."@ }, target)
    }
}

/// The installation root behind a launcher whose link reads `link` (the target,
/// or the error reading it): the link must lead into a `current` directory, whose
/// parent is the root.
pub open spec fn root_behind(launcher: Seq<char>, link: Result<Seq<char>, Seq<char>>) -> Result<Seq<char>, Seq<char>> {
    match link {
        Err(e) => Err("native launcher "@ + launcher + " is not a readable symlink: "@ + e),
        Ok(target) => {
            let destination = link_destination(launcher, target);
            match path_parent(destination) {
                Some(current) if path_file_name(current) == Some("current"@) => match path_parent(current) {
                    Some(root) => Ok(root),
                    None => Err("native installation root is unavailable"@),
                },
                _ => Err("native launcher does not point through current: "@ + destination),
            }
        },
    }
}

fn starts_at_root(p: &str) -> (r: bool)
    ensures
        r == absolute(p@),
{
    let chars = chars_of(p);
    chars.len() > 0 && chars[0] == '/'
}

/// Finds the installation root behind the launcher.
pub fn installation_root(launcher: &str, link: Result<String, String>) -> (r: Result<String, String>)
    ensures
        match (r, link) {
            (Ok(root), Ok(target)) => root_behind(launcher@, Ok(target@)) == Ok::<Seq<char>, Seq<char>>(root@),
            (Err(e), Ok(target)) => root_behind(launcher@, Ok(target@)) == Err::<Seq<char>, Seq<char>>(e@),
            (Err(e), Err(error)) => root_behind(launcher@, Err(error@)) == Err::<Seq<char>, Seq<char>>(e@),
            (Ok(_), Err(_)) => false,
        },
{
    let target = match link {
        Err(error) => {
            let mut message = owned("native launcher ");
            push_str(&mut message, launcher);
            push_str(&mut message, " is not a readable symlink: ");
            push_str(&mut message, error.as_str());
            return Err(message);
        },
        Ok(target) => target,
    };
    let destination = if starts_at_root(target.as_str()) {
        target
    } else {
        match parent_of(launcher) {
            Some(dir) => join_path(dir.as_str(), target.as_str()),
            None => join_path(".", target.as_str()),
        }
    };
    let through_current = match parent_of(destination.as_str()) {
        Some(current) => match file_name_of(current.as_str()) {
            Some(name) => if crate::text::same_text(name.as_str(), "current") { Some(current) } else { None },
            None => None,
        },
        None => None,
    };
    match through_current {
        Some(current) => match parent_of(current.as_str()) {
            Some(root) => Ok(root),
            None => Err(owned("native installation root is unavailable")),
        },
        None => {
            let mut message = owned("native launcher does not point through current: ");
            push_str(&mut message, destination.as_str());
            Err(message)
        },
    }
}

/// The root is accepted only when it is the directory the metadata was found in
/// and it holds a `releases` directory.
pub fn accept_root(config_dir: &str, root: &str, releases_is_dir: bool) -> (r: Result<(), String>)
    ensures
        r is Ok <==> paths_equal(root@, config_dir@) && releases_is_dir,
        r matches Err(e) ==> e@ == "native installation root is not the recorded config directory: "@ + root@,
{
    if !same_path(root, config_dir) || !releases_is_dir {
        let mut message = owned("native installation root is not the recorded config directory: ");
        push_str(&mut message, root);
        return Err(message);
    }
    Ok(())
}

/// Errors joined with `; `.
pub open spec fn joined_errors(errors: Seq<String>) -> Seq<char>
    decreases errors.len(),
{
    if errors.len() == 0 {
        seq![]
    } else if errors.len() == 1 {
        errors[0]@
    } else {
        joined_errors(errors.drop_last()) + "; "@ + errors.last()@
    }
}

/// Why no installation was found: the candidates' errors, or that there was none.
pub fn no_installation(errors: &Vec<String>) -> (r: String)
    ensures
        r@ == if errors@.len() == 0 { "no native LazyDB installation was found"@ } else { joined_errors(errors@) },
{
    if errors.len() == 0 {
        return owned("no native LazyDB installation was found");
    }
    let mut out = String::new();
    let mut i: usize = 0;
    while i < errors.len()
        invariant
            i <= errors@.len(),
            out@ == joined_errors(errors@.take(i as int)),
        decreases errors@.len() - i,
    {
        assert(errors@.take(i as int + 1).drop_last() =~= errors@.take(i as int));
        if i > 0 {
            push_str(&mut out, "; ");
        }
        push_str(&mut out, errors[i].as_str());
        i = i + 1;
    }
    assert(errors@.take(i as int) =~= errors@);
    out
}

/// The report's line for an action.
pub open spec fn removal_line(a: UninstallAction) -> Seq<char> {
    "remove: "@ + a.path@ + " ("@ + a.reason@ + ")\n"@
}

/// A report reads, after its status line and the installation root (when
/// known), one line `remove: <path> (<reason>)` for each action in order, one
/// `preserve: <path>` line for each preserved path, and one `warning: <text>`
/// line for each warning: an action's path is never reported as preserved.
pub proof fn law_report_lists_each_removal_and_each_preserved_path(r: UninstallReport)
    ensures
        report_text(r) == "LazyDB uninstall "@ + r.status@ + "\n"@
            + (match r.installation_root { Some(root) => "installation root: "@ + root@ + "\n"@, None => seq![] })
            + Seq::new(r.actions@.len(), |k: int| removal_line(r.actions@[k])).flatten_alt()
            + Seq::new(r.preserved@.len(), |k: int| "preserve: "@ + r.preserved@[k]@ + "\n"@).flatten_alt()
            + Seq::new(r.warnings@.len(), |k: int| "warning: "@ + r.warnings@[k]@ + "\n"@).flatten_alt(),
{
    lemma_action_lines(r.actions@);
    lemma_prefixed_lines("preserve: "@, r.preserved@);
    lemma_prefixed_lines("warning: "@, r.warnings@);
}

proof fn lemma_action_lines(actions: Seq<UninstallAction>)
    ensures
        action_lines(actions) == Seq::new(actions.len(), |k: int| removal_line(actions[k])).flatten_alt(),
    decreases actions.len(),
{
    let lines = Seq::new(actions.len(), |k: int| removal_line(actions[k]));
    if actions.len() > 0 {
        lemma_action_lines(actions.drop_last());
        assert(lines.drop_last() =~= Seq::new(actions.drop_last().len(), |k: int| removal_line(actions.drop_last()[k])));
        assert(action_lines(actions) =~= action_lines(actions.drop_last()) + removal_line(actions.last()));
    } else {
        assert(lines.flatten_alt() =~= seq![]);
    }
}

proof fn lemma_prefixed_lines(prefix: Seq<char>, items: Seq<String>)
    ensures
        prefixed_lines(prefix, items) == Seq::new(items.len(), |k: int| prefix + items[k]@ + "\n"@).flatten_alt(),
    decreases items.len(),
{
    let lines = Seq::new(items.len(), |k: int| prefix + items[k]@ + "\n"@);
    if items.len() > 0 {
        lemma_prefixed_lines(prefix, items.drop_last());
        assert(lines.drop_last() =~= Seq::new(items.drop_last().len(), |k: int| prefix + items.drop_last()[k]@ + "\n"@));
        assert(prefixed_lines(prefix, items) =~= prefixed_lines(prefix, items.drop_last()) + (prefix + items.last()@ + "\n"@));
    } else {
        assert(lines.flatten_alt() =~= seq![]);
    }
}

} // verus!
