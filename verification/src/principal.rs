//! The access overview of a database user or role: section captions, fixed-width
//! cells and the rows of its permission and membership lists.
use vstd::prelude::*;
use crate::cells::{str_width, unicode_str_width};
use crate::text::{chars_of, string_from, owned, push_char, push_str};
use crate::theme::{Color, Theme};

verus! {

broadcast use vstd::string::group_string_axioms;

/// What kind of principal a tree node is.
#[derive(Clone, Copy, Debug, PartialEq, Eq, Structural)]
pub enum PrincipalDisplayKind {
    Group,
    User,
    Role,
}

/// The colour of a principal node: the `Users & Roles` group in the accent
/// colour, users in the action colour, roles in the column colour.
pub fn principal_node_color(kind: PrincipalDisplayKind, theme: &Theme) -> (c: Color)
    ensures
        c == match kind {
            PrincipalDisplayKind::Group => theme.accent,
            PrincipalDisplayKind::User => theme.action,
            PrincipalDisplayKind::Role => theme.syntax_column,
        },
{
    match kind {
        PrincipalDisplayKind::Group => theme.accent,
        PrincipalDisplayKind::User => theme.action,
        PrincipalDisplayKind::Role => theme.syntax_column,
    }
}

/// Which list of the access overview is shown.
#[derive(Clone, Copy, Debug, PartialEq, Eq, Structural)]
pub enum PrincipalAccessSection {
    Permissions,
    MemberOf,
    Members,
}

/// How a principal holds a permission.
#[derive(Clone, Copy, Debug, PartialEq, Eq, Structural)]
pub enum PrincipalPermissionSource {
    Direct,
    Public,
    Owner,
    Default,
    Inherited,
}

/// How much of a principal's access the server could report.
#[derive(Clone, Debug)]
pub enum PrincipalCoverage {
    Complete,
    Partial(String),
    Unavailable(String),
    Unsupported(String),
}

/// Where a principal is defined.
#[derive(Clone, Debug)]
pub enum PrincipalScope {
    Cluster,
    Server,
    Database(String),
}

/// One permission: what it is on, the privilege, and how it is held.
#[derive(Clone, Debug)]
pub struct PrincipalPermission {
    pub target: String,
    pub privilege: String,
    pub source_kind: PrincipalPermissionSource,
}

/// A role the principal belongs to.
#[derive(Clone, Debug)]
pub struct RoleGrant {
    pub role: String,
    pub admin_option: bool,
}

/// A member of the principal.
#[derive(Clone, Debug)]
pub struct RoleMember {
    pub member: String,
    pub admin_option: bool,
}

/// What is known of a principal's access.
#[derive(Clone, Debug)]
pub struct PrincipalDetails {
    pub permissions: Vec<PrincipalPermission>,
    pub member_of: Vec<RoleGrant>,
    pub members: Vec<RoleMember>,
}

/// Entries in `section` of `details`.
pub open spec fn section_len(section: PrincipalAccessSection, details: PrincipalDetails) -> int {
    match section {
        PrincipalAccessSection::Permissions => details.permissions@.len() as int,
        PrincipalAccessSection::MemberOf => details.member_of@.len() as int,
        PrincipalAccessSection::Members => details.members@.len() as int,
    }
}

/// The caption of a section and how many entries it has (none without details).
pub fn access_section_label(section: PrincipalAccessSection, details: Option<&PrincipalDetails>) -> (r: (&'static str, usize))
    ensures
        r.0@ == (match section {
            PrincipalAccessSection::Permissions => "Permissions"@,
            PrincipalAccessSection::MemberOf => "Member of"@,
            PrincipalAccessSection::Members => "Members"@,
        }),
        r.1 == (match details {
            Some(d) => section_len(section, *d),
            None => 0,
        }),
{
    let count = match details {
        Some(d) => match section {
            PrincipalAccessSection::Permissions => d.permissions.len(),
            PrincipalAccessSection::MemberOf => d.member_of.len(),
            PrincipalAccessSection::Members => d.members.len(),
        },
        None => 0,
    };
    let label = match section {
        PrincipalAccessSection::Permissions => "Permissions",
        PrincipalAccessSection::MemberOf => "Member of",
        PrincipalAccessSection::Members => "Members",
    };
    (label, count)
}

/// The caption of a permission source.
pub fn source_label(source: PrincipalPermissionSource) -> (r: &'static str)
    ensures
        r@ == source_caption(source),
{
    match source {
        PrincipalPermissionSource::Direct => "Direct",
        PrincipalPermissionSource::Public => "Public",
        PrincipalPermissionSource::Owner => "Owner",
        PrincipalPermissionSource::Default => "Default",
        PrincipalPermissionSource::Inherited => "Inherited",
    }
}

/// The coverage as shown: `Complete`, or the kind of gap and its reason.
pub open spec fn coverage_text(coverage: PrincipalCoverage) -> Seq<char> {
    match coverage {
        PrincipalCoverage::Complete => "Complete"@,
        PrincipalCoverage::Partial(reason) => "Partial: "@ + reason@,
        PrincipalCoverage::Unavailable(reason) => "Unavailable: "@ + reason@,
        PrincipalCoverage::Unsupported(reason) => "Unsupported: "@ + reason@,
    }
}

fn prefixed(prefix: &str, text: &str) -> (out: String)
    ensures
        out@ == prefix@ + text@,
{
    let mut out = owned(prefix);
    push_str(&mut out, text);
    out
}

/// The coverage caption.
pub fn coverage_label(coverage: &PrincipalCoverage) -> (r: String)
    ensures
        r@ == coverage_text(*coverage),
{
    match coverage {
        PrincipalCoverage::Complete => owned("Complete"),
        PrincipalCoverage::Partial(reason) => prefixed("Partial: ", reason.as_str()),
        PrincipalCoverage::Unavailable(reason) => prefixed("Unavailable: ", reason.as_str()),
        PrincipalCoverage::Unsupported(reason) => prefixed("Unsupported: ", reason.as_str()),
    }
}

/// The scope caption: `cluster`, `server` or `database:<name>`.
pub fn principal_scope(scope: &PrincipalScope) -> (r: String)
    ensures
        r@ == (match *scope {
            PrincipalScope::Cluster => "cluster"@,
            PrincipalScope::Server => "server"@,
            PrincipalScope::Database(name) => "database:"@ + name@,
        }),
{
    match scope {
        PrincipalScope::Cluster => owned("cluster"),
        PrincipalScope::Server => owned("server"),
        PrincipalScope::Database(name) => prefixed("database:", name.as_str()),
    }
}

/// A line break or tab shown as a space.
pub open spec fn flat_char(c: char) -> char {
    if c == '\n' || c == '\t' { ' ' } else { c }
}

/// `s` with line breaks and tabs turned into spaces.
pub open spec fn flattened(s: Seq<char>) -> Seq<char> {
    Seq::new(s.len(), |i: int| flat_char(s[i]))
}

/// Columns a character takes when measured as a string of its own.
pub open spec fn single_cells(c: char) -> int {
    unicode_str_width(seq![c]) as int
}

/// Columns of the first `n` characters, each measured on its own.
pub open spec fn prefix_cells(s: Seq<char>, n: int) -> int
    decreases n,
{
    if n <= 0 { 0 } else { prefix_cells(s, n - 1) + single_cells(s[n - 1]) }
}

/// `n` leading characters fit in `limit` columns, and one more would not.
pub open spec fn shorten_fit(s: Seq<char>, n: int, limit: int) -> bool {
    &&& 0 <= n <= s.len()
    &&& prefix_cells(s, n) <= limit
    &&& (n == s.len() || prefix_cells(s, n + 1) > limit)
}

proof fn lemma_prefix_cells_monotone(s: Seq<char>, i: int, j: int)
    requires
        0 <= i <= j,
    ensures
        prefix_cells(s, i) <= prefix_cells(s, j),
    decreases j - i,
{
    if i < j {
        lemma_prefix_cells_monotone(s, i, j - 1);
    }
}

proof fn lemma_shorten_fit_unique(s: Seq<char>, n: int, m: int, limit: int)
    requires
        shorten_fit(s, n, limit),
        shorten_fit(s, m, limit),
    ensures
        n == m,
{
    if n < m {
        lemma_prefix_cells_monotone(s, n + 1, m);
    } else if m < n {
        lemma_prefix_cells_monotone(s, m + 1, n);
    }
}

/// `k` spaces.
pub open spec fn spaces(k: int) -> Seq<char> {
    Seq::new(if k < 0 { 0nat } else { k as nat }, |i: int| ' ')
}

/// `value` in a cell exactly `width` columns wide (when its characters allow):
/// line breaks and tabs become spaces, text that is too wide is cut before the
/// first character that would overflow and ends with `…`, and spaces pad the rest.
pub open spec fn shortened(value: Seq<char>, width: int) -> Seq<char> {
    if width == 0 {
        seq![]
    } else {
        let t = flattened(value);
        let truncated = unicode_str_width(t) > width;
        let content = if truncated { width - 1 } else { width };
        let n = choose|n: int| shorten_fit(t, n, content);
        let used = prefix_cells(t, n) + if truncated { 1int } else { 0int };
        t.take(n) + (if truncated { seq!['…'] } else { Seq::<char>::empty() }) + spaces(width - used)
    }
}

fn single_width(c: char) -> (w: usize)
    ensures
        w == single_cells(c),
        w <= 3,
{
    let mut one = String::new();
    push_char(&mut one, c);
    assert(one@ =~= seq![c]);
    str_width(one.as_str())
}

/// Fits `value` into a cell of `width` columns (see `shortened`). The text is
/// expected to be free of terminal control sequences already.
pub fn shorten(value: &str, width: usize) -> (r: String)
    ensures
        r@ == shortened(value@, width as int),
{
    let chars = chars_of(value);
    let mut flat: Vec<char> = Vec::new();
    let mut i: usize = 0;
    while i < chars.len()
        invariant
            chars@ == value@,
            i <= chars@.len(),
            flat@ == flattened(value@).take(i as int),
        decreases chars@.len() - i,
    {
        let c = chars[i];
        flat.push(if c == '\n' || c == '\t' { ' ' } else { c });
        i = i + 1;
        assert(flat@ =~= flattened(value@).take(i as int));
    }
    assert(flat@ =~= flattened(value@));
    let mut result = String::new();
    if width == 0 {
        assert(result@ =~= Seq::<char>::empty());
        return result;
    }
    let flat_text = string_from(flat.as_slice());
    let value_width = str_width(flat_text.as_str());
    let truncated = value_width > width;
    let content: usize = if truncated { width - 1 } else { width };
    let mut used: usize = 0;
    let mut n: usize = 0;
    while n < flat.len()
        invariant
            n <= flat@.len(),
            used == prefix_cells(flat@, n as int),
            used <= content,
            result@ == flat@.take(n as int),
        ensures
            n <= flat@.len(),
            used == prefix_cells(flat@, n as int),
            used <= content,
            result@ == flat@.take(n as int),
            n == flat@.len() || prefix_cells(flat@, n as int + 1) > content,
        decreases flat@.len() - n,
    {
        let w = single_width(flat[n]);
        if w > content - used {
            break;
        }
        push_char(&mut result, flat[n]);
        used = used + w;
        n = n + 1;
        assert(result@ =~= flat@.take(n as int));
    }
    let ghost t = flat@;
    proof {
        assert(shorten_fit(t, n as int, content as int));
        assert forall|m: int| #[trigger] shorten_fit(t, m, content as int) implies m == n by {
            lemma_shorten_fit_unique(t, m, n as int, content as int);
        }
    }
    let ghost kept = result@;
    if truncated {
        push_char(&mut result, '…');
        used = used + 1;
    }
    let ghost body = result@;
    let mut pad: usize = 0;
    let ghost start = used;
    while used < width
        invariant
            start <= used <= width,
            pad == used - start,
            result@ == body + spaces(pad as int),
        decreases width - used,
    {
        push_char(&mut result, ' ');
        used = used + 1;
        pad = pad + 1;
        assert(result@ =~= body + spaces(pad as int));
    }
    assert(body =~= kept + (if truncated { seq!['…'] } else { Seq::<char>::empty() }));
    assert(pad == width - (prefix_cells(t, n as int) + if truncated { 1int } else { 0int }));
    assert(flat_text@ == flattened(value@));
    result
}

/// Column widths of the permission table at a given width: the target takes
/// what the fixed privilege and origin columns leave.
#[derive(Clone, Copy, Debug, PartialEq, Eq, Structural)]
pub struct PermissionColumnWidths {
    pub target: usize,
    pub privilege: usize,
    pub origin: usize,
}

/// Narrowest overview that shows permissions as a table.
pub const PERMISSION_TABLE_MIN_WIDTH: u16 = 56;

pub fn permission_column_widths(width: u16) -> (r: PermissionColumnWidths)
    ensures
        r.target == (if width < 30 { 0 } else { width - 30 }),
        r.privilege == 15,
        r.origin == 9,
{
    PermissionColumnWidths { target: width.saturating_sub(30) as usize, privilege: 15, origin: 9 }
}

/// The heading above a section's list.
pub open spec fn header_text(section: PrincipalAccessSection, width: u16) -> Seq<char> {
    match section {
        PrincipalAccessSection::Permissions => if width >= PERMISSION_TABLE_MIN_WIDTH {
            "  "@ + shortened("Target"@, width - 30) + "  "@ + shortened("Privilege"@, 15) + "  "@ + shortened("Origin"@, 9)
        } else {
            "  Entry"@
        },
        PrincipalAccessSection::MemberOf => "  Role                                           Admin option"@,
        PrincipalAccessSection::Members => "  Member                                         Admin option"@,
    }
}

/// The heading above a section's list.
pub fn access_header(section: PrincipalAccessSection, width: u16) -> (r: String)
    ensures
        r@ == header_text(section, width),
{
    match section {
        PrincipalAccessSection::Permissions => {
            if width >= PERMISSION_TABLE_MIN_WIDTH {
                let columns = permission_column_widths(width);
                let mut out = owned("  ");
                push_str(&mut out, shorten("Target", columns.target).as_str());
                push_str(&mut out, "  ");
                push_str(&mut out, shorten("Privilege", columns.privilege).as_str());
                push_str(&mut out, "  ");
                push_str(&mut out, shorten("Origin", columns.origin).as_str());
                out
            } else {
                owned("  Entry")
            }
        },
        PrincipalAccessSection::MemberOf => owned("  Role                                           Admin option"),
        PrincipalAccessSection::Members => owned("  Member                                         Admin option"),
    }
}

/// A row of a section's list: the permission table's cells, or one line of text.
#[derive(Clone, Debug)]
pub enum AccessLine {
    Columns {
        prefix: String,
        target: String,
        privilege: String,
        origin: String,
        source: PrincipalPermissionSource,
    },
    Plain(String),
}

/// The marker in front of a row: `>` when it is selected.
pub open spec fn marker(selected: bool) -> Seq<char> {
    if selected { ">"@ } else { " "@ }
}

/// The text of a membership row: the name in 42 columns, then whether it carries
/// the admin option.
pub open spec fn membership_text(selected: bool, name: Seq<char>, admin: bool) -> Seq<char> {
    marker(selected) + " "@ + shortened(name, 42) + "  "@ + (if admin { "ADMIN"@ } else { "-"@ })
}

/// Row `index` of `section` shows: wide permission lists are a table of target,
/// privilege and origin cells; other rows are one line cut to the width.
pub open spec fn access_row_text(section: PrincipalAccessSection, details: PrincipalDetails, index: int, width: u16, selected: bool, line: AccessLine) -> bool {
    let line_width = if width < 1 { 0int } else { width - 1 };
    match line {
        AccessLine::Columns { prefix, target, privilege, origin, source } => {
            let p = details.permissions@[index];
            &&& section == PrincipalAccessSection::Permissions
            &&& width >= PERMISSION_TABLE_MIN_WIDTH
            &&& prefix@ == marker(selected) + " "@
            &&& target@ == shortened(p.target@, width - 30)
            &&& privilege@ == shortened(p.privilege@, 15)
            &&& origin@ == shortened(source_caption(p.source_kind), 9)
            &&& source == p.source_kind
        },
        AccessLine::Plain(text) => {
            let base = match section {
                PrincipalAccessSection::Permissions => {
                    let p = details.permissions@[index];
                    let target_width = if line_width < unicode_str_width(p.target@) { line_width } else { unicode_str_width(p.target@) as int };
                    marker(selected) + " "@ + shortened(p.target@, target_width)
                },
                PrincipalAccessSection::MemberOf => {
                    let m = details.member_of@[index];
                    membership_text(selected, m.role@, m.admin_option)
                },
                PrincipalAccessSection::Members => {
                    let m = details.members@[index];
                    membership_text(selected, m.member@, m.admin_option)
                },
            };
            &&& !(section == PrincipalAccessSection::Permissions && width >= PERMISSION_TABLE_MIN_WIDTH)
            &&& text@ == shortened(base, line_width)
        },
    }
}

/// The caption of a permission source.
pub open spec fn source_caption(source: PrincipalPermissionSource) -> Seq<char> {
    match source {
        PrincipalPermissionSource::Direct => "Direct"@,
        PrincipalPermissionSource::Public => "Public"@,
        PrincipalPermissionSource::Owner => "Owner"@,
        PrincipalPermissionSource::Default => "Default"@,
        PrincipalPermissionSource::Inherited => "Inherited"@,
    }
}

fn membership_line(selected: bool, name: &str, admin: bool) -> (out: String)
    ensures
        out@ == membership_text(selected, name@, admin),
{
    let mut out = owned(if selected { ">" } else { " " });
    push_str(&mut out, " ");
    push_str(&mut out, shorten(name, 42).as_str());
    push_str(&mut out, "  ");
    push_str(&mut out, if admin { "ADMIN" } else { "-" });
    out
}

/// Row `index` of `section` in an overview `width` columns wide.
pub fn access_line(section: PrincipalAccessSection, details: &PrincipalDetails, index: usize, width: u16, selected: bool) -> (r: AccessLine)
    requires
        index < section_len(section, *details),
    ensures
        access_row_text(section, *details, index as int, width, selected, r),
{
    let prefix = if selected { ">" } else { " " };
    if section == PrincipalAccessSection::Permissions && width >= PERMISSION_TABLE_MIN_WIDTH {
        let permission = &details.permissions[index];
        let columns = permission_column_widths(width);
        let source = source_label(permission.source_kind);
        let mut lead = owned(prefix);
        push_str(&mut lead, " ");
        return AccessLine::Columns {
            prefix: lead,
            target: shorten(permission.target.as_str(), columns.target),
            privilege: shorten(permission.privilege.as_str(), columns.privilege),
            origin: shorten(source, columns.origin),
            source: permission.source_kind,
        };
    }
    let line_width = width.saturating_sub(1) as usize;
    let base = match section {
        PrincipalAccessSection::Permissions => {
            let p = &details.permissions[index];
            let target_cells = str_width(p.target.as_str());
            let target_width = if line_width < target_cells { line_width } else { target_cells };
            let mut out = owned(prefix);
            push_str(&mut out, " ");
            push_str(&mut out, shorten(p.target.as_str(), target_width).as_str());
            out
        },
        PrincipalAccessSection::MemberOf => {
            let m = &details.member_of[index];
            membership_line(selected, m.role.as_str(), m.admin_option)
        },
        PrincipalAccessSection::Members => {
            let m = &details.members[index];
            membership_line(selected, m.member.as_str(), m.admin_option)
        },
    };
    AccessLine::Plain(shorten(base.as_str(), line_width))
}

} // verus!
