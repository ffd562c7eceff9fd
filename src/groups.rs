//! Rendering of the group column.
use crate::cell::TextCell;
use crate::decimal::{decimal, decimal_text};
use ansiterm::Style;
use uzers::os::unix::GroupExt;
use uzers::{Groups, Users};
use vstd::prelude::*;

verus! {

/// The group id recorded on a filesystem entry.
#[derive(Clone, Copy, Debug, PartialEq, Eq, Structural)]
pub struct Group(pub u32);

/// Whether the column shows a group's name or its numeric id.
#[derive(Clone, Copy, Debug, PartialEq, Eq, Structural)]
pub enum UserFormat {
    Name,
    Numeric,
}

/// What the group database holds for one group.
pub struct GroupRecord {
    /// The group's own id, as the database gives it.
    pub gid: u32,
    /// The group's name, or `None` where it is not valid text.
    pub name: Option<String>,
    /// The names of the users listed as members of the group.
    pub members: Vec<Vec<u8>>,
}

/// The identity of the user that views the listing.
pub struct CurrentUser {
    pub uid: u32,
    pub name: Vec<u8>,
    pub primary_group: u32,
}

/// The four styles of the group column.
#[derive(Clone, Copy, Debug, PartialEq, Eq, Structural)]
pub enum GroupStyle {
    Yours,
    NotYours,
    NoGroup,
    RootGroup,
}

/// The rendered column before painting: which style, and what text.
pub struct GroupCell {
    pub style: GroupStyle,
    pub text: String,
}

/// The styles that a theme gives to the four kinds of group cell. Each style
/// method always returns the same value, named by its spec function.
pub trait Colours {
    spec fn yours_style(&self) -> Style;

    spec fn not_yours_style(&self) -> Style;

    spec fn no_group_style(&self) -> Style;

    spec fn root_group_style(&self) -> Style;

    fn yours(&self) -> (r: Style)
        ensures
            r == self.yours_style(),
    ;

    fn not_yours(&self) -> (r: Style)
        ensures
            r == self.not_yours_style(),
    ;

    fn no_group(&self) -> (r: Style)
        ensures
            r == self.no_group_style(),
    ;

    fn root_group(&self) -> (r: Style)
        ensures
            r == self.root_group_style(),
    ;
}

/// The style that `colours` gives to a cell of kind `s`.
pub open spec fn painted<C: Colours>(colours: &C, s: GroupStyle) -> Style {
    match s {
        GroupStyle::Yours => colours.yours_style(),
        GroupStyle::NotYours => colours.not_yours_style(),
        GroupStyle::NoGroup => colours.no_group_style(),
        GroupStyle::RootGroup => colours.root_group_style(),
    }
}

/// `name` is listed among `members`.
pub open spec fn is_member(members: Seq<Vec<u8>>, name: Seq<u8>) -> bool {
    exists|i: int| 0 <= i < members.len() && #[trigger] members[i]@ == name
}

/// The viewer's relation to `rec`: the group is theirs by primary group or membership.
pub open spec fn belongs_to(user: CurrentUser, rec: GroupRecord) -> bool {
    user.primary_group == rec.gid || is_member(rec.members@, user.name@)
}

/// The style of the cell of `group`, where the database answered `record` for it
/// and `current` for the viewer.
pub open spec fn style_of(
    group: Option<Group>,
    record: Option<GroupRecord>,
    current: Option<CurrentUser>,
) -> GroupStyle {
    match group {
        None => GroupStyle::NoGroup,
        Some(_) => match record {
            None => GroupStyle::NotYours,
            Some(rec) => if rec.gid == 0 {
                GroupStyle::RootGroup
            } else if current is Some && belongs_to(current->0, rec) {
                GroupStyle::Yours
            } else {
                GroupStyle::NotYours
            },
        },
    }
}

/// The text of the cell of `group`, where the database answered `record` for it.
pub open spec fn text_of(
    group: Option<Group>,
    record: Option<GroupRecord>,
    format: UserFormat,
) -> Seq<char> {
    match group {
        None => Seq::empty(),
        Some(g) => match record {
            None => decimal(g.0 as nat),
            Some(rec) => match format {
                UserFormat::Name => match rec.name {
                    Some(n) => n@,
                    None => Seq::empty(),
                },
                UserFormat::Numeric => decimal(rec.gid as nat),
            },
        },
    }
}

fn same_bytes(a: &Vec<u8>, b: &Vec<u8>) -> (r: bool)
    ensures
        r == (a@ == b@),
{
    if a.len() != b.len() {
        return false;
    }
    let mut i: usize = 0;
    while i < a.len()
        invariant
            a@.len() == b@.len(),
            0 <= i <= a@.len(),
            forall|j: int| 0 <= j < i ==> a@[j] == b@[j],
        decreases a.len() - i,
    {
        if a[i] != b[i] {
            return false;
        }
        i += 1;
    }
    assert(a@ =~= b@);
    true
}

fn listed(members: &Vec<Vec<u8>>, name: &Vec<u8>) -> (r: bool)
    ensures
        r == is_member(members@, name@),
{
    let mut i: usize = 0;
    while i < members.len()
        invariant
            0 <= i <= members@.len(),
            forall|j: int| 0 <= j < i ==> (#[trigger] members@[j])@ != name@,
        decreases members.len() - i,
    {
        if same_bytes(&members[i], name) {
            return true;
        }
        i += 1;
    }
    false
}

/// Decides the cell of `group`, given what the database answered: `record`
/// for the group and `current` for the viewer.
pub fn group_cell(
    group: Option<Group>,
    record: Option<GroupRecord>,
    current: Option<CurrentUser>,
    format: UserFormat,
) -> (r: GroupCell)
    ensures
        r.style == style_of(group, record, current),
        r.text@ == text_of(group, record, format),
{
    let g = match group {
        None => {
            return GroupCell { style: GroupStyle::NoGroup, text: String::new() };
        },
        Some(g) => g,
    };
    let rec = match record {
        None => {
            return GroupCell { style: GroupStyle::NotYours, text: decimal_text(g.0) };
        },
        Some(rec) => rec,
    };
    let mut style = GroupStyle::NotYours;
    match &current {
        Some(user) => {
            if user.primary_group == rec.gid || listed(&rec.members, &user.name) {
                style = GroupStyle::Yours;
            }
        },
        None => {},
    }
    if rec.gid == 0 {
        style = GroupStyle::RootGroup;
    }
    let text = match format {
        UserFormat::Name => match rec.name {
            Some(n) => n,
            None => String::new(),
        },
        UserFormat::Numeric => decimal_text(rec.gid),
    };
    GroupCell { style, text }
}

/// A group that the database does not know is shown by its id, in the
/// "not yours" style, whichever format is asked for and whoever views it.
pub proof fn lemma_unresolved_shows_id(
    g: Group,
    current: Option<CurrentUser>,
    f1: UserFormat,
    f2: UserFormat,
)
    ensures
        text_of(Some(g), None, f1) == text_of(Some(g), None, f2),
        text_of(Some(g), None, f1) == decimal(g.0 as nat),
        style_of(Some(g), None, current) == GroupStyle::NotYours,
{
}

/// An entry without a group is shown blank in the "no group" style, whatever
/// the format and whatever the database holds.
pub proof fn lemma_no_group_is_blank(
    record: Option<GroupRecord>,
    current: Option<CurrentUser>,
    format: UserFormat,
)
    ensures
        text_of(None, record, format) == Seq::<char>::empty(),
        style_of(None, record, current) == GroupStyle::NoGroup,
{
}

/// A resolved group whose id is 0 always takes the "root group" style, even
/// where it is the viewer's primary group or lists the viewer as a member.
pub proof fn lemma_root_group_wins(g: Group, rec: GroupRecord, current: Option<CurrentUser>)
    requires
        rec.gid == 0,
    ensures
        style_of(Some(g), Some(rec), current) == GroupStyle::RootGroup,
{
}

/// A resolved group other than root that is the viewer's primary group takes
/// the "yours" style.
pub proof fn lemma_primary_group_is_yours(g: Group, rec: GroupRecord, user: CurrentUser)
    requires
        rec.gid != 0,
        user.primary_group == rec.gid,
    ensures
        style_of(Some(g), Some(rec), Some(user)) == GroupStyle::Yours,
{
}

/// A resolved group other than root that lists the viewer's name among its
/// members takes the "yours" style, whatever the viewer's primary group.
pub proof fn lemma_member_is_yours(g: Group, rec: GroupRecord, user: CurrentUser, i: int)
    requires
        rec.gid != 0,
        0 <= i < rec.members@.len(),
        rec.members@[i]@ == user.name@,
    ensures
        style_of(Some(g), Some(rec), Some(user)) == GroupStyle::Yours,
{
}

/// Deciding a cell twice from the same inputs gives the same style and text:
/// `group_cell` keeps no state between calls.
pub proof fn lemma_group_cell_deterministic(
    group: Option<Group>,
    record: Option<GroupRecord>,
    current: Option<CurrentUser>,
    format: UserFormat,
    a: GroupCell,
    b: GroupCell,
)
    requires
        a.style == style_of(group, record, current),
        a.text@ == text_of(group, record, format),
        b.style == style_of(group, record, current),
        b.text@ == text_of(group, record, format),
    ensures
        a.style == b.style,
        a.text@ == b.text@,
{
}

/// Relies on uzers' `Groups::get_group_by_gid`: the database's record for
/// `gid`, or `None` where it has none. The name is kept where it is valid
/// text; the members are kept as the bytes of their names.
#[verifier::external_body]
fn lookup_group<U: Groups>(users: &U, gid: u32) -> Option<GroupRecord> {
    users.get_group_by_gid(gid).map(
        |g| GroupRecord {
            gid: g.gid(),
            name: g.name().to_str().map(String::from),
            members: g.members().iter().map(|m| m.as_encoded_bytes().to_vec()).collect(),
        },
    )
}

/// Relies on uzers' `Users::get_effective_uid`: the effective user id of the
/// process.
#[verifier::external_body]
fn effective_uid<U: Users>(users: &U) -> u32 {
    users.get_effective_uid()
}

/// Relies on uzers' `Users::get_user_by_uid`: the database's record for
/// `uid`, or `None` where it has none, as its id, the bytes of its name and
/// its primary group.
#[verifier::external_body]
fn user_by_uid<U: Users>(users: &U, uid: u32) -> Option<CurrentUser> {
    users.get_user_by_uid(uid).map(
        |u| CurrentUser {
            uid: u.uid(),
            name: u.name().as_encoded_bytes().to_vec(),
            primary_group: u.primary_group_id(),
        },
    )
}

/// Rendering of a value as the group column.
pub trait Render {
    fn render<C: Colours, U: Users + Groups>(
        self,
        colours: &C,
        users: &U,
        format: UserFormat,
    ) -> TextCell;
}

impl Render for Option<Group> {
    /// Looks the group up in `users` (and, where it is found, the effective
    /// user as the viewer), decides the cell with `group_cell`, and paints it
    /// with `colours`.
    fn render<C: Colours, U: Users + Groups>(
        self,
        colours: &C,
        users: &U,
        format: UserFormat,
    ) -> (r: TextCell)
        ensures
            self is None ==> r.text@ == Seq::<char>::empty(),
            self is None ==> r.style == colours.no_group_style(),
            exists|record: Option<GroupRecord>, current: Option<CurrentUser>|
                r.text@ == #[trigger] text_of(self, record, format) && r.style == #[trigger] painted(
                    colours,
                    style_of(self, record, current),
                ),
    {
        let record = match self {
            Some(g) => lookup_group(users, g.0),
            None => None,
        };
        let current = if record.is_some() {
            user_by_uid(users, effective_uid(users))
        } else {
            None
        };
        let ghost answered = record;
        let ghost viewer = current;
        let cell = group_cell(self, record, current, format);
        let style = match cell.style {
            GroupStyle::Yours => colours.yours(),
            GroupStyle::NotYours => colours.not_yours(),
            GroupStyle::NoGroup => colours.no_group(),
            GroupStyle::RootGroup => colours.root_group(),
        };
        assert(cell.text@ == text_of(self, answered, format));
        assert(style == painted(colours, style_of(self, answered, viewer)));
        TextCell::paint(style, cell.text)
    }
}

} // verus!
