//! A read-only snapshot of a guild and the resolution of a command's target
//! to one of its members.

use crate::presence::Presence;
use crate::roles::RoleInfo;
use vstd::prelude::*;
use vstd::string::*;

verus! {

/// One member of the guild together with the account behind it.
#[derive(Clone, Debug)]
pub struct MemberRecord {
    pub user_id: u64,
    pub name: String,
    pub tag: String,
    pub bot: bool,
    pub avatar_url: String,
    /// When the account was created, in seconds since the Unix epoch.
    pub created_at: i64,
    /// When the member joined the guild, where that was recorded.
    pub joined_at: Option<i64>,
    pub nickname: Option<String>,
    pub role_ids: Vec<u64>,
}

/// The presence of one user.
#[derive(Clone, Debug)]
pub struct PresenceRecord {
    pub user_id: u64,
    pub presence: Presence,
}

/// The state of a guild at the time of a command. Each table is searched
/// from the front, so the first record with an identifier is the one found.
#[derive(Clone, Debug)]
pub struct GuildSnapshot {
    pub members: Vec<MemberRecord>,
    pub roles: Vec<RoleInfo>,
    pub presences: Vec<PresenceRecord>,
}

/// Whom a command is about.
#[derive(Clone, Debug)]
pub enum TargetSpec {
    /// The user mentioned first in the message.
    Mention(u64),
    /// A name or tag typed after the command.
    FreeText(String),
    /// Nothing: the invoker.
    Empty,
}

/// Why no member could be determined.
#[derive(Clone, Copy, Debug, PartialEq, Eq, Structural)]
pub enum ResolutionError {
    /// The command was not invoked in a guild.
    NoGuild,
    /// The guild has no snapshot.
    GuildUnknown,
    /// The guild has no record of the member.
    MemberUnknown,
}

/// The outcome of a resolution that did not fail.
#[derive(Clone, Copy, Debug, PartialEq, Eq, Structural)]
pub enum Resolution {
    /// The member at this position of the guild's member table.
    Member(usize),
    /// The typed name matched nobody: the command ends without a reply.
    Silent,
}

/// `i` is the first position of `id` in `ids`.
pub open spec fn is_first(ids: Seq<u64>, id: u64, i: int) -> bool {
    &&& 0 <= i < ids.len()
    &&& ids[i] == id
    &&& forall|j: int| 0 <= j < i ==> ids[j] != id
}

/// The first position of `id` in `ids`, if it occurs.
pub open spec fn position(ids: Seq<u64>, id: u64) -> Option<int> {
    if exists|i: int| is_first(ids, id, i) {
        Some(choose|i: int| is_first(ids, id, i))
    } else {
        None
    }
}

/// An identifier has at most one first position.
pub proof fn first_unique(ids: Seq<u64>, id: u64, i: int, j: int)
    requires
        is_first(ids, id, i),
        is_first(ids, id, j),
    ensures
        i == j,
{
}

/// What a search from the front has established: `found`, where it is a
/// position, is the first position of `id`; where it is none, `id` does not
/// occur at all.
pub proof fn position_found(ids: Seq<u64>, id: u64, found: Option<int>)
    requires
        match found {
            Some(i) => is_first(ids, id, i),
            None => forall|j: int| 0 <= j < ids.len() ==> ids[j] != id,
        },
    ensures
        position(ids, id) == found,
{
    match found {
        Some(i) => {
            first_unique(ids, id, i, choose|k: int| is_first(ids, id, k));
        },
        None => {
            assert forall|k: int| !is_first(ids, id, k) by {}
        },
    }
}

pub open spec fn member_ids(members: Seq<MemberRecord>) -> Seq<u64> {
    Seq::new(members.len(), |i: int| members[i].user_id)
}

pub open spec fn role_ids(roles: Seq<RoleInfo>) -> Seq<u64> {
    Seq::new(roles.len(), |i: int| roles[i].id)
}

pub open spec fn presence_ids(presences: Seq<PresenceRecord>) -> Seq<u64> {
    Seq::new(presences.len(), |i: int| presences[i].user_id)
}

/// No identifier occurs twice.
pub open spec fn keyed(ids: Seq<u64>) -> bool {
    forall|i: int, j: int| 0 <= i < j < ids.len() ==> ids[i] != ids[j]
}

impl GuildSnapshot {
    /// Each table holds one record for an identifier: members and presences
    /// are keyed by the user, roles by the role.
    pub open spec fn well_formed(&self) -> bool {
        &&& keyed(member_ids(self.members@))
        &&& keyed(role_ids(self.roles@))
        &&& keyed(presence_ids(self.presences@))
    }
}

/// In a keyed table the record found for an identifier is the only record
/// with it: a position is the one found exactly when the identifier stands
/// there.
pub proof fn keyed_lookup_finds_the_record(ids: Seq<u64>, id: u64, i: int)
    requires
        keyed(ids),
        0 <= i < ids.len(),
    ensures
        position(ids, id) == Some(i) <==> ids[i] == id,
{
    if ids[i] == id {
        assert(is_first(ids, id, i));
        position_found(ids, id, Some(i));
    } else if position(ids, id) == Some(i) {
        assert(is_first(ids, id, i));
    }
}

/// Every role identifier of the list has a record in the role table.
pub open spec fn roles_known(table: Seq<RoleInfo>, ids: Seq<u64>) -> bool {
    forall|k: int| 0 <= k < ids.len() ==> position(role_ids(table), #[trigger] ids[k]).is_some()
}

/// The records of the roles in the list, in the list's order; none where a
/// record is missing.
pub open spec fn roles_held(table: Seq<RoleInfo>, ids: Seq<u64>) -> Option<Seq<RoleInfo>> {
    if roles_known(table, ids) {
        Some(Seq::new(ids.len(), |k: int| table[position(role_ids(table), ids[k]).unwrap()]))
    } else {
        None
    }
}

/// The presence on record for a user.
pub open spec fn presence_held(guild: GuildSnapshot, user_id: u64) -> Option<Presence> {
    match position(presence_ids(guild.presences@), user_id) {
        Some(i) => Some(guild.presences@[i].presence),
        None => None,
    }
}

/// A position as a mathematical integer.
pub open spec fn as_int(o: Option<usize>) -> Option<int> {
    match o {
        Some(i) => Some(i as int),
        None => None,
    }
}

/// `t` is the target that a message names: its first mention, else the text
/// typed after the command, else nobody.
pub open spec fn names_target(t: TargetSpec, mentions: Seq<u64>, free_text: Seq<char>) -> bool {
    if mentions.len() > 0 {
        t == TargetSpec::Mention(mentions[0])
    } else if free_text.len() == 0 {
        t == TargetSpec::Empty
    } else {
        t matches TargetSpec::FreeText(s) && s@ == free_text
    }
}

/// The user to look up in the member table, where the target calls for a
/// lookup: the mentioned user, the invoker, or the user that the typed name
/// matched.
pub open spec fn user_sought(target: TargetSpec, invoker: u64, name_match: Option<u64>) -> Option<
    u64,
> {
    match target {
        TargetSpec::Mention(id) => Some(id),
        TargetSpec::Empty => Some(invoker),
        TargetSpec::FreeText(_) => name_match,
    }
}

/// What resolving a target gives.
pub open spec fn resolved(
    in_guild: bool,
    guild: Option<&GuildSnapshot>,
    target: TargetSpec,
    invoker: u64,
    name_match: Option<u64>,
) -> Result<Resolution, ResolutionError> {
    if !in_guild {
        Err(ResolutionError::NoGuild)
    } else {
        match guild {
            None => Err(ResolutionError::GuildUnknown),
            Some(g) => match user_sought(target, invoker, name_match) {
                None => Ok(Resolution::Silent),
                Some(id) => match position(member_ids(g.members@), id) {
                    Some(i) => Ok(Resolution::Member(i as usize)),
                    None => Err(ResolutionError::MemberUnknown),
                },
            },
        }
    }
}

/// Reads the target off a message: only the first mention counts; without a
/// mention, empty text means the invoker.
pub fn target_of(mentions: &Vec<u64>, free_text: &str) -> (r: TargetSpec)
    ensures
        names_target(r, mentions@, free_text@),
{
    if mentions.len() > 0 {
        TargetSpec::Mention(mentions[0])
    } else if free_text.unicode_len() == 0 {
        TargetSpec::Empty
    } else {
        TargetSpec::FreeText(String::from_str(free_text))
    }
}

impl GuildSnapshot {
    /// The position of a user's member record.
    pub fn find_member(&self, user_id: u64) -> (r: Option<usize>)
        ensures
            as_int(r) == position(member_ids(self.members@), user_id),
            r matches Some(i) ==> i < self.members@.len() && self.members@[i as int].user_id
                == user_id,
    {
        let mut i: usize = 0;
        while i < self.members.len()
            invariant
                i <= self.members.len(),
                forall|j: int| 0 <= j < i ==> self.members@[j].user_id != user_id,
            decreases self.members.len() - i,
        {
            if self.members[i].user_id == user_id {
                proof {
                    position_found(member_ids(self.members@), user_id, Some(i as int));
                }
                return Some(i);
            }
            i += 1;
        }
        proof {
            position_found(member_ids(self.members@), user_id, None);
        }
        None
    }

    /// The position of a role's record.
    pub fn find_role(&self, role_id: u64) -> (r: Option<usize>)
        ensures
            as_int(r) == position(role_ids(self.roles@), role_id),
            r matches Some(i) ==> i < self.roles@.len() && self.roles@[i as int].id == role_id,
    {
        let mut i: usize = 0;
        while i < self.roles.len()
            invariant
                i <= self.roles.len(),
                forall|j: int| 0 <= j < i ==> self.roles@[j].id != role_id,
            decreases self.roles.len() - i,
        {
            if self.roles[i].id == role_id {
                proof {
                    position_found(role_ids(self.roles@), role_id, Some(i as int));
                }
                return Some(i);
            }
            i += 1;
        }
        proof {
            position_found(role_ids(self.roles@), role_id, None);
        }
        None
    }

    /// The position of a user's presence record.
    pub fn find_presence(&self, user_id: u64) -> (r: Option<usize>)
        ensures
            as_int(r) == position(presence_ids(self.presences@), user_id),
            r matches Some(i) ==> i < self.presences@.len() && self.presences@[i as int].user_id
                == user_id,
    {
        let mut i: usize = 0;
        while i < self.presences.len()
            invariant
                i <= self.presences.len(),
                forall|j: int| 0 <= j < i ==> self.presences@[j].user_id != user_id,
            decreases self.presences.len() - i,
        {
            if self.presences[i].user_id == user_id {
                proof {
                    position_found(presence_ids(self.presences@), user_id, Some(i as int));
                }
                return Some(i);
            }
            i += 1;
        }
        proof {
            position_found(presence_ids(self.presences@), user_id, None);
        }
        None
    }
}

impl GuildSnapshot {
    /// The records of a member's roles, in the order of the member's list.
    /// `None` where the role table lacks one of them.
    pub fn member_roles(&self, ids: &Vec<u64>) -> (r: Option<Vec<RoleInfo>>)
        ensures
            match r {
                Some(v) => roles_held(self.roles@, ids@) == Some(v@),
                None => roles_held(self.roles@, ids@).is_none(),
            },
    {
        let mut held: Vec<RoleInfo> = Vec::new();
        let mut k: usize = 0;
        while k < ids.len()
            invariant
                k <= ids.len(),
                held@.len() == k,
                forall|j: int|
                    0 <= j < k ==> {
                        let at = position(role_ids(self.roles@), #[trigger] ids@[j]);
                        at.is_some() && held@[j] == self.roles@[at.unwrap()]
                    },
            decreases ids.len() - k,
        {
            match self.find_role(ids[k]) {
                Some(i) => {
                    let role = &self.roles[i];
                    held.push(
                        RoleInfo {
                            id: role.id,
                            name: role.name.clone(),
                            rank: role.rank,
                            color: role.color,
                        },
                    );
                },
                None => {
                    return None;
                },
            }
            k += 1;
        }
        proof {
            assert(roles_known(self.roles@, ids@));
            assert(held@ =~= Seq::new(
                ids@.len(),
                |k: int| self.roles@[position(role_ids(self.roles@), ids@[k]).unwrap()],
            ));
        }
        Some(held)
    }
}

/// Resolves the target of a command to a member of the guild.
///
/// `name_match` is what the name matcher found for the typed text; it is
/// read only for a free-text target. A typed name that matches nobody is no
/// error: the command ends silently.
pub fn resolve_member(
    in_guild: bool,
    guild: Option<&GuildSnapshot>,
    target: &TargetSpec,
    invoker: u64,
    name_match: Option<u64>,
) -> (r: Result<Resolution, ResolutionError>)
    ensures
        r == resolved(in_guild, guild, *target, invoker, name_match),
        r matches Ok(Resolution::Member(i)) ==> guild.is_some() && i < guild.unwrap().members@.len()
            && Some(guild.unwrap().members@[i as int].user_id) == user_sought(
            *target,
            invoker,
            name_match,
        ),
{
    if !in_guild {
        return Err(ResolutionError::NoGuild);
    }
    let g = match guild {
        Some(g) => g,
        None => {
            return Err(ResolutionError::GuildUnknown);
        },
    };
    let sought = match target {
        TargetSpec::Mention(id) => Some(*id),
        TargetSpec::Empty => Some(invoker),
        TargetSpec::FreeText(_) => name_match,
    };
    match sought {
        None => Ok(Resolution::Silent),
        Some(id) => match g.find_member(id) {
            Some(i) => Ok(Resolution::Member(i)),
            None => Err(ResolutionError::MemberUnknown),
        },
    }
}

/// A command ends silently only where a name was typed and matched nobody;
/// a mention or an empty target never does.
pub proof fn silent_only_for_unmatched_name(
    in_guild: bool,
    guild: Option<&GuildSnapshot>,
    target: TargetSpec,
    invoker: u64,
    name_match: Option<u64>,
)
    ensures
        resolved(in_guild, guild, target, invoker, name_match) == Ok::<
            Resolution,
            ResolutionError,
        >(Resolution::Silent) <==> in_guild && guild.is_some() && target is FreeText
            && name_match.is_none(),
{
}

} // verus!
