//! The reply: every rendered fragment and every static field of the member,
//! each with its fallback text, put together into one payload.

use crate::guild::{presence_held, roles_held, GuildSnapshot, MemberRecord};
use crate::presence::{
    presence_rendered, query_wanted, render_presence, search_queries, PresenceText,
    SearchOutcome,
};
use crate::roles::{summarize_roles, summary_of, RoleSummary, RoleSummaryView};
use crate::text::{decimal, decimal_text, opt_text};
use chrono::DateTime;
use std::fmt::Write;
use vstd::prelude::*;
use vstd::string::*;

verus! {

/// The assembled reply.
#[derive(Clone, Debug)]
pub struct RenderResult {
    pub author_name: String,
    pub author_icon: String,
    pub thumbnail: Option<String>,
    pub color: u32,
    pub body: String,
    /// The role hierarchy could not be looked up and the fallback texts
    /// stand in the body; the caller may log this.
    pub hierarchy_unavailable: bool,
}

pub struct RenderView {
    pub author_name: Seq<char>,
    pub author_icon: Seq<char>,
    pub thumbnail: Option<Seq<char>>,
    pub color: u32,
    pub body: Seq<char>,
    pub hierarchy_unavailable: bool,
}

impl View for RenderResult {
    type V = RenderView;

    open spec fn view(&self) -> RenderView {
        RenderView {
            author_name: self.author_name@,
            author_icon: self.author_icon@,
            thumbnail: opt_text(self.thumbnail),
            color: self.color,
            body: self.body@,
            hierarchy_unavailable: self.hierarchy_unavailable,
        }
    }
}

/// The pattern in which dates are written, such as
/// "Friday, May 15, 2015 @ 12:00 am".
pub open spec fn date_pattern() -> Seq<char> {
    "%A, %B %e, %Y @ %l:%M %P"@
}

/// What chrono writes for the UTC time `secs` seconds after the Unix epoch
/// under `pattern`; none where it has no such time or cannot write it.
pub uninterp spec fn formatted_time(secs: i64, pattern: Seq<char>) -> Option<Seq<char>>;

/// A date as shown, with the fallback for one that is not at hand.
pub open spec fn date_shown(formatted: Option<Seq<char>>) -> Seq<char> {
    match formatted {
        Some(s) => s,
        None => "Unavailable"@,
    }
}

/// The join date as shown.
pub open spec fn joined_shown(joined_at: Option<i64>) -> Seq<char> {
    match joined_at {
        Some(t) => date_shown(formatted_time(t, date_pattern())),
        None => "Unavailable"@,
    }
}

/// The nickname as shown.
pub open spec fn nickname_shown(nickname: Option<String>) -> Seq<char> {
    match nickname {
        Some(n) => n@,
        None => "No nickname has been set."@,
    }
}

/// The account type as shown.
pub open spec fn account_type(bot: bool) -> Seq<char> {
    if bot {
        "Bot"@
    } else {
        "User"@
    }
}

/// The two sections of static fields.
pub open spec fn static_part(member: MemberRecord, roles: RoleSummaryView) -> Seq<char> {
    "**__User Information__**:\n**Type**: "@ + account_type(member.bot) + "\n**Tag**: "@
        + member.tag@ + "\n**ID**: "@ + decimal(member.user_id as nat) + "\n**Creation Date**: "@
        + date_shown(formatted_time(member.created_at, date_pattern()))
        + "\n\n**__Guild-related Information__**:\n**Join Date**: "@ + joined_shown(
        member.joined_at,
    ) + "\n**Nickname**: "@ + nickname_shown(member.nickname) + "\n**Display Color**: "@
        + roles.display_color_hex + "\n**Main Role**: "@ + roles.highest_role_name
        + "\n**Roles ("@ + decimal(roles.role_count) + ")**: "@ + roles.role_names_text
}

/// The reply put together from its fragments.
pub open spec fn assembled(
    member: MemberRecord,
    status: Seq<char>,
    activities: Seq<char>,
    thumbnail: Option<Seq<char>>,
    roles: RoleSummaryView,
) -> RenderView {
    RenderView {
        author_name: member.name@,
        author_icon: member.avatar_url@,
        thumbnail,
        color: roles.display_color,
        body: status + activities + static_part(member, roles),
        hierarchy_unavailable: roles.hierarchy_unavailable,
    }
}

/// The reply for the member at position `m` of the guild's member table.
pub open spec fn rendered(guild: GuildSnapshot, m: int, outcomes: Seq<SearchOutcome>) -> RenderView {
    let member = guild.members@[m];
    let text = presence_rendered(member.name@, presence_held(guild, member.user_id), outcomes);
    assembled(
        member,
        text.0,
        text.1,
        text.2,
        summary_of(roles_held(guild.roles@, member.role_ids@)),
    )
}

/// Formats a time with chrono: `DateTime::from_timestamp` for the seconds,
/// then the `Display` of `DateTime::format` for the pattern. `None` where
/// chrono has no such time or reports an error while writing.
#[verifier::external_body]
fn format_timestamp(secs: i64, pattern: &str) -> (r: Option<String>)
    ensures
        opt_text(r) == formatted_time(secs, pattern@),
{
    let time = DateTime::from_timestamp(secs, 0)?;
    let mut out = String::new();
    match write!(out, "{}", time.format(pattern)) {
        Ok(()) => Some(out),
        Err(_) => None,
    }
}

/// A formatted date, or "Unavailable" where there is none.
pub fn date_or_unavailable(formatted: Option<String>) -> (r: String)
    ensures
        r@ == date_shown(opt_text(formatted)),
{
    match formatted {
        Some(s) => s,
        None => String::from_str("Unavailable"),
    }
}

/// Writes a time, given in seconds since the Unix epoch, in the reply's date
/// pattern.
pub fn date_text(secs: i64) -> (r: String)
    ensures
        r@ == date_shown(formatted_time(secs, date_pattern())),
{
    date_or_unavailable(format_timestamp(secs, "%A, %B %e, %Y @ %l:%M %P"))
}

/// Writes the two sections of static fields. Every field is written; one
/// without a value gets its fallback text.
pub fn static_section(member: &MemberRecord, roles: &RoleSummary) -> (r: String)
    ensures
        r@ == static_part(*member, roles@),
{
    let mut out = String::from_str("**__User Information__**:\n**Type**: ");
    out.append(if member.bot { "Bot" } else { "User" });
    out.append("\n**Tag**: ");
    out.append(member.tag.as_str());
    out.append("\n**ID**: ");
    out.append(decimal_text(member.user_id).as_str());
    out.append("\n**Creation Date**: ");
    out.append(date_text(member.created_at).as_str());
    out.append("\n\n**__Guild-related Information__**:\n**Join Date**: ");
    match member.joined_at {
        Some(t) => {
            out.append(date_text(t).as_str());
        },
        None => {
            out.append("Unavailable");
        },
    }
    out.append("\n**Nickname**: ");
    match &member.nickname {
        Some(n) => {
            out.append(n.as_str());
        },
        None => {
            out.append("No nickname has been set.");
        },
    }
    out.append("\n**Display Color**: ");
    out.append(roles.display_color_hex.as_str());
    out.append("\n**Main Role**: ");
    out.append(roles.highest_role_name.as_str());
    out.append("\n**Roles (");
    out.append(decimal_text(roles.role_count as u64).as_str());
    out.append(")**: ");
    out.append(roles.role_names_text.as_str());
    out
}

/// Puts the reply together: the presence sentence, then the static fields;
/// the header from the member, the colour from the roles, the thumbnail from
/// the presence.
pub fn assemble(member: &MemberRecord, presence: PresenceText, roles: &RoleSummary) -> (r:
    RenderResult)
    ensures
        r@ == assembled(
            *member,
            presence.status@,
            presence.activities@,
            opt_text(presence.thumbnail),
            roles@,
        ),
{
    let mut body = presence.status;
    body.append(presence.activities.as_str());
    body.append(static_section(member, roles).as_str());
    RenderResult {
        author_name: member.name.clone(),
        author_icon: member.avatar_url.clone(),
        thumbnail: presence.thumbnail,
        color: roles.display_color,
        body,
        hierarchy_unavailable: roles.hierarchy_unavailable,
    }
}

/// Lists the searches to make before the member at position `m` can be
/// rendered: for each activity of the member's presence the query to hand to
/// the track search, or none where the activity calls for no search. A
/// member without a presence needs none.
pub fn queries_for(guild: &GuildSnapshot, m: usize) -> (r: Vec<Option<String>>)
    requires
        m < guild.members@.len(),
    ensures
        match presence_held(*guild, guild.members@[m as int].user_id) {
            Some(p) => r@.len() == p.activities@.len() && forall|i: int|
                0 <= i < r@.len() ==> opt_text(#[trigger] r@[i]) == query_wanted(p.activities@[i]),
            None => r@.len() == 0,
        },
{
    match guild.find_presence(guild.members[m].user_id) {
        Some(i) => search_queries(&guild.presences[i].presence),
        None => Vec::new(),
    }
}

/// Renders the reply for one member of the guild. `outcomes` holds, at the
/// position of each of the member's activities, what the track search gave
/// for it.
pub fn render_user_info(guild: &GuildSnapshot, m: usize, outcomes: &Vec<SearchOutcome>) -> (r:
    RenderResult)
    requires
        m < guild.members@.len(),
    ensures
        r@ == rendered(*guild, m as int, outcomes@),
{
    let member = &guild.members[m];
    let presence = match guild.find_presence(member.user_id) {
        Some(i) => Some(&guild.presences[i].presence),
        None => None,
    };
    let text = render_presence(member.name.as_str(), presence, outcomes);
    let held = guild.member_roles(&member.role_ids);
    let roles = summarize_roles(held.as_ref());
    assemble(member, text, &roles)
}

/// Rendering depends on nothing but the snapshot, the member and the search
/// outcomes: two replies rendered from the same data are the same, in every
/// part.
pub proof fn rendering_is_repeatable(
    guild: GuildSnapshot,
    m: int,
    outcomes: Seq<SearchOutcome>,
    first: RenderResult,
    second: RenderResult,
)
    requires
        0 <= m < guild.members@.len(),
        first@ == rendered(guild, m, outcomes),
        second@ == rendered(guild, m, outcomes),
    ensures
        first@ == second@,
        first.body@ == second.body@,
        first.author_name@ == second.author_name@,
        first.author_icon@ == second.author_icon@,
        opt_text(first.thumbnail) == opt_text(second.thumbnail),
        first.color == second.color,
        first.hierarchy_unavailable == second.hierarchy_unavailable,
{
}

/// For a member without a presence record the body is the static fields
/// alone, every one of them, and there is no thumbnail.
pub proof fn absent_presence_keeps_fields(guild: GuildSnapshot, m: int, outcomes: Seq<SearchOutcome>)
    requires
        0 <= m < guild.members@.len(),
        presence_held(guild, guild.members@[m].user_id).is_none(),
    ensures
        rendered(guild, m, outcomes).body == static_part(
            guild.members@[m],
            summary_of(roles_held(guild.roles@, guild.members@[m].role_ids@)),
        ),
        rendered(guild, m, outcomes).thumbnail.is_none(),
{
    let member = guild.members@[m];
    let fields = static_part(member, summary_of(roles_held(guild.roles@, member.role_ids@)));
    assert(Seq::<char>::empty() + Seq::<char>::empty() + fields =~= fields);
}

} // verus!
