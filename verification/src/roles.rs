//! A member's roles: which one ranks highest, which one colours the name,
//! and how the list reads.

use crate::text::{join_texts, joined, lowercase_text, lowercased, texts};
use serenity::model::Colour;
use vstd::prelude::*;
use vstd::string::*;

verus! {

/// The colour used where no role supplies one.
pub const NO_COLOR: u32 = 0x00FF_FFFF;

/// One role of the guild, as far as rendering needs it.
#[derive(Clone, Debug)]
pub struct RoleInfo {
    pub id: u64,
    pub name: String,
    pub rank: i64,
    pub color: Option<u32>,
}

/// What is shown of a member's roles.
#[derive(Clone, Debug)]
pub struct RoleSummary {
    pub display_color: u32,
    pub display_color_hex: String,
    pub role_names_text: String,
    pub role_count: usize,
    pub highest_role_name: String,
    /// The role hierarchy could not be looked up; the caller may log this.
    pub hierarchy_unavailable: bool,
}

pub struct RoleSummaryView {
    pub display_color: u32,
    pub display_color_hex: Seq<char>,
    pub role_names_text: Seq<char>,
    pub role_count: nat,
    pub highest_role_name: Seq<char>,
    pub hierarchy_unavailable: bool,
}

impl View for RoleSummary {
    type V = RoleSummaryView;

    open spec fn view(&self) -> RoleSummaryView {
        RoleSummaryView {
            display_color: self.display_color,
            display_color_hex: self.display_color_hex@,
            role_names_text: self.role_names_text@,
            role_count: self.role_count as nat,
            highest_role_name: self.highest_role_name@,
            hierarchy_unavailable: self.hierarchy_unavailable,
        }
    }
}

/// Whether a role takes part: every role does for rank, only coloured ones
/// for the display colour.
pub open spec fn counts(role: RoleInfo, coloured: bool) -> bool {
    !coloured || role.color.is_some()
}

/// Among the first `n` roles, the one at `i` has the greatest rank of those
/// that take part, and is the first of that rank.
pub open spec fn is_top_within(roles: Seq<RoleInfo>, n: int, i: int, coloured: bool) -> bool {
    &&& 0 <= i < n <= roles.len()
    &&& counts(roles[i], coloured)
    &&& forall|j: int| 0 <= j < n && counts(#[trigger] roles[j], coloured) ==> roles[j].rank <= roles[i].rank
    &&& forall|j: int| 0 <= j < i && counts(#[trigger] roles[j], coloured) ==> roles[j].rank < roles[i].rank
}

/// The role at `i` is the top role of the whole list.
pub open spec fn is_top(roles: Seq<RoleInfo>, i: int, coloured: bool) -> bool {
    is_top_within(roles, roles.len() as int, i, coloured)
}

/// The position of the top role, where any role takes part.
pub open spec fn top_of(roles: Seq<RoleInfo>, coloured: bool) -> Option<int> {
    if exists|i: int| is_top(roles, i, coloured) {
        Some(choose|i: int| is_top(roles, i, coloured))
    } else {
        None
    }
}

/// A list of roles has at most one top role.
pub proof fn top_unique(roles: Seq<RoleInfo>, i: int, j: int, coloured: bool)
    requires
        is_top(roles, i, coloured),
        is_top(roles, j, coloured),
    ensures
        i == j,
{
    if i < j {
        assert(roles[i].rank < roles[j].rank);
        assert(roles[j].rank <= roles[i].rank);
    } else if j < i {
        assert(roles[j].rank < roles[i].rank);
        assert(roles[i].rank <= roles[j].rank);
    }
}

/// The names of the roles, in the order given.
pub open spec fn role_names(roles: Seq<RoleInfo>) -> Seq<Seq<char>> {
    Seq::new(roles.len(), |i: int| roles[i].name@)
}

/// The role names separated by " / ", or the fallback where that is blank.
pub open spec fn names_text(roles: Seq<RoleInfo>) -> Seq<char> {
    let all = joined(role_names(roles), " / "@);
    if all.len() == 0 {
        "No roles available."@
    } else {
        all
    }
}

/// The character that stands for a hexadecimal digit, in upper case.
pub open spec fn hex_digit(d: nat) -> char {
    if d == 0 {
        '0'
    } else if d == 1 {
        '1'
    } else if d == 2 {
        '2'
    } else if d == 3 {
        '3'
    } else if d == 4 {
        '4'
    } else if d == 5 {
        '5'
    } else if d == 6 {
        '6'
    } else if d == 7 {
        '7'
    } else if d == 8 {
        '8'
    } else if d == 9 {
        '9'
    } else if d == 10 {
        'A'
    } else if d == 11 {
        'B'
    } else if d == 12 {
        'C'
    } else if d == 13 {
        'D'
    } else if d == 14 {
        'E'
    } else {
        'F'
    }
}

/// The upper-case hexadecimal numeral of `n`, without leading zeros.
pub open spec fn upper_hex(n: nat) -> Seq<char>
    decreases n,
{
    if n < 16 {
        seq![hex_digit(n)]
    } else {
        upper_hex(n / 16) + seq![hex_digit(n % 16)]
    }
}

/// `s` with zeros in front until it is `width` long.
pub open spec fn zero_padded(s: Seq<char>, width: nat) -> Seq<char> {
    if s.len() >= width {
        s
    } else {
        Seq::new((width - s.len()) as nat, |i: int| '0') + s
    }
}

/// How a display colour reads in the reply.
pub open spec fn hex_shown(color: u32) -> Seq<char> {
    "#"@ + lowercased(zero_padded(upper_hex(color as nat), 6))
}

/// The roles of a list that may be missing.
pub open spec fn roles_view(roles: Option<&Vec<RoleInfo>>) -> Option<Seq<RoleInfo>> {
    match roles {
        Some(rs) => Some(rs@),
        None => None,
    }
}

/// What is shown of the roles. `None` stands for a hierarchy that could not
/// be looked up.
pub open spec fn summary_of(roles: Option<Seq<RoleInfo>>) -> RoleSummaryView {
    match roles {
        None => RoleSummaryView {
            display_color: NO_COLOR,
            display_color_hex: "No display color available."@,
            role_names_text: "No roles available."@,
            role_count: 0,
            highest_role_name: "No main role available."@,
            hierarchy_unavailable: true,
        },
        Some(rs) => RoleSummaryView {
            display_color: match top_of(rs, true) {
                Some(i) => rs[i].color.unwrap(),
                None => NO_COLOR,
            },
            display_color_hex: match top_of(rs, true) {
                Some(i) => hex_shown(rs[i].color.unwrap()),
                None => "No display color available."@,
            },
            role_names_text: names_text(rs),
            role_count: rs.len(),
            highest_role_name: match top_of(rs, false) {
                Some(i) => rs[i].name@,
                None => "No roles available."@,
            },
            hierarchy_unavailable: false,
        },
    }
}

/// Formats a colour with `serenity::model::Colour::hex`: the value in
/// upper-case hexadecimal, padded with zeros to six digits.
#[verifier::external_body]
fn colour_hex(value: u32) -> (r: String)
    ensures
        r@ == zero_padded(upper_hex(value as nat), 6),
{
    Colour::new(value).hex()
}

/// Puts the `#` in front of a colour's lower-case numeral.
pub fn hex_label(lowered: &str) -> (r: String)
    ensures
        r@ == "#"@ + lowered@,
{
    let mut out = String::from_str("#");
    out.append(lowered);
    out
}

/// Finds the top role: the role of greatest rank, the first of them where
/// several share it. With `coloured` set, only roles that carry a colour
/// take part. `None` is returned exactly when no role takes part.
pub fn top_role(roles: &Vec<RoleInfo>, coloured: bool) -> (r: Option<usize>)
    ensures
        match r {
            Some(i) => is_top(roles@, i as int, coloured) && top_of(roles@, coloured) == Some(
                i as int,
            ),
            None => top_of(roles@, coloured).is_none() && forall|j: int|
                0 <= j < roles@.len() ==> !counts(#[trigger] roles@[j], coloured),
        },
{
    let mut best: Option<usize> = None;
    let mut i: usize = 0;
    while i < roles.len()
        invariant
            i <= roles.len(),
            match best {
                Some(b) => is_top_within(roles@, i as int, b as int, coloured),
                None => forall|j: int| 0 <= j < i ==> !counts(#[trigger] roles@[j], coloured),
            },
        decreases roles.len() - i,
    {
        let role = &roles[i];
        if !coloured || role.color.is_some() {
            match best {
                None => {
                    best = Some(i);
                },
                Some(b) => {
                    if role.rank > roles[b].rank {
                        best = Some(i);
                    }
                },
            }
        }
        i += 1;
    }
    proof {
        match best {
            Some(b) => {
                assert(is_top(roles@, b as int, coloured));
                top_unique(roles@, b as int, choose|k: int| is_top(roles@, k, coloured), coloured);
            },
            None => {
                assert forall|k: int| !is_top(roles@, k, coloured) by {
                    if is_top(roles@, k, coloured) {
                        assert(counts(roles@[k], coloured));
                    }
                }
            },
        }
    }
    best
}

/// Works out what is shown of a member's roles: display colour and its
/// numeral, the role names, their count and the highest role's name, each
/// with its fallback text.
pub fn summarize_roles(roles: Option<&Vec<RoleInfo>>) -> (r: RoleSummary)
    ensures
        r@ == summary_of(roles_view(roles)),
{
    let rs = match roles {
        Some(rs) => rs,
        None => {
            return RoleSummary {
                display_color: NO_COLOR,
                display_color_hex: String::from_str("No display color available."),
                role_names_text: String::from_str("No roles available."),
                role_count: 0,
                highest_role_name: String::from_str("No main role available."),
                hierarchy_unavailable: true,
            };
        },
    };
    let mut names: Vec<String> = Vec::new();
    let mut i: usize = 0;
    while i < rs.len()
        invariant
            i <= rs.len(),
            names@.len() == i,
            forall|j: int| 0 <= j < i ==> names@[j]@ == rs@[j].name@,
        decreases rs.len() - i,
    {
        names.push(rs[i].name.clone());
        i += 1;
    }
    proof {
        assert(texts(names@) =~= role_names(rs@));
    }
    let all = join_texts(&names, " / ");
    let role_names_text = if all.as_str().unicode_len() == 0 {
        String::from_str("No roles available.")
    } else {
        all
    };
    let (display_color, display_color_hex) = match top_role(rs, true) {
        Some(k) => {
            let color: u32 = rs[k].color.unwrap();
            let upper = colour_hex(color);
            let lower = lowercase_text(upper.as_str());
            (color, hex_label(lower.as_str()))
        },
        None => (NO_COLOR, String::from_str("No display color available.")),
    };
    let highest_role_name = match top_role(rs, false) {
        Some(k) => rs[k].name.clone(),
        None => String::from_str("No roles available."),
    };
    RoleSummary {
        display_color,
        display_color_hex,
        role_names_text,
        role_count: rs.len(),
        highest_role_name,
        hierarchy_unavailable: false,
    }
}

/// The hierarchy is reported as unavailable exactly when its lookup failed.
/// A member who holds no role while the hierarchy is at hand is shown with
/// no roles, a count of zero and no colour, and is not reported.
pub proof fn unavailable_only_when_lookup_fails(roles: Option<Seq<RoleInfo>>)
    ensures
        summary_of(roles).hierarchy_unavailable <==> roles.is_none(),
        roles == Some(Seq::<RoleInfo>::empty()) ==> summary_of(roles) == (RoleSummaryView {
            display_color: NO_COLOR,
            display_color_hex: "No display color available."@,
            role_names_text: "No roles available."@,
            role_count: 0,
            highest_role_name: "No roles available."@,
            hierarchy_unavailable: false,
        }),
{
    if roles == Some(Seq::<RoleInfo>::empty()) {
        let rs = Seq::<RoleInfo>::empty();
        assert forall|i: int| !is_top(rs, i, true) by {}
        assert forall|i: int| !is_top(rs, i, false) by {}
        assert(role_names(rs).len() == 0);
    }
}

} // verus!
