//! What a member is doing right now: online status and live activities,
//! rendered as one sentence.

use crate::text::{
    char_replaced, join_texts, joined, opt_text, replace_char, strip_prefix, texts, without_prefix,
};
use vstd::prelude::*;
use vstd::string::*;

verus! {

/// How many candidates the track search is asked for: the single best match.
pub const SEARCH_LIMIT: u32 = 1;

/// Where in its results the track search is asked to start.
pub const SEARCH_OFFSET: u32 = 0;

#[derive(Clone, Copy, Debug, PartialEq, Eq, Structural)]
pub enum OnlineStatus {
    Online,
    Idle,
    DoNotDisturb,
    Invisible,
    Offline,
}

#[derive(Clone, Copy, Debug, PartialEq, Eq, Structural)]
pub enum ActivityKind {
    Listening,
    Playing,
    Watching,
    Streaming,
    Custom,
    Other,
}

/// One live activity as the platform reports it.
#[derive(Clone, Debug)]
pub struct ActivityEntry {
    pub kind: ActivityKind,
    pub name: String,
    pub details: Option<String>,
    pub state: Option<String>,
    pub large_text: Option<String>,
    pub small_text: Option<String>,
}

/// A member's presence: status and activities in the order reported.
#[derive(Clone, Debug)]
pub struct Presence {
    pub status: OnlineStatus,
    pub activities: Vec<ActivityEntry>,
}

/// One candidate returned by the track search.
#[derive(Clone, Debug)]
pub struct EnrichedTrack {
    pub title: String,
    pub artist: String,
    pub album: String,
    pub art_url: String,
}

/// What the track search gave for one activity.
#[derive(Clone, Debug)]
pub enum SearchOutcome {
    /// No search was made for this activity.
    NotAsked,
    /// The search was made and failed.
    Failed,
    /// The search answered with these candidates, best first.
    Found(Vec<EnrichedTrack>),
}

/// Why a music activity is shown without its track details.
#[derive(Clone, Copy, Debug, PartialEq, Eq, Structural)]
pub enum EnrichmentError {
    /// Song, artist list or album is missing from the activity.
    MissingDetails,
    /// No answer from the search is at hand.
    SearchFailed,
    /// The search answered with no candidate.
    NoResults,
}

/// One activity as rendered: its phrase and the album art found for it.
#[derive(Clone, Debug)]
pub struct RenderedActivity {
    pub phrase: String,
    pub thumbnail: Option<String>,
}

/// The two phrases of the presence sentence and the thumbnail found for it.
#[derive(Clone, Debug)]
pub struct PresenceText {
    pub status: String,
    pub activities: String,
    pub thumbnail: Option<String>,
}

/// A music activity: listening on the content platform.
pub open spec fn is_music(a: ActivityEntry) -> bool {
    a.kind == ActivityKind::Listening && a.name@ == "Spotify"@
}

/// A development activity: playing the code editor.
pub open spec fn is_development(a: ActivityEntry) -> bool {
    a.kind == ActivityKind::Playing && a.name@ == "Visual Studio Code"@
}

/// Song, artist list and album are all present.
pub open spec fn has_track_details(a: ActivityEntry) -> bool {
    a.details.is_some() && a.state.is_some() && a.large_text.is_some()
}

/// File and project are both present.
pub open spec fn has_work_details(a: ActivityEntry) -> bool {
    a.details.is_some() && a.state.is_some()
}

/// The artist list as displayed: the platform's `;` becomes ` & `.
pub open spec fn artists_shown(state: Seq<char>) -> Seq<char> {
    char_replaced(state, ';', " & "@)
}

/// The query handed to the track search for a music activity with details.
pub open spec fn query_of(a: ActivityEntry) -> Seq<char> {
    "track: "@ + a.details.unwrap()@ + " artist: "@ + char_replaced(
        artists_shown(a.state.unwrap()@),
        '&',
        "AND"@,
    ) + " album: "@ + char_replaced(a.large_text.unwrap()@, '&', "%26"@)
}

/// The query that an activity calls for, if it calls for one.
pub open spec fn query_wanted(a: ActivityEntry) -> Option<Seq<char>> {
    if is_music(a) && has_track_details(a) {
        Some(query_of(a))
    } else {
        None
    }
}

/// The album art that the search supplies for a music activity, or the reason
/// why there is none.
pub open spec fn enrichment(a: ActivityEntry, outcome: SearchOutcome) -> Result<
    Seq<char>,
    EnrichmentError,
> {
    if !has_track_details(a) {
        Err(EnrichmentError::MissingDetails)
    } else {
        match outcome {
            SearchOutcome::NotAsked => Err(EnrichmentError::SearchFailed),
            SearchOutcome::Failed => Err(EnrichmentError::SearchFailed),
            SearchOutcome::Found(tracks) => if tracks@.len() == 0 {
                Err(EnrichmentError::NoResults)
            } else {
                Ok(tracks@[0].art_url@)
            },
        }
    }
}

/// The verb phrase that stands before the bold name.
pub open spec fn verb_of(a: ActivityEntry, outcome: SearchOutcome) -> Seq<char> {
    match a.kind {
        ActivityKind::Listening => if is_music(a) && enrichment(a, outcome).is_ok() {
            "listening to **"@ + a.details.unwrap()@ + "** by **"@ + artists_shown(
                a.state.unwrap()@,
            ) + "** on the album **"@ + a.large_text.unwrap()@ + "** via"@
        } else {
            "listening to"@
        },
        ActivityKind::Playing => if is_development(a) && has_work_details(a) {
            "working on the file **"@ + without_prefix(a.details.unwrap()@, "Editing "@)
                + "** in the project **"@ + without_prefix(a.state.unwrap()@, "Workspace: "@)
                + "** with"@
        } else {
            "playing"@
        },
        ActivityKind::Watching => "watching"@,
        ActivityKind::Streaming => "streaming on"@,
        _ => Seq::empty(),
    }
}

/// The name shown in bold: the originating application for a development
/// activity that names one, the activity's own name otherwise.
pub open spec fn name_shown(a: ActivityEntry) -> Seq<char> {
    if is_development(a) && has_work_details(a) && a.small_text.is_some() {
        a.small_text.unwrap()@
    } else {
        a.name@
    }
}

/// One activity as a phrase.
pub open spec fn phrase_of(a: ActivityEntry, outcome: SearchOutcome) -> Seq<char> {
    verb_of(a, outcome) + " **"@ + name_shown(a) + "**"@
}

/// The album art that one activity contributes, if any.
pub open spec fn art_of(a: ActivityEntry, outcome: SearchOutcome) -> Option<Seq<char>> {
    if is_music(a) {
        match enrichment(a, outcome) {
            Ok(url) => Some(url),
            Err(_) => None,
        }
    } else {
        None
    }
}

/// The search outcome that belongs to the activity at `i`; none was asked for
/// where the list is too short.
pub open spec fn outcome_at(outcomes: Seq<SearchOutcome>, i: int) -> SearchOutcome {
    if 0 <= i < outcomes.len() {
        outcomes[i]
    } else {
        SearchOutcome::NotAsked
    }
}

/// The phrases of the activities that are shown, in the order reported.
/// Custom activities are never shown.
pub open spec fn phrases_of(acts: Seq<ActivityEntry>, outcomes: Seq<SearchOutcome>) -> Seq<
    Seq<char>,
>
    decreases acts.len(),
{
    if acts.len() == 0 {
        Seq::empty()
    } else {
        let rest = phrases_of(acts.drop_last(), outcomes);
        if acts.last().kind == ActivityKind::Custom {
            rest
        } else {
            rest.push(phrase_of(acts.last(), outcome_at(outcomes, acts.len() - 1)))
        }
    }
}

/// The album art of the first activity that has one.
pub open spec fn thumbnail_of(acts: Seq<ActivityEntry>, outcomes: Seq<SearchOutcome>) -> Option<
    Seq<char>,
>
    decreases acts.len(),
{
    if acts.len() == 0 {
        None
    } else {
        match thumbnail_of(acts.drop_last(), outcomes) {
            Some(url) => Some(url),
            None => art_of(acts.last(), outcome_at(outcomes, acts.len() - 1)),
        }
    }
}

/// How a status reads after "is currently ".
pub open spec fn status_label(status: OnlineStatus) -> Seq<char> {
    match status {
        OnlineStatus::Online => "**Online**"@,
        OnlineStatus::Idle => "**Idle**"@,
        OnlineStatus::DoNotDisturb => "in **Do Not Disturb** mode"@,
        OnlineStatus::Invisible => "**Invisible**"@,
        OnlineStatus::Offline => "**Offline**"@,
    }
}

/// The status phrase: closed with a full stop where no activity follows.
pub open spec fn status_phrase(name: Seq<char>, status: OnlineStatus, shown: nat) -> Seq<char> {
    name + " is currently "@ + status_label(status) + (if shown == 0 {
        ".\n\n"@
    } else {
        Seq::empty()
    })
}

/// The activities phrase, which continues the status phrase.
pub open spec fn activities_phrase(phrases: Seq<Seq<char>>) -> Seq<char> {
    if phrases.len() == 0 {
        Seq::empty()
    } else {
        "; "@ + joined(phrases, " and "@) + ".\n\n"@
    }
}

/// The presence behind an optional reference.
pub open spec fn presence_value(presence: Option<&Presence>) -> Option<Presence> {
    match presence {
        Some(p) => Some(*p),
        None => None,
    }
}

/// The rendered presence of a member, all three parts.
pub open spec fn presence_rendered(
    name: Seq<char>,
    presence: Option<Presence>,
    outcomes: Seq<SearchOutcome>,
) -> (Seq<char>, Seq<char>, Option<Seq<char>>) {
    match presence {
        None => (Seq::empty(), Seq::empty(), None),
        Some(p) => {
            let phrases = phrases_of(p.activities@, outcomes);
            (
                status_phrase(name, p.status, phrases.len()),
                activities_phrase(phrases),
                thumbnail_of(p.activities@, outcomes),
            )
        },
    }
}

fn same_text(a: &str, b: &str) -> (r: bool)
    ensures
        r == (a@ == b@),
{
    let x = String::from_str(a);
    let y = String::from_str(b);
    x == y
}

impl ActivityEntry {
    /// The query to hand to the track search, where this activity calls for one.
    pub fn search_query(&self) -> (r: Option<String>)
        ensures
            opt_text(r) == query_wanted(*self),
    {
        if !(self.kind == ActivityKind::Listening && same_text(self.name.as_str(), "Spotify")) {
            return None;
        }
        match (&self.details, &self.state, &self.large_text) {
            (Some(song), Some(state), Some(album)) => {
                let artists = replace_char(state.as_str(), ';', " & ");
                let mut q = String::from_str("track: ");
                q.append(song.as_str());
                q.append(" artist: ");
                q.append(replace_char(artists.as_str(), '&', "AND").as_str());
                q.append(" album: ");
                q.append(replace_char(album.as_str(), '&', "%26").as_str());
                Some(q)
            },
            _ => None,
        }
    }

    /// The album art for this activity's track, taken from the best candidate
    /// of the search, or the reason why the activity stays unenriched.
    pub fn enrich(&self, outcome: &SearchOutcome) -> (r: Result<String, EnrichmentError>)
        ensures
            match r {
                Ok(url) => enrichment(*self, *outcome) == Ok::<Seq<char>, EnrichmentError>(url@),
                Err(e) => enrichment(*self, *outcome) == Err::<Seq<char>, EnrichmentError>(e),
            },
    {
        if self.details.is_none() || self.state.is_none() || self.large_text.is_none() {
            return Err(EnrichmentError::MissingDetails);
        }
        match outcome {
            SearchOutcome::NotAsked => Err(EnrichmentError::SearchFailed),
            SearchOutcome::Failed => Err(EnrichmentError::SearchFailed),
            SearchOutcome::Found(tracks) => {
                if tracks.len() == 0 {
                    Err(EnrichmentError::NoResults)
                } else {
                    Ok(tracks[0].art_url.clone())
                }
            },
        }
    }
}

fn status_text(status: OnlineStatus) -> (r: &'static str)
    ensures
        r@ == status_label(status),
{
    match status {
        OnlineStatus::Online => "**Online**",
        OnlineStatus::Idle => "**Idle**",
        OnlineStatus::DoNotDisturb => "in **Do Not Disturb** mode",
        OnlineStatus::Invisible => "**Invisible**",
        OnlineStatus::Offline => "**Offline**",
    }
}

/// Renders one activity. A music activity is enriched from the search
/// outcome; where that fails it falls back to the plain phrase and gives no
/// thumbnail.
pub fn render_activity(entry: &ActivityEntry, outcome: &SearchOutcome) -> (r: RenderedActivity)
    ensures
        r.phrase@ == phrase_of(*entry, *outcome),
        opt_text(r.thumbnail) == art_of(*entry, *outcome),
{
    let mut thumbnail: Option<String> = None;
    let mut shown: String = entry.name.clone();
    let mut out: String = String::new();
    match entry.kind {
        ActivityKind::Listening => {
            out = String::from_str("listening to");
            if same_text(entry.name.as_str(), "Spotify") {
                match entry.enrich(outcome) {
                    Ok(url) => {
                        match (&entry.details, &entry.state, &entry.large_text) {
                            (Some(song), Some(state), Some(album)) => {
                                out = String::from_str("listening to **");
                                out.append(song.as_str());
                                out.append("** by **");
                                out.append(replace_char(state.as_str(), ';', " & ").as_str());
                                out.append("** on the album **");
                                out.append(album.as_str());
                                out.append("** via");
                                thumbnail = Some(url);
                            },
                            _ => {},
                        }
                    },
                    Err(_) => {},
                }
            }
        },
        ActivityKind::Playing => {
            out = String::from_str("playing");
            if same_text(entry.name.as_str(), "Visual Studio Code") {
                match (&entry.details, &entry.state) {
                    (Some(details), Some(state)) => {
                        out = String::from_str("working on the file **");
                        out.append(strip_prefix(details.as_str(), "Editing ").as_str());
                        out.append("** in the project **");
                        out.append(strip_prefix(state.as_str(), "Workspace: ").as_str());
                        out.append("** with");
                        match &entry.small_text {
                            Some(app) => {
                                shown = app.clone();
                            },
                            None => {},
                        }
                    },
                    _ => {},
                }
            }
        },
        ActivityKind::Watching => {
            out = String::from_str("watching");
        },
        ActivityKind::Streaming => {
            out = String::from_str("streaming on");
        },
        _ => {},
    }
    out.append(" **");
    out.append(shown.as_str());
    out.append("**");
    RenderedActivity { phrase: out, thumbnail }
}

/// Renders a member's presence. `outcomes` holds, at the position of each
/// activity, what the track search gave for it. A member without a presence
/// gets two empty phrases and no thumbnail.
pub fn render_presence(
    member_name: &str,
    presence: Option<&Presence>,
    outcomes: &Vec<SearchOutcome>,
) -> (r: PresenceText)
    ensures
        (r.status@, r.activities@, opt_text(r.thumbnail)) == presence_rendered(
            member_name@,
            presence_value(presence),
            outcomes@,
        ),
{
    let p = match presence {
        Some(p) => p,
        None => {
            return PresenceText { status: String::new(), activities: String::new(), thumbnail: None };
        },
    };
    let acts = &p.activities;
    let not_asked = SearchOutcome::NotAsked;
    let mut phrases: Vec<String> = Vec::new();
    let mut thumbnail: Option<String> = None;
    let mut i: usize = 0;
    while i < acts.len()
        invariant
            i <= acts.len(),
            not_asked == SearchOutcome::NotAsked,
            texts(phrases@) == phrases_of(acts@.take(i as int), outcomes@),
            opt_text(thumbnail) == thumbnail_of(acts@.take(i as int), outcomes@),
        decreases acts.len() - i,
    {
        let entry = &acts[i];
        let outcome = if i < outcomes.len() {
            &outcomes[i]
        } else {
            &not_asked
        };
        proof {
            assert(acts@.take(i + 1).drop_last() =~= acts@.take(i as int));
            assert(acts@.take(i + 1).last() == acts@[i as int]);
        }
        let ghost before = phrases@;
        if entry.kind != ActivityKind::Custom {
            let rendered = render_activity(entry, outcome);
            phrases.push(rendered.phrase);
            if thumbnail.is_none() {
                thumbnail = rendered.thumbnail;
            }
            proof {
                assert(texts(phrases@) =~= texts(before).push(phrases@.last()@));
            }
        }
        i += 1;
    }
    proof {
        assert(acts@.take(i as int) =~= acts@);
        assert(texts(phrases@).len() == phrases@.len());
    }
    let mut status = String::from_str(member_name);
    status.append(" is currently ");
    status.append(status_text(p.status));
    let activities = if phrases.len() == 0 {
        status.append(".\n\n");
        String::new()
    } else {
        proof {
            assert(status@ + Seq::<char>::empty() =~= status@);
        }
        let mut a = String::from_str("; ");
        a.append(join_texts(&phrases, " and ").as_str());
        a.append(".\n\n");
        a
    };
    PresenceText { status, activities, thumbnail }
}

/// Lists, for each activity of a presence, the query to hand to the track
/// search, or none where the activity calls for no search.
pub fn search_queries(presence: &Presence) -> (r: Vec<Option<String>>)
    ensures
        r@.len() == presence.activities@.len(),
        forall|i: int|
            0 <= i < r@.len() ==> opt_text(#[trigger] r@[i]) == query_wanted(
                presence.activities@[i],
            ),
{
    let mut out: Vec<Option<String>> = Vec::new();
    let mut i: usize = 0;
    while i < presence.activities.len()
        invariant
            i <= presence.activities.len(),
            out@.len() == i,
            forall|j: int|
                0 <= j < i ==> opt_text(#[trigger] out@[j]) == query_wanted(
                    presence.activities@[j],
                ),
        decreases presence.activities.len() - i,
    {
        out.push(presence.activities[i].search_query());
        i += 1;
    }
    out
}

/// A member without a presence gets no sentence at all: both phrases are
/// empty and there is no thumbnail, whatever the search gave.
pub proof fn absent_presence_is_blank(name: Seq<char>, outcomes: Seq<SearchOutcome>)
    ensures
        presence_rendered(name, None, outcomes) == (
            Seq::<char>::empty(),
            Seq::<char>::empty(),
            None::<Seq<char>>,
        ),
{
}

/// A member in Do Not Disturb mode with no activity to show gets a status
/// phrase that ends with "in **Do Not Disturb** mode." and a blank line, and
/// the activities phrase is empty.
pub proof fn do_not_disturb_alone(name: Seq<char>, presence: Presence, outcomes: Seq<SearchOutcome>)
    requires
        presence.status == OnlineStatus::DoNotDisturb,
        phrases_of(presence.activities@, outcomes).len() == 0,
    ensures
        presence_rendered(name, Some(presence), outcomes).0 == name + " is currently "@
            + "in **Do Not Disturb** mode.\n\n"@,
        "in **Do Not Disturb** mode.\n\n"@.is_suffix_of(
            presence_rendered(name, Some(presence), outcomes).0,
        ),
        presence_rendered(name, Some(presence), outcomes).1 == Seq::<char>::empty(),
{
    reveal_strlit("in **Do Not Disturb** mode.\n\n");
    reveal_strlit("in **Do Not Disturb** mode");
    reveal_strlit(".\n\n");
    let whole = "in **Do Not Disturb** mode.\n\n"@;
    assert("in **Do Not Disturb** mode"@ + ".\n\n"@ =~= whole);
    let status = presence_rendered(name, Some(presence), outcomes).0;
    assert(status =~= name + " is currently "@ + whole);
    assert(whole =~= status.subrange(status.len() - whole.len(), status.len() as int));
}

/// A music activity that cannot be enriched, because details are missing,
/// the search failed or it found nothing, reads "listening to **Spotify**"
/// and contributes no thumbnail.
pub proof fn unenriched_music_is_plain(a: ActivityEntry, outcome: SearchOutcome)
    requires
        is_music(a),
        enrichment(a, outcome).is_err(),
    ensures
        phrase_of(a, outcome) == "listening to **Spotify**"@,
        art_of(a, outcome).is_none(),
{
    reveal_strlit("listening to **Spotify**");
    reveal_strlit("listening to");
    reveal_strlit("Spotify");
    reveal_strlit(" **");
    reveal_strlit("**");
    assert(phrase_of(a, outcome) =~= "listening to **Spotify**"@);
}

/// A music activity with all details and at least one search result names
/// song, artists and album, and takes its thumbnail from the first result.
pub proof fn enriched_music_is_detailed(a: ActivityEntry, tracks: Vec<EnrichedTrack>)
    requires
        is_music(a),
        has_track_details(a),
        tracks@.len() > 0,
    ensures
        phrase_of(a, SearchOutcome::Found(tracks)) == "listening to **"@ + a.details.unwrap()@
            + "** by **"@ + artists_shown(a.state.unwrap()@) + "** on the album **"@
            + a.large_text.unwrap()@ + "** via **Spotify**"@,
        art_of(a, SearchOutcome::Found(tracks)) == Some(tracks@[0].art_url@),
{
    reveal_strlit("** via **Spotify**");
    reveal_strlit("** via");
    reveal_strlit("Spotify");
    reveal_strlit(" **");
    reveal_strlit("**");
    assert("** via"@ + " **"@ + "Spotify"@ + "**"@ =~= "** via **Spotify**"@);
    let front = "listening to **"@ + a.details.unwrap()@ + "** by **"@ + artists_shown(
        a.state.unwrap()@,
    ) + "** on the album **"@ + a.large_text.unwrap()@;
    assert(front + "** via"@ + " **"@ + "Spotify"@ + "**"@ =~= front + ("** via"@ + " **"@
        + "Spotify"@ + "**"@));
}

/// Every activity that is rendered reads as something: its phrase holds at
/// least the bold marks round the name, whatever details are missing.
pub proof fn phrase_is_never_blank(a: ActivityEntry, outcome: SearchOutcome)
    ensures
        phrase_of(a, outcome).len() >= 5 + name_shown(a).len(),
{
    reveal_strlit(" **");
    reveal_strlit("**");
}

/// The activities phrase is empty exactly when no activity is shown; the
/// status phrase is closed with a full stop exactly then.
pub proof fn sentence_is_closed_once(name: Seq<char>, presence: Presence, outcomes: Seq<SearchOutcome>)
    ensures
        ({
            let r = presence_rendered(name, Some(presence), outcomes);
            let shown = phrases_of(presence.activities@, outcomes).len();
            &&& shown == 0 <==> r.1.len() == 0
            &&& shown == 0 ==> ".\n\n"@.is_suffix_of(r.0)
            &&& shown > 0 ==> ".\n\n"@.is_suffix_of(r.1)
        }),
{
    reveal_strlit("; ");
    reveal_strlit(".\n\n");
    let r = presence_rendered(name, Some(presence), outcomes);
    let stop = ".\n\n"@;
    if phrases_of(presence.activities@, outcomes).len() == 0 {
        assert(stop =~= r.0.subrange(r.0.len() - stop.len(), r.0.len() as int));
    } else {
        assert(stop =~= r.1.subrange(r.1.len() - stop.len(), r.1.len() as int));
    }
}

} // verus!
