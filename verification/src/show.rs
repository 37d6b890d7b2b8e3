//! The fields of a television series card, written from the catalogue's
//! plain values.

use crate::text::{
    char_replaced, join_texts, joined, opt_text, replace_char, signed_decimal,
    signed_decimal_text, texts,
};
use chrono::NaiveDate;
use humantime::format_duration;
use isolang::Language;
use std::fmt::Write;
use std::time::Duration;
use vstd::prelude::*;
use vstd::string::*;

verus! {

/// A calendar day.
#[derive(Clone, Copy, Debug, PartialEq, Eq, Structural)]
pub struct AirDay {
    pub year: i32,
    pub month: u32,
    pub day: u32,
}

/// Someone who created a series.
#[derive(Clone, Debug)]
pub struct CreatedBy {
    pub id: i64,
    pub credit_id: String,
    pub name: String,
    pub gender: Option<i64>,
    pub profile_path: Option<String>,
}

/// A genre of the catalogue.
#[derive(Clone, Debug)]
pub struct Genre {
    pub id: i64,
    pub name: String,
}

/// A network that airs a series, or a studio that produces it.
#[derive(Clone, Debug)]
pub struct NetworkOrStudio {
    pub name: String,
    pub id: i64,
    pub logo_path: Option<String>,
    pub origin_country: Option<String>,
}

/// The identifiers that other sites have for a series.
#[derive(Clone, Debug)]
pub struct ExternalId {
    pub imdb_id: Option<String>,
    pub freebase_mid: Option<String>,
    pub freebase_id: Option<String>,
    pub tvdb_id: Option<i64>,
    pub tvrage_id: Option<i64>,
    pub facebook_id: Option<String>,
    pub instagram_id: Option<String>,
    pub twitter_id: Option<String>,
    pub id: Option<i64>,
}

/// What the catalogue tells of a series, as far as the card shows it.
/// Popularity and user score arrive as text.
#[derive(Clone, Debug)]
pub struct ShowFacts {
    pub name: String,
    pub id: i64,
    pub overview: String,
    pub status: String,
    pub series_type: String,
    pub created_by: Vec<CreatedBy>,
    pub runtime_minutes: u64,
    pub first_air_date: AirDay,
    pub last_air_date: AirDay,
    pub original_language: String,
    pub languages: Vec<String>,
    pub popularity: String,
    pub user_score: String,
    pub vote_count: i64,
    pub episodes: i64,
    pub seasons: i64,
    pub networks: Vec<NetworkOrStudio>,
    pub studios: Vec<NetworkOrStudio>,
    pub genres: Vec<Genre>,
    pub in_production: bool,
    pub poster_path: Option<String>,
    pub external_ids: ExternalId,
}

/// One named field of a card.
#[derive(Clone, Debug)]
pub struct CardField {
    pub name: String,
    pub value: String,
    pub inline: bool,
}

/// The card of a series.
#[derive(Clone, Debug)]
pub struct ShowCard {
    pub title: String,
    pub url: String,
    pub thumbnail: String,
    pub description: String,
    pub fields: Vec<CardField>,
}

/// Why no card can be written.
#[derive(Clone, Copy, Debug, PartialEq, Eq, Structural)]
pub enum ShowError {
    /// The run time in seconds does not fit a number.
    RuntimeTooLong,
    /// A language code has no name.
    UnknownLanguage,
    /// An air date is no day of the calendar.
    NoSuchDate,
    /// The series has no poster.
    NoPoster,
    /// The series has no IMDb identifier.
    NoImdbId,
}

pub struct CardFieldView {
    pub name: Seq<char>,
    pub value: Seq<char>,
    pub inline: bool,
}

pub struct ShowCardView {
    pub title: Seq<char>,
    pub url: Seq<char>,
    pub thumbnail: Seq<char>,
    pub description: Seq<char>,
    pub fields: Seq<CardFieldView>,
}

impl View for CardField {
    type V = CardFieldView;

    open spec fn view(&self) -> CardFieldView {
        CardFieldView { name: self.name@, value: self.value@, inline: self.inline }
    }
}

impl View for ShowCard {
    type V = ShowCardView;

    open spec fn view(&self) -> ShowCardView {
        ShowCardView {
            title: self.title@,
            url: self.url@,
            thumbnail: self.thumbnail@,
            description: self.description@,
            fields: Seq::new(self.fields@.len(), |i: int| self.fields@[i]@),
        }
    }
}

/// What humantime writes for a duration of this many whole seconds.
pub uninterp spec fn duration_written(secs: u64) -> Seq<char>;

/// The English name that isolang has for a two-letter language code; none
/// where it does not know the code.
pub uninterp spec fn language_named(code: Seq<char>) -> Option<Seq<char>>;

/// What chrono writes for a calendar day under `pattern`; none where there
/// is no such day or chrono cannot write it.
pub uninterp spec fn day_written(year: i32, month: u32, day: u32, pattern: Seq<char>) -> Option<
    Seq<char>,
>;

/// The pattern in which air dates are written, such as "May 5, 2015".
pub open spec fn air_date_pattern() -> Seq<char> {
    "%B %-e, %Y"@
}

/// Every code of the list has a name.
pub open spec fn all_named(codes: Seq<Seq<char>>) -> bool {
    forall|i: int| 0 <= i < codes.len() ==> language_named(#[trigger] codes[i]).is_some()
}

/// The names of the codes, in order.
pub open spec fn names_of(codes: Seq<Seq<char>>) -> Seq<Seq<char>> {
    Seq::new(codes.len(), |i: int| language_named(codes[i]).unwrap())
}

/// The language names, one per line; none where a code has no name.
pub open spec fn languages_shown(codes: Seq<Seq<char>>) -> Option<Seq<char>> {
    if all_named(codes) {
        Some(joined(names_of(codes), "\n"@))
    } else {
        None
    }
}

/// The studios, one per line, or "N/A" where there is none.
pub open spec fn studios_shown(studios: Seq<Seq<char>>) -> Seq<char> {
    if studios.len() == 0 {
        "N/A"@
    } else {
        joined(studios, "\n"@)
    }
}

/// The names of the creators, in order.
pub open spec fn creator_names(v: Seq<CreatedBy>) -> Seq<Seq<char>> {
    Seq::new(v.len(), |i: int| v[i].name@)
}

/// The names of the genres, in order.
pub open spec fn genre_names(v: Seq<Genre>) -> Seq<Seq<char>> {
    Seq::new(v.len(), |i: int| v[i].name@)
}

/// The names of the networks or studios, in order.
pub open spec fn company_names(v: Seq<NetworkOrStudio>) -> Seq<Seq<char>> {
    Seq::new(v.len(), |i: int| v[i].name@)
}

/// A calendar day as written on the card.
pub open spec fn air_date_shown(day: AirDay) -> Option<Seq<char>> {
    day_written(day.year, day.month, day.day, air_date_pattern())
}

/// The first reason, if any, why a series gets no card.
pub open spec fn card_error(f: ShowFacts) -> Option<ShowError> {
    if f.runtime_minutes * 60 > u64::MAX {
        Some(ShowError::RuntimeTooLong)
    } else if language_named(f.original_language@).is_none() || !all_named(texts(f.languages@)) {
        Some(ShowError::UnknownLanguage)
    } else if air_date_shown(f.first_air_date).is_none() || air_date_shown(
        f.last_air_date,
    ).is_none() {
        Some(ShowError::NoSuchDate)
    } else if f.poster_path.is_none() {
        Some(ShowError::NoPoster)
    } else if f.external_ids.imdb_id.is_none() {
        Some(ShowError::NoImdbId)
    } else {
        None
    }
}

/// A field shown beside its neighbours.
pub open spec fn inline_field(name: Seq<char>, value: Seq<char>) -> CardFieldView {
    CardFieldView { name, value, inline: true }
}

/// The fields of the card, in the order shown.
pub open spec fn card_fields(f: ShowFacts) -> Seq<CardFieldView> {
    seq![
        inline_field("Status"@, f.status@),
        inline_field("Type"@, f.series_type@),
        inline_field("Created By"@, joined(creator_names(f.created_by@), "\n"@)),
        inline_field("Runtime"@, duration_written((f.runtime_minutes * 60) as u64)),
        inline_field("First Air Date"@, air_date_shown(f.first_air_date).unwrap()),
        inline_field("Last Air Date"@, air_date_shown(f.last_air_date).unwrap()),
        inline_field("Main Language"@, language_named(f.original_language@).unwrap()),
        inline_field("Languages"@, joined(names_of(texts(f.languages@)), "\n"@)),
        inline_field("Popularity"@, f.popularity@ + "%"@),
        inline_field(
            "User Score"@,
            f.user_score@ + "/100 ("@ + signed_decimal(f.vote_count as int) + " votes)"@,
        ),
        inline_field("Episodes"@, signed_decimal(f.episodes as int)),
        inline_field("Seasons"@, signed_decimal(f.seasons as int)),
        inline_field("Networks"@, joined(company_names(f.networks@), "\n"@)),
        inline_field("Studios"@, studios_shown(company_names(f.studios@))),
        inline_field("Genres"@, joined(genre_names(f.genres@), "\n"@)),
        inline_field(
            "Production Status"@,
            if f.in_production {
                "In Production"@
            } else {
                "Finished Production"@
            },
        ),
        CardFieldView {
            name: "External Links"@,
            value: "[IMDb](https://www.imdb.com/title/"@ + f.external_ids.imdb_id.unwrap()@ + ")"@,
            inline: false,
        },
    ]
}

/// The card of a series that has one.
pub open spec fn card_of(f: ShowFacts) -> ShowCardView {
    ShowCardView {
        title: f.name@,
        url: "https://themoviedb.org/tv/"@ + signed_decimal(f.id as int),
        thumbnail: "https://image.tmdb.org/t/p/original/"@ + char_replaced(
            f.poster_path.unwrap()@,
            '/',
            Seq::empty(),
        ),
        description: f.overview@,
        fields: card_fields(f),
    }
}

/// Formats a duration with `humantime::format_duration` and the `Display`
/// of what it returns.
#[verifier::external_body]
fn duration_text(secs: u64) -> (r: String)
    ensures
        r@ == duration_written(secs),
{
    format_duration(Duration::from_secs(secs)).to_string()
}

/// Looks a two-letter code up with `isolang::Language::from_639_1` and reads
/// the English name with `Language::to_name`.
#[verifier::external_body]
fn language_name(code: &str) -> (r: Option<String>)
    ensures
        opt_text(r) == language_named(code@),
{
    match Language::from_639_1(code) {
        Some(language) => Some(language.to_name().to_string()),
        None => None,
    }
}

/// Formats a calendar day with chrono: `NaiveDate::from_ymd_opt`, then the
/// `Display` of `NaiveDate::format`. `None` where chrono has no such day or
/// reports an error while writing.
#[verifier::external_body]
fn format_day(year: i32, month: u32, day: u32, pattern: &str) -> (r: Option<String>)
    ensures
        opt_text(r) == day_written(year, month, day, pattern@),
{
    let date = NaiveDate::from_ymd_opt(year, month, day)?;
    let mut out = String::new();
    match write!(out, "{}", date.format(pattern)) {
        Ok(()) => Some(out),
        Err(_) => None,
    }
}

/// Writes the items one per line.
pub fn lines(items: &Vec<String>) -> (r: String)
    ensures
        r@ == joined(texts(items@), "\n"@),
{
    join_texts(items, "\n")
}

/// Writes the studios one per line, or "N/A" where the series has none.
pub fn studios_text(studios: &Vec<String>) -> (r: String)
    ensures
        r@ == studios_shown(texts(studios@)),
{
    if studios.len() == 0 {
        String::from_str("N/A")
    } else {
        join_texts(studios, "\n")
    }
}

/// Writes an average episode length, given in minutes.
pub fn runtime_text(minutes: u64) -> (r: String)
    requires
        minutes * 60 <= u64::MAX,
    ensures
        r@ == duration_written((minutes * 60) as u64),
{
    duration_text(minutes * 60)
}

/// Writes an air date; none where the day does not exist.
pub fn air_date_text(year: i32, month: u32, day: u32) -> (r: Option<String>)
    ensures
        opt_text(r) == day_written(year, month, day, air_date_pattern()),
{
    format_day(year, month, day, "%B %-e, %Y")
}

/// Writes the English names of the languages, one per line; none where a
/// code is unknown.
pub fn languages_text(codes: &Vec<String>) -> (r: Option<String>)
    ensures
        opt_text(r) == languages_shown(texts(codes@)),
{
    let mut names: Vec<String> = Vec::new();
    let mut i: usize = 0;
    while i < codes.len()
        invariant
            i <= codes.len(),
            names@.len() == i,
            forall|j: int|
                0 <= j < i ==> language_named(#[trigger] texts(codes@)[j]) == Some(names@[j]@),
        decreases codes.len() - i,
    {
        match language_name(codes[i].as_str()) {
            Some(name) => {
                names.push(name);
            },
            None => {
                proof {
                    assert(language_named(texts(codes@)[i as int]).is_none());
                }
                return None;
            },
        }
        i += 1;
    }
    proof {
        assert(all_named(texts(codes@)));
        assert(texts(names@) =~= names_of(texts(codes@)));
    }
    Some(join_texts(&names, "\n"))
}

/// Whether the series is still being made, in words.
pub fn production_status(in_production: bool) -> (r: &'static str)
    ensures
        r@ == (if in_production {
            "In Production"@
        } else {
            "Finished Production"@
        }),
{
    if in_production {
        "In Production"
    } else {
        "Finished Production"
    }
}

/// The address of the series' page.
pub fn show_url(id: i64) -> (r: String)
    ensures
        r@ == "https://themoviedb.org/tv/"@ + signed_decimal(id as int),
{
    let mut out = String::from_str("https://themoviedb.org/tv/");
    out.append(signed_decimal_text(id).as_str());
    out
}

/// The address at which the catalogue tells of a series.
pub fn show_endpoint(id: i64) -> (r: String)
    ensures
        r@ == "https://api.themoviedb.org/3/tv/"@ + signed_decimal(id as int),
{
    let mut out = String::from_str("https://api.themoviedb.org/3/tv/");
    out.append(signed_decimal_text(id).as_str());
    out
}

/// The address of the poster: the path without its slashes, under the image
/// host.
pub fn poster_url(path: &str) -> (r: String)
    ensures
        r@ == "https://image.tmdb.org/t/p/original/"@ + char_replaced(path@, '/', Seq::empty()),
{
    proof {
        reveal_strlit("");
        assert(""@ =~= Seq::<char>::empty());
    }
    let mut out = String::from_str("https://image.tmdb.org/t/p/original/");
    out.append(replace_char(path, '/', "").as_str());
    out
}

/// The link to the series' IMDb page.
pub fn imdb_link(imdb_id: &str) -> (r: String)
    ensures
        r@ == "[IMDb](https://www.imdb.com/title/"@ + imdb_id@ + ")"@,
{
    let mut out = String::from_str("[IMDb](https://www.imdb.com/title/");
    out.append(imdb_id);
    out.append(")");
    out
}

/// The reply for a search that found no series.
pub fn not_found_message(term: &str) -> (r: String)
    ensures
        r@ == "Sorry, I was unable to find a TV show on TMDb matching the term `"@ + term@
            + "`. Please try a different search term."@,
{
    let mut out = String::from_str(
        "Sorry, I was unable to find a TV show on TMDb matching the term `",
    );
    out.append(term);
    out.append("`. Please try a different search term.");
    out
}

/// Lists the names of the creators.
pub fn names_of_creators(v: &Vec<CreatedBy>) -> (r: Vec<String>)
    ensures
        texts(r@) == creator_names(v@),
{
    let mut out: Vec<String> = Vec::new();
    let mut i: usize = 0;
    while i < v.len()
        invariant
            i <= v.len(),
            out@.len() == i,
            forall|j: int| 0 <= j < i ==> out@[j]@ == v@[j].name@,
        decreases v.len() - i,
    {
        out.push(v[i].name.clone());
        i += 1;
    }
    proof {
        assert(texts(out@) =~= creator_names(v@));
    }
    out
}

/// Lists the names of the genres.
pub fn names_of_genres(v: &Vec<Genre>) -> (r: Vec<String>)
    ensures
        texts(r@) == genre_names(v@),
{
    let mut out: Vec<String> = Vec::new();
    let mut i: usize = 0;
    while i < v.len()
        invariant
            i <= v.len(),
            out@.len() == i,
            forall|j: int| 0 <= j < i ==> out@[j]@ == v@[j].name@,
        decreases v.len() - i,
    {
        out.push(v[i].name.clone());
        i += 1;
    }
    proof {
        assert(texts(out@) =~= genre_names(v@));
    }
    out
}

/// Lists the names of the networks or studios.
pub fn names_of_companies(v: &Vec<NetworkOrStudio>) -> (r: Vec<String>)
    ensures
        texts(r@) == company_names(v@),
{
    let mut out: Vec<String> = Vec::new();
    let mut i: usize = 0;
    while i < v.len()
        invariant
            i <= v.len(),
            out@.len() == i,
            forall|j: int| 0 <= j < i ==> out@[j]@ == v@[j].name@,
        decreases v.len() - i,
    {
        out.push(v[i].name.clone());
        i += 1;
    }
    proof {
        assert(texts(out@) =~= company_names(v@));
    }
    out
}

fn inline(name: &str, value: String) -> (r: CardField)
    ensures
        r@ == inline_field(name@, value@),
{
    CardField { name: String::from_str(name), value, inline: true }
}

/// Writes the card of a series: title, address, poster, overview and the
/// seventeen fields. Where a language code is unknown, an air date is no
/// day, or poster or IMDb identifier is missing, there is no card.
pub fn show_card(facts: &ShowFacts) -> (r: Result<ShowCard, ShowError>)
    ensures
        match r {
            Ok(card) => card_error(*facts).is_none() && card@ == card_of(*facts),
            Err(e) => card_error(*facts) == Some(e),
        },
{
    if facts.runtime_minutes > u64::MAX / 60 {
        return Err(ShowError::RuntimeTooLong);
    }
    let main_language = match language_name(facts.original_language.as_str()) {
        Some(name) => name,
        None => {
            return Err(ShowError::UnknownLanguage);
        },
    };
    let languages = match languages_text(&facts.languages) {
        Some(names) => names,
        None => {
            return Err(ShowError::UnknownLanguage);
        },
    };
    let first = facts.first_air_date;
    let first_air = match air_date_text(first.year, first.month, first.day) {
        Some(text) => text,
        None => {
            return Err(ShowError::NoSuchDate);
        },
    };
    let last = facts.last_air_date;
    let last_air = match air_date_text(last.year, last.month, last.day) {
        Some(text) => text,
        None => {
            return Err(ShowError::NoSuchDate);
        },
    };
    let poster = match &facts.poster_path {
        Some(path) => poster_url(path.as_str()),
        None => {
            return Err(ShowError::NoPoster);
        },
    };
    let links = match &facts.external_ids.imdb_id {
        Some(id) => imdb_link(id.as_str()),
        None => {
            return Err(ShowError::NoImdbId);
        },
    };
    let mut popularity = facts.popularity.clone();
    popularity.append("%");
    let mut score = facts.user_score.clone();
    score.append("/100 (");
    score.append(signed_decimal_text(facts.vote_count).as_str());
    score.append(" votes)");

    let mut fields: Vec<CardField> = Vec::new();
    fields.push(inline("Status", facts.status.clone()));
    fields.push(inline("Type", facts.series_type.clone()));
    fields.push(inline("Created By", lines(&names_of_creators(&facts.created_by))));
    fields.push(inline("Runtime", runtime_text(facts.runtime_minutes)));
    fields.push(inline("First Air Date", first_air));
    fields.push(inline("Last Air Date", last_air));
    fields.push(inline("Main Language", main_language));
    fields.push(inline("Languages", languages));
    fields.push(inline("Popularity", popularity));
    fields.push(inline("User Score", score));
    fields.push(inline("Episodes", signed_decimal_text(facts.episodes)));
    fields.push(inline("Seasons", signed_decimal_text(facts.seasons)));
    fields.push(inline("Networks", lines(&names_of_companies(&facts.networks))));
    fields.push(inline("Studios", studios_text(&names_of_companies(&facts.studios))));
    fields.push(inline("Genres", lines(&names_of_genres(&facts.genres))));
    fields.push(inline("Production Status", String::from_str(production_status(facts.in_production))));
    fields.push(CardField { name: String::from_str("External Links"), value: links, inline: false });
    let card = ShowCard {
        title: facts.name.clone(),
        url: show_url(facts.id),
        thumbnail: poster,
        description: facts.overview.clone(),
        fields,
    };
    proof {
        assert(card@.fields =~= card_fields(*facts));
    }
    Ok(card)
}

} // verus!
