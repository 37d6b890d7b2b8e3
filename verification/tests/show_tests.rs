use member_info::search::{Result as Hit, SearchResponse};
use member_info::show::{
    air_date_text, imdb_link, languages_text, lines, names_of_companies, names_of_creators,
    names_of_genres, not_found_message, poster_url, production_status, runtime_text, show_card,
    show_endpoint, show_url, studios_text, AirDay, CreatedBy, ExternalId, Genre,
    NetworkOrStudio, ShowError, ShowFacts,
};

fn creators(names: &[&str]) -> Vec<CreatedBy> {
    names
        .iter()
        .map(|n| CreatedBy {
            id: 1,
            credit_id: "c".to_string(),
            name: n.to_string(),
            gender: None,
            profile_path: None,
        })
        .collect()
}

fn genres(names: &[&str]) -> Vec<Genre> {
    names.iter().map(|n| Genre { id: 1, name: n.to_string() }).collect()
}

fn companies(names: &[&str]) -> Vec<NetworkOrStudio> {
    names
        .iter()
        .map(|n| NetworkOrStudio {
            name: n.to_string(),
            id: 1,
            logo_path: None,
            origin_country: None,
        })
        .collect()
}

fn external(imdb_id: Option<&str>) -> ExternalId {
    ExternalId {
        imdb_id: imdb_id.map(|s| s.to_string()),
        freebase_mid: None,
        freebase_id: None,
        tvdb_id: Some(81189),
        tvrage_id: None,
        facebook_id: None,
        instagram_id: None,
        twitter_id: None,
        id: None,
    }
}

#[test]
fn names_are_listed_in_order() {
    assert_eq!(names_of_creators(&creators(&["A", "B"])), strings(&["A", "B"]));
    assert_eq!(names_of_genres(&genres(&["Drama"])), strings(&["Drama"]));
    assert_eq!(names_of_companies(&companies(&[])), strings(&[]));
    assert_eq!(names_of_companies(&companies(&["AMC", "HBO"])), strings(&["AMC", "HBO"]));
}

fn strings(items: &[&str]) -> Vec<String> {
    items.iter().map(|s| s.to_string()).collect()
}

#[test]
fn lines_puts_one_item_per_line() {
    assert_eq!(lines(&strings(&["Drama", "Crime", "Mystery"])), "Drama\nCrime\nMystery");
    assert_eq!(lines(&strings(&["Drama"])), "Drama");
    assert_eq!(lines(&strings(&[])), "");
}

#[test]
fn studios_fall_back_to_not_available() {
    assert_eq!(studios_text(&strings(&[])), "N/A");
    assert_eq!(studios_text(&strings(&["HBO", "BBC"])), "HBO\nBBC");
}

#[test]
fn runtime_is_written_in_hours_and_minutes() {
    assert_eq!(runtime_text(45), "45m");
    assert_eq!(runtime_text(157), "2h 37m");
    assert_eq!(runtime_text(0), "0s");
    assert_eq!(runtime_text(60), "1h");
}

#[test]
fn air_dates_are_written_in_words() {
    assert_eq!(air_date_text(2015, 5, 5), Some("May 5, 2015".to_string()));
    assert_eq!(air_date_text(2008, 1, 20), Some("January 20, 2008".to_string()));
    assert_eq!(air_date_text(2015, 2, 30), None);
    assert_eq!(air_date_text(2015, 13, 1), None);
}

#[test]
fn languages_are_named_in_english() {
    assert_eq!(languages_text(&strings(&["en"])), Some("English".to_string()));
    assert_eq!(languages_text(&strings(&["de", "es"])), Some("German\nSpanish".to_string()));
    assert_eq!(languages_text(&strings(&[])), Some("".to_string()));
}

#[test]
fn unknown_language_gives_none() {
    assert_eq!(languages_text(&strings(&["en", "zz"])), None);
    assert_eq!(languages_text(&strings(&["english"])), None);
}

#[test]
fn production_status_in_words() {
    assert_eq!(production_status(true), "In Production");
    assert_eq!(production_status(false), "Finished Production");
}

#[test]
fn addresses_are_built_from_identifiers() {
    assert_eq!(show_url(1396), "https://themoviedb.org/tv/1396");
    assert_eq!(show_url(-2), "https://themoviedb.org/tv/-2");
    assert_eq!(poster_url("/abc.jpg"), "https://image.tmdb.org/t/p/original/abc.jpg");
    assert_eq!(poster_url("/a/b.jpg"), "https://image.tmdb.org/t/p/original/ab.jpg");
    assert_eq!(imdb_link("tt0903747"), "[IMDb](https://www.imdb.com/title/tt0903747)");
}

#[test]
fn not_found_message_quotes_the_term() {
    assert_eq!(
        not_found_message("brkng bd"),
        "Sorry, I was unable to find a TV show on TMDb matching the term `brkng bd`. Please try a different search term."
    );
}

fn facts() -> ShowFacts {
    ShowFacts {
        name: "Breaking Bad".to_string(),
        id: 1396,
        overview: "A chemistry teacher.".to_string(),
        status: "Ended".to_string(),
        series_type: "Scripted".to_string(),
        created_by: creators(&["Vince Gilligan"]),
        runtime_minutes: 47,
        first_air_date: AirDay { year: 2008, month: 1, day: 20 },
        last_air_date: AirDay { year: 2013, month: 9, day: 29 },
        original_language: "en".to_string(),
        languages: strings(&["en", "es"]),
        popularity: "81.5".to_string(),
        user_score: "87".to_string(),
        vote_count: 5000,
        episodes: 62,
        seasons: 5,
        networks: companies(&["AMC"]),
        studios: companies(&[]),
        genres: genres(&["Drama", "Crime"]),
        in_production: false,
        poster_path: Some("/poster.jpg".to_string()),
        external_ids: external(Some("tt0903747")),
    }
}

#[test]
fn show_card_has_seventeen_fields_in_order() {
    let card = show_card(&facts()).unwrap();
    assert_eq!(card.title, "Breaking Bad");
    assert_eq!(card.url, "https://themoviedb.org/tv/1396");
    assert_eq!(card.thumbnail, "https://image.tmdb.org/t/p/original/poster.jpg");
    assert_eq!(card.description, "A chemistry teacher.");
    let got: Vec<(String, String, bool)> =
        card.fields.into_iter().map(|f| (f.name, f.value, f.inline)).collect();
    let expected = [
        ("Status", "Ended", true),
        ("Type", "Scripted", true),
        ("Created By", "Vince Gilligan", true),
        ("Runtime", "47m", true),
        ("First Air Date", "January 20, 2008", true),
        ("Last Air Date", "September 29, 2013", true),
        ("Main Language", "English", true),
        ("Languages", "English\nSpanish", true),
        ("Popularity", "81.5%", true),
        ("User Score", "87/100 (5000 votes)", true),
        ("Episodes", "62", true),
        ("Seasons", "5", true),
        ("Networks", "AMC", true),
        ("Studios", "N/A", true),
        ("Genres", "Drama\nCrime", true),
        ("Production Status", "Finished Production", true),
        ("External Links", "[IMDb](https://www.imdb.com/title/tt0903747)", false),
    ];
    assert_eq!(got.len(), 17);
    for (g, e) in got.iter().zip(expected.iter()) {
        assert_eq!((g.0.as_str(), g.1.as_str(), g.2), *e);
    }
}

#[test]
fn show_card_errors() {
    let mut f = facts();
    f.runtime_minutes = u64::MAX / 60 + 1;
    assert_eq!(show_card(&f).err(), Some(ShowError::RuntimeTooLong));
    let mut f = facts();
    f.original_language = "zz".to_string();
    assert_eq!(show_card(&f).err(), Some(ShowError::UnknownLanguage));
    let mut f = facts();
    f.languages = strings(&["en", "??"]);
    assert_eq!(show_card(&f).err(), Some(ShowError::UnknownLanguage));
    let mut f = facts();
    f.last_air_date.day = 31;
    assert_eq!(show_card(&f).err(), Some(ShowError::NoSuchDate));
    let mut f = facts();
    f.poster_path = None;
    f.external_ids = external(None);
    assert_eq!(show_card(&f).err(), Some(ShowError::NoPoster));
    let mut f = facts();
    f.external_ids = external(None);
    assert_eq!(show_card(&f).err(), Some(ShowError::NoImdbId));
}

#[test]
fn first_hit_is_the_best_match() {
    let found = SearchResponse { results: vec![Hit { id: 1396 }, Hit { id: 7 }] };
    assert_eq!(found.first_id(), Some(1396));
    assert_eq!(SearchResponse { results: vec![] }.first_id(), None);
}

#[test]
fn show_endpoint_names_the_series() {
    assert_eq!(show_endpoint(1396), "https://api.themoviedb.org/3/tv/1396");
}
