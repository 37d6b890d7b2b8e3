use member_info::presence::{
    render_activity, render_presence, search_queries, ActivityEntry, ActivityKind, EnrichedTrack,
    EnrichmentError, OnlineStatus, Presence, SearchOutcome, SEARCH_LIMIT, SEARCH_OFFSET,
};

#[test]
fn search_asks_for_the_single_best_match() {
    assert_eq!(SEARCH_LIMIT, 1);
    assert_eq!(SEARCH_OFFSET, 0);
}

fn entry(kind: ActivityKind, name: &str) -> ActivityEntry {
    ActivityEntry {
        kind,
        name: name.to_string(),
        details: None,
        state: None,
        large_text: None,
        small_text: None,
    }
}

fn spotify() -> ActivityEntry {
    ActivityEntry {
        kind: ActivityKind::Listening,
        name: "Spotify".to_string(),
        details: Some("Song".to_string()),
        state: Some("Artist1;Artist2".to_string()),
        large_text: Some("Album".to_string()),
        small_text: None,
    }
}

fn track(url: &str) -> EnrichedTrack {
    EnrichedTrack {
        title: "Song".to_string(),
        artist: "Artist1".to_string(),
        album: "Album".to_string(),
        art_url: url.to_string(),
    }
}

#[test]
fn no_presence_gives_empty_phrases() {
    let outcomes = vec![SearchOutcome::Found(vec![track("https://art/1")])];
    let text = render_presence("bob", None, &outcomes);
    assert_eq!(text.status, "");
    assert_eq!(text.activities, "");
    assert_eq!(text.thumbnail, None);
}

#[test]
fn do_not_disturb_without_activities() {
    let presence = Presence { status: OnlineStatus::DoNotDisturb, activities: vec![] };
    let text = render_presence("bob", Some(&presence), &vec![]);
    assert_eq!(text.status, "bob is currently in **Do Not Disturb** mode.\n\n");
    assert!(text.status.ends_with("in **Do Not Disturb** mode.\n\n"));
    assert_eq!(text.activities, "");
    assert_eq!(text.thumbnail, None);
}

#[test]
fn every_status_has_its_label() {
    let cases = [
        (OnlineStatus::Online, "amy is currently **Online**.\n\n"),
        (OnlineStatus::Idle, "amy is currently **Idle**.\n\n"),
        (OnlineStatus::Invisible, "amy is currently **Invisible**.\n\n"),
        (OnlineStatus::Offline, "amy is currently **Offline**.\n\n"),
    ];
    for (status, expected) in cases {
        let presence = Presence { status, activities: vec![] };
        assert_eq!(render_presence("amy", Some(&presence), &vec![]).status, expected);
    }
}

#[test]
fn music_activity_is_enriched() {
    let outcome = SearchOutcome::Found(vec![track("https://art/1"), track("https://art/2")]);
    let rendered = render_activity(&spotify(), &outcome);
    assert_eq!(
        rendered.phrase,
        "listening to **Song** by **Artist1 & Artist2** on the album **Album** via **Spotify**"
    );
    assert_eq!(rendered.thumbnail, Some("https://art/1".to_string()));
}

#[test]
fn music_activity_without_results_degrades() {
    let rendered = render_activity(&spotify(), &SearchOutcome::Found(vec![]));
    assert_eq!(rendered.phrase, "listening to **Spotify**");
    assert_eq!(rendered.thumbnail, None);
    assert_eq!(
        spotify().enrich(&SearchOutcome::Found(vec![])),
        Err(EnrichmentError::NoResults)
    );
}

#[test]
fn music_activity_with_failed_search_degrades() {
    for outcome in [SearchOutcome::Failed, SearchOutcome::NotAsked] {
        let rendered = render_activity(&spotify(), &outcome);
        assert_eq!(rendered.phrase, "listening to **Spotify**");
        assert_eq!(rendered.thumbnail, None);
        assert_eq!(spotify().enrich(&outcome), Err(EnrichmentError::SearchFailed));
    }
}

#[test]
fn music_activity_without_details_degrades() {
    let mut a = spotify();
    a.large_text = None;
    let outcome = SearchOutcome::Found(vec![track("https://art/1")]);
    assert_eq!(a.enrich(&outcome), Err(EnrichmentError::MissingDetails));
    let rendered = render_activity(&a, &outcome);
    assert_eq!(rendered.phrase, "listening to **Spotify**");
    assert_eq!(rendered.thumbnail, None);
    assert_eq!(a.search_query(), None);
}

#[test]
fn enrich_gives_first_art_url() {
    let outcome = SearchOutcome::Found(vec![track("https://art/1"), track("https://art/2")]);
    assert_eq!(spotify().enrich(&outcome), Ok("https://art/1".to_string()));
}

#[test]
fn search_query_combines_track_artist_album() {
    assert_eq!(
        spotify().search_query(),
        Some("track: Song artist: Artist1 AND Artist2 album: Album".to_string())
    );
    let mut a = spotify();
    a.state = Some("Simon & Garfunkel".to_string());
    a.large_text = Some("Bridge & Water".to_string());
    assert_eq!(
        a.search_query(),
        Some("track: Song artist: Simon AND Garfunkel album: Bridge %26 Water".to_string())
    );
}

#[test]
fn only_spotify_listening_asks_for_a_search() {
    let mut other = spotify();
    other.name = "Deezer".to_string();
    assert_eq!(other.search_query(), None);
    let mut playing = spotify();
    playing.kind = ActivityKind::Playing;
    assert_eq!(playing.search_query(), None);
    let presence = Presence {
        status: OnlineStatus::Online,
        activities: vec![other, spotify(), entry(ActivityKind::Custom, "hi")],
    };
    let queries = search_queries(&presence);
    assert_eq!(
        queries,
        vec![
            None,
            Some("track: Song artist: Artist1 AND Artist2 album: Album".to_string()),
            None
        ]
    );
}

#[test]
fn generic_listening_and_playing() {
    let a = render_activity(&entry(ActivityKind::Listening, "Deezer"), &SearchOutcome::NotAsked);
    assert_eq!(a.phrase, "listening to **Deezer**");
    let b = render_activity(&entry(ActivityKind::Playing, "Chess"), &SearchOutcome::NotAsked);
    assert_eq!(b.phrase, "playing **Chess**");
}

#[test]
fn watching_streaming_and_other() {
    let none = SearchOutcome::NotAsked;
    assert_eq!(
        render_activity(&entry(ActivityKind::Watching, "a film"), &none).phrase,
        "watching **a film**"
    );
    assert_eq!(
        render_activity(&entry(ActivityKind::Streaming, "Twitch"), &none).phrase,
        "streaming on **Twitch**"
    );
    assert_eq!(render_activity(&entry(ActivityKind::Other, "Thing"), &none).phrase, " **Thing**");
}

#[test]
fn development_activity_names_file_and_project() {
    let a = ActivityEntry {
        kind: ActivityKind::Playing,
        name: "Visual Studio Code".to_string(),
        details: Some("Editing main.rs".to_string()),
        state: Some("Workspace: bot".to_string()),
        large_text: None,
        small_text: Some("Code - Insiders".to_string()),
    };
    let rendered = render_activity(&a, &SearchOutcome::NotAsked);
    assert_eq!(
        rendered.phrase,
        "working on the file **main.rs** in the project **bot** with **Code - Insiders**"
    );
    assert_eq!(rendered.thumbnail, None);
}

#[test]
fn development_activity_strips_prefixes_only_at_the_front() {
    let a = ActivityEntry {
        kind: ActivityKind::Playing,
        name: "Visual Studio Code".to_string(),
        details: Some("Not Editing x.rs".to_string()),
        state: Some("My Workspace: y".to_string()),
        large_text: None,
        small_text: None,
    };
    assert_eq!(
        render_activity(&a, &SearchOutcome::NotAsked).phrase,
        "working on the file **Not Editing x.rs** in the project **My Workspace: y** with **Visual Studio Code**"
    );
}

#[test]
fn development_activity_without_details_is_generic() {
    let a = entry(ActivityKind::Playing, "Visual Studio Code");
    assert_eq!(
        render_activity(&a, &SearchOutcome::NotAsked).phrase,
        "playing **Visual Studio Code**"
    );
}

#[test]
fn activities_are_joined_in_order_and_custom_is_hidden() {
    let presence = Presence {
        status: OnlineStatus::Idle,
        activities: vec![
            entry(ActivityKind::Custom, "my status"),
            entry(ActivityKind::Playing, "Chess"),
            spotify(),
            entry(ActivityKind::Watching, "a film"),
        ],
    };
    let outcomes = vec![
        SearchOutcome::NotAsked,
        SearchOutcome::NotAsked,
        SearchOutcome::Found(vec![track("https://art/9")]),
    ];
    let text = render_presence("amy", Some(&presence), &outcomes);
    assert_eq!(text.status, "amy is currently **Idle**");
    assert_eq!(
        text.activities,
        "; playing **Chess** and listening to **Song** by **Artist1 & Artist2** on the album **Album** via **Spotify** and watching **a film**.\n\n"
    );
    assert_eq!(text.thumbnail, Some("https://art/9".to_string()));
}

#[test]
fn only_custom_activities_count_as_none() {
    let presence = Presence {
        status: OnlineStatus::Online,
        activities: vec![entry(ActivityKind::Custom, "my status")],
    };
    let text = render_presence("amy", Some(&presence), &vec![]);
    assert_eq!(text.status, "amy is currently **Online**.\n\n");
    assert_eq!(text.activities, "");
}

#[test]
fn thumbnail_comes_from_first_enriched_activity() {
    let presence =
        Presence { status: OnlineStatus::Online, activities: vec![spotify(), spotify()] };
    let outcomes = vec![SearchOutcome::Found(vec![]), SearchOutcome::Found(vec![track("u2")])];
    let text = render_presence("amy", Some(&presence), &outcomes);
    assert_eq!(text.thumbnail, Some("u2".to_string()));
    assert_eq!(
        text.activities,
        "; listening to **Spotify** and listening to **Song** by **Artist1 & Artist2** on the album **Album** via **Spotify**.\n\n"
    );
}

#[test]
fn missing_outcomes_count_as_not_asked() {
    let presence = Presence { status: OnlineStatus::Online, activities: vec![spotify()] };
    let text = render_presence("amy", Some(&presence), &vec![]);
    assert_eq!(text.activities, "; listening to **Spotify**.\n\n");
    assert_eq!(text.thumbnail, None);
}
