use discrakt::presence::{
    build_payload, build_payload_at, media_kind, percent_watched, read_window, Button, MediaKind,
    PayloadError, PresencePayload,
};
use discrakt::rating::Rating;
use discrakt::trakt::{TraktEpisode, TraktIds, TraktMovie, TraktShow, TraktWatchingResponse};

const T0: i64 = 1_704_067_200;

fn ids_of(slug: Option<&str>, imdb: Option<&str>) -> TraktIds {
    TraktIds {
        trakt: 1,
        slug: slug.map(String::from),
        tvdb: None,
        imdb: imdb.map(String::from),
        tmdb: None,
        tvrage: None,
    }
}

fn record(kind: &str) -> TraktWatchingResponse {
    TraktWatchingResponse {
        expires_at: String::from("2024-01-01T02:00:00.000Z"),
        started_at: String::from("2024-01-01T00:00:00.000Z"),
        action: String::from("watching"),
        kind: String::from(kind),
        movie: None,
        show: None,
        episode: None,
    }
}

fn inception(imdb: Option<&str>) -> TraktWatchingResponse {
    let mut watching = record("movie");
    watching.movie = Some(TraktMovie {
        title: String::from("Inception"),
        year: 2010,
        ids: ids_of(Some("inception-2010"), imdb),
    });
    watching
}

fn episode_of(season: u8, number: u8, title: &str, imdb: Option<&str>) -> TraktWatchingResponse {
    let mut watching = record("episode");
    watching.show = Some(TraktShow {
        title: String::from("Breaking Bad"),
        year: 2008,
        ids: ids_of(Some("breaking-bad"), imdb),
    });
    watching.episode = Some(TraktEpisode {
        season,
        number,
        title: String::from(title),
        ids: ids_of(None, None),
    });
    watching
}

fn rated(tenths: u8) -> Rating {
    Rating::from_tenths(tenths).unwrap()
}

fn built(watching: &TraktWatchingResponse, tenths: u8) -> PresencePayload {
    build_payload(watching, rated(tenths)).unwrap()
}

fn failure(watching: &TraktWatchingResponse) -> PayloadError {
    match build_payload(watching, rated(50)) {
        Ok(_) => panic!("expected no payload"),
        Err(e) => e,
    }
}

fn links(buttons: &[Button]) -> Vec<(String, String)> {
    let mut out = Vec::new();
    for b in buttons {
        out.push((b.label.clone(), b.url.clone()));
    }
    out
}

#[test]
fn scenario_movie_inception() {
    let payload = built(&inception(Some("tt1375666")), 88);
    assert_eq!(payload.details, "Inception");
    assert!(payload.state.contains("2010"));
    assert_eq!(payload.state, "📅 2010");
    assert_eq!(payload.small_text, "⭐️ 8.8/10");
    assert_eq!(payload.large_image, "movies");
    assert_eq!(payload.small_image, "rating");
    assert!(payload.large_text.is_none());
    assert_eq!(payload.start, T0);
    assert_eq!(payload.end, T0 + 7200);
}

#[test]
fn scenario_episode_pilot() {
    let payload = built(&episode_of(1, 1, "Pilot", None), 90);
    assert_eq!(payload.details, "Breaking Bad");
    assert_eq!(payload.state, "1x01 \"Pilot\"");
    assert_eq!(payload.small_text, "⭐️ 9.0/10");
    assert_eq!(payload.large_image, "shows");
    assert_eq!(payload.small_image, "rating");
}

#[test]
fn movie_lines_do_not_depend_on_the_rating() {
    for tenths in [0u8, 1, 50, 88, 100] {
        let payload = built(&inception(None), tenths);
        assert_eq!(payload.details, "Inception");
        assert_eq!(payload.state, "📅 2010");
    }
}

#[test]
fn episode_numbers_below_ten_are_padded() {
    for number in 1..=9u8 {
        let payload = built(&episode_of(3, number, "Title", None), 50);
        assert_eq!(payload.state, format!("3x0{} \"Title\"", number));
    }
    let payload = built(&episode_of(1, 0, "Special", None), 50);
    assert_eq!(payload.state, "1x00 \"Special\"");
}

#[test]
fn episode_numbers_from_ten_are_not_padded() {
    for number in [10u8, 11, 25, 99, 100, 255] {
        let payload = built(&episode_of(3, number, "Title", None), 50);
        assert_eq!(payload.state, format!("3x{} \"Title\"", number));
    }
}

#[test]
fn season_is_never_padded() {
    assert_eq!(built(&episode_of(0, 4, "A", None), 50).state, "0x04 \"A\"");
    assert_eq!(built(&episode_of(12, 4, "A", None), 50).state, "12x04 \"A\"");
}

#[test]
fn unknown_kind_gives_no_payload() {
    for kind in ["", "show", "Movie", "episodes", "podcast"] {
        let mut watching = inception(None);
        watching.kind = String::from(kind);
        assert_eq!(failure(&watching), PayloadError::UnsupportedKind);
        assert_eq!(media_kind(&watching), Err(PayloadError::UnsupportedKind));
    }
}

#[test]
fn episode_kind_without_an_episode_is_unsupported() {
    let mut watching = episode_of(1, 1, "Pilot", None);
    watching.episode = None;
    assert_eq!(failure(&watching), PayloadError::UnsupportedKind);
}

#[test]
fn movie_kind_without_a_movie_is_incomplete() {
    let watching = record("movie");
    assert_eq!(failure(&watching), PayloadError::IncompleteRecord);
}

#[test]
fn title_without_a_slug_is_incomplete() {
    let mut movie = inception(None);
    movie.movie.as_mut().unwrap().ids.slug = None;
    assert_eq!(failure(&movie), PayloadError::IncompleteRecord);
    let mut episode = episode_of(1, 1, "Pilot", None);
    episode.show.as_mut().unwrap().ids.slug = None;
    assert_eq!(failure(&episode), PayloadError::IncompleteRecord);
}

#[test]
fn episode_without_its_show_is_incomplete() {
    let mut watching = episode_of(1, 1, "Pilot", None);
    watching.show = None;
    assert_eq!(failure(&watching), PayloadError::IncompleteRecord);
}

#[test]
fn kinds_are_told_apart() {
    assert_eq!(media_kind(&inception(None)), Ok(MediaKind::Movie));
    assert_eq!(media_kind(&episode_of(1, 1, "Pilot", None)), Ok(MediaKind::Episode));
}

#[test]
fn malformed_start_gives_no_payload() {
    let mut watching = inception(None);
    watching.started_at = String::from("yesterday");
    assert_eq!(failure(&watching), PayloadError::MalformedTimestamp);
    assert!(read_window(&watching).is_none());
}

#[test]
fn malformed_expiry_gives_no_payload() {
    let mut watching = inception(None);
    watching.expires_at = String::from("2024-13-01T00:00:00Z");
    assert_eq!(failure(&watching), PayloadError::MalformedTimestamp);
}

#[test]
fn malformed_timestamp_is_reported_before_the_kind() {
    let mut watching = record("podcast");
    watching.started_at = String::new();
    assert_eq!(failure(&watching), PayloadError::MalformedTimestamp);
}

#[test]
fn timestamps_are_read_as_epoch_seconds() {
    let mut watching = inception(None);
    watching.started_at = String::from("1970-01-01T00:00:00Z");
    watching.expires_at = String::from("2024-01-01T01:00:00+01:00");
    assert_eq!(read_window(&watching), Some((0, T0)));
    let payload = built(&watching, 50);
    assert_eq!(payload.start, 0);
    assert_eq!(payload.end, T0);
}

#[test]
fn window_is_handed_on_as_given() {
    let payload = build_payload_at(&inception(None), rated(88), -5, 12).unwrap();
    assert_eq!(payload.start, -5);
    assert_eq!(payload.end, 12);
    assert_eq!(payload.details, "Inception");
}

#[test]
fn movie_known_to_the_catalogue_links_there_once() {
    let payload = built(&inception(Some("tt1375666")), 88);
    assert_eq!(
        links(&payload.buttons),
        vec![
            (
                String::from("View movie on IMDB"),
                String::from("https://www.imdb.com/title/tt1375666")
            ),
            (
                String::from("View movie on Trakt"),
                String::from("https://trakt.tv/movies/inception-2010")
            ),
        ]
    );
    let to_catalogue =
        payload.buttons.iter().filter(|b| b.url.starts_with("https://www.imdb.com/")).count();
    assert_eq!(to_catalogue, 1);
}

#[test]
fn movie_unknown_to_the_catalogue_has_no_link_there() {
    let payload = built(&inception(None), 88);
    assert_eq!(
        links(&payload.buttons),
        vec![(
            String::from("View movie on Trakt"),
            String::from("https://trakt.tv/movies/inception-2010")
        )]
    );
    assert!(payload.buttons.iter().all(|b| !b.url.contains("imdb")));
    assert!(payload.buttons.iter().all(|b| !b.label.trim().is_empty()));
}

#[test]
fn show_links_use_the_show_ids() {
    let payload = built(&episode_of(1, 1, "Pilot", Some("tt0903747")), 88);
    assert_eq!(
        links(&payload.buttons),
        vec![
            (
                String::from("View show on IMDB"),
                String::from("https://www.imdb.com/title/tt0903747")
            ),
            (
                String::from("View show on Trakt"),
                String::from("https://trakt.tv/shows/breaking-bad")
            ),
        ]
    );
    let without = built(&episode_of(1, 1, "Pilot", None), 88);
    assert_eq!(without.buttons.len(), 1);
    assert_eq!(without.buttons[0].url, "https://trakt.tv/shows/breaking-bad");
}

#[test]
fn copy_of_a_payload_is_the_same() {
    let payload = built(&inception(Some("tt1375666")), 88).with_progress(T0 + 60);
    let copy = payload.clone();
    assert_eq!(copy.details, payload.details);
    assert_eq!(copy.state, payload.state);
    assert_eq!(copy.large_image, payload.large_image);
    assert_eq!(copy.large_text, payload.large_text);
    assert_eq!(copy.small_image, payload.small_image);
    assert_eq!(copy.small_text, payload.small_text);
    assert_eq!(copy.start, payload.start);
    assert_eq!(copy.end, payload.end);
    assert_eq!(links(&copy.buttons), links(&payload.buttons));
}

#[test]
fn percent_watched_is_the_share_of_the_window() {
    assert_eq!(percent_watched(50, 0, 100), 50);
    assert_eq!(percent_watched(T0 + 1800, T0, T0 + 7200), 25);
    assert_eq!(percent_watched(1, 0, 3), 33);
    assert_eq!(percent_watched(2, 0, 3), 66);
    assert_eq!(percent_watched(99, 0, 100), 99);
}

#[test]
fn percent_watched_is_clamped() {
    assert_eq!(percent_watched(-10, 0, 100), 0);
    assert_eq!(percent_watched(0, 0, 100), 0);
    assert_eq!(percent_watched(100, 0, 100), 100);
    assert_eq!(percent_watched(1000, 0, 100), 100);
    assert_eq!(percent_watched(5, 10, 10), 0);
    assert_eq!(percent_watched(10, 10, 10), 100);
    assert_eq!(percent_watched(7, 10, 5), 100);
    assert_eq!(percent_watched(i64::MAX - 1, i64::MIN, i64::MAX), 99);
    assert_eq!(percent_watched(0, i64::MIN, i64::MAX), 50);
}

#[test]
fn progress_is_shown_over_the_large_image() {
    let payload = built(&inception(None), 88).with_progress(T0 + 1800);
    assert_eq!(payload.large_text.as_deref(), Some("25% watched | 75% remaining"));
    assert_eq!(payload.details, "Inception");
    assert_eq!(payload.state, "📅 2010");
    assert_eq!(payload.small_text, "⭐️ 8.8/10");
    assert_eq!(payload.start, T0);
    assert_eq!(payload.end, T0 + 7200);
    assert_eq!(payload.buttons.len(), 1);
    let before = built(&inception(None), 88).with_progress(T0 - 1);
    assert_eq!(before.large_text.as_deref(), Some("0% watched | 100% remaining"));
    let after = built(&inception(None), 88).with_progress(T0 + 9000);
    assert_eq!(after.large_text.as_deref(), Some("100% watched | 0% remaining"));
}
