//! The presence shown in the chat client: what it says for a watching record.

use crate::rating::{rating_text, Rating};
use crate::text::{
    decimal, digit_char, lemma_two_digit_padding, push_decimal, push_two_digit, two_digit,
};
use crate::timestamp::{parse_rfc3339, rfc3339_epoch_seconds};
use crate::trakt::{TraktIds, TraktWatchingResponse};
use vstd::prelude::*;

verus! {

/// The kinds of media for which a presence is shown.
#[derive(Clone, Copy, Debug, PartialEq, Eq, Structural)]
pub enum MediaKind {
    Movie,
    Episode,
}

/// Why a watching record gives no presence.
#[derive(Clone, Copy, Debug, PartialEq, Eq, Structural)]
pub enum PayloadError {
    /// The start or the expiry is not an RFC 3339 date and time.
    MalformedTimestamp,
    /// The media kind is neither a movie nor an episode.
    UnsupportedKind,
    /// The record lacks the title that its kind announces, or that title's
    /// slug.
    IncompleteRecord,
}

/// A link shown under the presence.
#[derive(Debug)]
pub struct Button {
    pub label: String,
    pub url: String,
}

/// A link as plain values.
pub struct ButtonView {
    pub label: Seq<char>,
    pub url: Seq<char>,
}

impl View for Button {
    type V = ButtonView;

    open spec fn view(&self) -> ButtonView {
        ButtonView { label: self.label@, url: self.url@ }
    }
}

/// What the chat client is asked to show.
#[derive(Debug)]
pub struct PresencePayload {
    /// The first line: the title.
    pub details: String,
    /// The second line: the year of a movie, or the code and title of an
    /// episode.
    pub state: String,
    /// The key of the large image: the kind of media.
    pub large_image: String,
    /// The text over the large image: the progress of the viewing, if any.
    pub large_text: Option<String>,
    /// The key of the small image.
    pub small_image: String,
    /// The text over the small image: the rating.
    pub small_text: String,
    /// Start of the viewing, in seconds since the Unix epoch.
    pub start: i64,
    /// End of the expected viewing window, in seconds since the Unix epoch.
    pub end: i64,
    /// The links, one for each page that the title is known to have.
    pub buttons: Vec<Button>,
}

/// A payload as plain values.
pub struct PayloadView {
    pub details: Seq<char>,
    pub state: Seq<char>,
    pub large_image: Seq<char>,
    pub large_text: Option<Seq<char>>,
    pub small_image: Seq<char>,
    pub small_text: Seq<char>,
    pub start: i64,
    pub end: i64,
    pub buttons: Seq<ButtonView>,
}

impl View for PresencePayload {
    type V = PayloadView;

    open spec fn view(&self) -> PayloadView {
        PayloadView {
            details: self.details@,
            state: self.state@,
            large_image: self.large_image@,
            large_text: match self.large_text {
                Some(text) => Some(text@),
                None => None,
            },
            small_image: self.small_image@,
            small_text: self.small_text@,
            start: self.start,
            end: self.end,
            buttons: button_views(self.buttons@),
        }
    }
}

/// The links of a payload as plain values.
pub open spec fn button_views(buttons: Seq<Button>) -> Seq<ButtonView> {
    buttons.map_values(|b: Button| b@)
}

impl Clone for Button {
    fn clone(&self) -> (copy: Button)
        ensures
            copy@ == self@,
    {
        Button { label: self.label.clone(), url: self.url.clone() }
    }
}

impl Clone for PresencePayload {
    fn clone(&self) -> (copy: PresencePayload)
        ensures
            copy@ == self@,
    {
        let mut buttons: Vec<Button> = Vec::new();
        let mut i: usize = 0;
        while i < self.buttons.len()
            invariant
                i <= self.buttons.len(),
                buttons.len() == i,
                forall|k: int| 0 <= k < i ==> buttons[k]@ == self.buttons[k]@,
            decreases self.buttons.len() - i,
        {
            buttons.push(self.buttons[i].clone());
            i += 1;
        }
        assert(button_views(buttons@) =~= button_views(self.buttons@));
        PresencePayload {
            details: self.details.clone(),
            state: self.state.clone(),
            large_image: self.large_image.clone(),
            large_text: match &self.large_text {
                Some(text) => Some(text.clone()),
                None => None,
            },
            small_image: self.small_image.clone(),
            small_text: self.small_text.clone(),
            start: self.start,
            end: self.end,
            buttons,
        }
    }
}

/// The kind of media that a watching record is about, once the record is
/// known to hold what a presence of that kind needs: the movie and its slug,
/// or the episode, its show and the show's slug.
pub open spec fn classify(watching: TraktWatchingResponse) -> Result<MediaKind, PayloadError> {
    if watching.kind@ == "movie"@ {
        if watching.movie is Some && watching.movie->0.ids.slug is Some {
            Ok(MediaKind::Movie)
        } else {
            Err(PayloadError::IncompleteRecord)
        }
    } else if watching.kind@ == "episode"@ && watching.episode is Some {
        if watching.show is Some && watching.show->0.ids.slug is Some {
            Ok(MediaKind::Episode)
        } else {
            Err(PayloadError::IncompleteRecord)
        }
    } else {
        Err(PayloadError::UnsupportedKind)
    }
}

/// The identifiers of the title that the presence is about: the movie's, or
/// the show's for an episode.
pub open spec fn title_ids(watching: TraktWatchingResponse) -> TraktIds
    recommends
        classify(watching) is Ok,
{
    if classify(watching) == Ok::<MediaKind, PayloadError>(MediaKind::Movie) {
        watching.movie->0.ids
    } else {
        watching.show->0.ids
    }
}

/// The state line of a movie: a calendar and the year of release.
pub open spec fn year_line(year: nat) -> Seq<char> {
    "\u{1f4c5} "@ + decimal(year)
}

/// The code of an episode: the season, an `x`, and the number of the episode
/// in at least two digits.
pub open spec fn episode_code(season: nat, number: nat) -> Seq<char> {
    decimal(season) + "x"@ + two_digit(number)
}

/// The state line of an episode: its code and its title in quotes.
pub open spec fn episode_line(season: nat, number: nat, title: Seq<char>) -> Seq<char> {
    episode_code(season, number) + " \""@ + title + "\""@
}

/// The key of the large image for a kind of media, which is also how the
/// tracking service names the kind in the address of a title's page.
pub open spec fn media_tag(kind: MediaKind) -> Seq<char> {
    match kind {
        MediaKind::Movie => "movies"@,
        MediaKind::Episode => "shows"@,
    }
}

/// The page of the title `id` in the external catalogue.
pub open spec fn imdb_url(id: Seq<char>) -> Seq<char> {
    "https://www.imdb.com/title/"@ + id
}

/// The page of the title `slug` at the tracking service.
pub open spec fn trakt_url(kind: MediaKind, slug: Seq<char>) -> Seq<char> {
    "https://trakt.tv/"@ + media_tag(kind) + "/"@ + slug
}

/// The link to the title's page in the external catalogue.
pub open spec fn imdb_button(kind: MediaKind, id: Seq<char>) -> ButtonView {
    ButtonView {
        label: match kind {
            MediaKind::Movie => "View movie on IMDB"@,
            MediaKind::Episode => "View show on IMDB"@,
        },
        url: imdb_url(id),
    }
}

/// The link to the title's page at the tracking service.
pub open spec fn trakt_button(kind: MediaKind, slug: Seq<char>) -> ButtonView {
    ButtonView {
        label: match kind {
            MediaKind::Movie => "View movie on Trakt"@,
            MediaKind::Episode => "View show on Trakt"@,
        },
        url: trakt_url(kind, slug),
    }
}

/// The links of a title: the external catalogue's where the title is known
/// there, then the tracking service's.
pub open spec fn link_buttons(kind: MediaKind, ids: TraktIds) -> Seq<ButtonView>
    recommends
        ids.slug is Some,
{
    match ids.imdb {
        Some(id) => seq![imdb_button(kind, id@), trakt_button(kind, ids.slug->0@)],
        None => seq![trakt_button(kind, ids.slug->0@)],
    }
}

/// The presence for a watching record, a rating in tenths of a point, and a
/// viewing window.
pub open spec fn payload_of(
    watching: TraktWatchingResponse,
    rating: nat,
    start: i64,
    end: i64,
) -> PayloadView
    recommends
        classify(watching) is Ok,
{
    if classify(watching) == Ok::<MediaKind, PayloadError>(MediaKind::Movie) {
        let movie = watching.movie->0;
        PayloadView {
            details: movie.title@,
            state: year_line(movie.year as nat),
            large_image: media_tag(MediaKind::Movie),
            large_text: None,
            small_image: "rating"@,
            small_text: rating_text(rating),
            start,
            end,
            buttons: link_buttons(MediaKind::Movie, movie.ids),
        }
    } else {
        let episode = watching.episode->0;
        let show = watching.show->0;
        PayloadView {
            details: show.title@,
            state: episode_line(episode.season as nat, episode.number as nat, episode.title@),
            large_image: media_tag(MediaKind::Episode),
            large_text: None,
            small_image: "rating"@,
            small_text: rating_text(rating),
            start,
            end,
            buttons: link_buttons(MediaKind::Episode, show.ids),
        }
    }
}

/// What building the presence for a record within a given window yields.
pub open spec fn payload_at(
    watching: TraktWatchingResponse,
    rating: nat,
    start: i64,
    end: i64,
) -> Result<PayloadView, PayloadError> {
    match classify(watching) {
        Ok(_) => Ok(payload_of(watching, rating, start, end)),
        Err(e) => Err(e),
    }
}

/// The viewing window of a record: its start and its expiry in seconds since
/// the Unix epoch, where both are RFC 3339 dates and times.
pub open spec fn viewing_window(watching: TraktWatchingResponse) -> Option<(i64, i64)> {
    match (
        rfc3339_epoch_seconds(watching.started_at@),
        rfc3339_epoch_seconds(watching.expires_at@),
    ) {
        (Some(start), Some(end)) => Some((start, end)),
        _ => None,
    }
}

/// What building the presence for a record yields.
pub open spec fn payload_for(watching: TraktWatchingResponse, rating: nat) -> Result<
    PayloadView,
    PayloadError,
> {
    match viewing_window(watching) {
        Some((start, end)) => payload_at(watching, rating, start, end),
        None => Err(PayloadError::MalformedTimestamp),
    }
}

/// Whether `part` occurs in `line` as a run of consecutive characters.
pub open spec fn contains_text(line: Seq<char>, part: Seq<char>) -> bool {
    exists|from: int, to: int|
        0 <= from <= to <= line.len() && #[trigger] line.subrange(from, to) == part
}

/// Whether a link leads to the external catalogue.
pub open spec fn targets_imdb(button: ButtonView) -> bool {
    "https://www.imdb.com/title/"@.is_prefix_of(button.url)
}

/// The links among `buttons` that lead to the external catalogue.
pub open spec fn imdb_links(buttons: Seq<ButtonView>) -> Seq<ButtonView> {
    buttons.filter(|b: ButtonView| targets_imdb(b))
}

/// The links to the external catalogue that a title is to have: one, to the
/// page that its identifier there gives, or none where it has no such
/// identifier.
pub open spec fn imdb_links_of(kind: MediaKind, ids: TraktIds) -> Seq<ButtonView> {
    match ids.imdb {
        Some(id) => seq![imdb_button(kind, id@)],
        None => Seq::empty(),
    }
}

/// Tells the kind of media that a watching record is about, and whether the
/// record holds what a presence of that kind needs.
pub fn media_kind(watching: &TraktWatchingResponse) -> (kind: Result<MediaKind, PayloadError>)
    ensures
        kind == classify(*watching),
{
    let movie_tag = String::from_str("movie");
    let episode_tag = String::from_str("episode");
    if watching.kind == movie_tag {
        match &watching.movie {
            Some(movie) => {
                if movie.ids.slug.is_some() {
                    Ok(MediaKind::Movie)
                } else {
                    Err(PayloadError::IncompleteRecord)
                }
            },
            None => Err(PayloadError::IncompleteRecord),
        }
    } else if watching.kind == episode_tag && watching.episode.is_some() {
        match &watching.show {
            Some(show) => {
                if show.ids.slug.is_some() {
                    Ok(MediaKind::Episode)
                } else {
                    Err(PayloadError::IncompleteRecord)
                }
            },
            None => Err(PayloadError::IncompleteRecord),
        }
    } else {
        Err(PayloadError::UnsupportedKind)
    }
}

/// Builds the links of a title.
fn make_buttons(kind: MediaKind, ids: &TraktIds, slug: &String) -> (buttons: Vec<Button>)
    requires
        ids.slug == Some(*slug),
    ensures
        button_views(buttons@) == link_buttons(kind, *ids),
{
    let mut buttons: Vec<Button> = Vec::new();
    match &ids.imdb {
        Some(id) => {
            let label = match kind {
                MediaKind::Movie => String::from_str("View movie on IMDB"),
                MediaKind::Episode => String::from_str("View show on IMDB"),
            };
            let mut url = String::from_str("https://www.imdb.com/title/");
            url.append(id.as_str());
            buttons.push(Button { label, url });
        },
        None => {},
    }
    let label = match kind {
        MediaKind::Movie => String::from_str("View movie on Trakt"),
        MediaKind::Episode => String::from_str("View show on Trakt"),
    };
    let mut url = String::from_str("https://trakt.tv/");
    match kind {
        MediaKind::Movie => url.append("movies"),
        MediaKind::Episode => url.append("shows"),
    }
    url.append("/");
    url.append(slug.as_str());
    buttons.push(Button { label, url });
    buttons
}

/// Builds the presence for a watching record whose viewing window is known.
///
/// The first line is the title of the movie or of the show.  The second is
/// the year of a movie, or the code and the quoted title of an episode.  The
/// rating goes over the small image, the window is handed on as it is, and
/// there is a link for each page that the title is known to have.  A record
/// of another kind, or one that lacks its title, gives no presence.
pub fn build_payload_at(
    watching: &TraktWatchingResponse,
    rating: Rating,
    start: i64,
    end: i64,
) -> (built: Result<PresencePayload, PayloadError>)
    ensures
        match payload_at(*watching, rating@, start, end) {
            Ok(payload) => built is Ok && built->Ok_0@ == payload,
            Err(e) => built == Err::<PresencePayload, PayloadError>(e),
        },
        watching.kind@ != "movie"@ && watching.kind@ != "episode"@ ==> built == Err::<
            PresencePayload,
            PayloadError,
        >(PayloadError::UnsupportedKind),
        classify(*watching) == Ok::<MediaKind, PayloadError>(MediaKind::Movie) ==> built is Ok
            && built->Ok_0.details@ == watching.movie->0.title@ && contains_text(
            built->Ok_0.state@,
            decimal(watching.movie->0.year as nat),
        ),
        built matches Ok(payload) ==> imdb_links(payload@.buttons) == imdb_links_of(
            classify(*watching)->Ok_0,
            title_ids(*watching),
        ),
{
    let kind = media_kind(watching)?;
    proof {
        lemma_links_follow_ids(kind, title_ids(*watching));
    }
    match kind {
        MediaKind::Movie => {
            let movie = watching.movie.as_ref().unwrap();
            let slug = movie.ids.slug.as_ref().unwrap();
            let mut state = String::from_str("\u{1f4c5} ");
            push_decimal(&mut state, movie.year as u32);
            proof {
                lemma_year_line_shows_year(movie.year as nat);
            }
            Ok(
                PresencePayload {
                    details: movie.title.clone(),
                    state,
                    large_image: String::from_str("movies"),
                    large_text: None,
                    small_image: String::from_str("rating"),
                    small_text: rating.text(),
                    start,
                    end,
                    buttons: make_buttons(kind, &movie.ids, slug),
                },
            )
        },
        MediaKind::Episode => {
            let episode = watching.episode.as_ref().unwrap();
            let show = watching.show.as_ref().unwrap();
            let slug = show.ids.slug.as_ref().unwrap();
            let mut state = String::new();
            push_decimal(&mut state, episode.season as u32);
            state.append("x");
            push_two_digit(&mut state, episode.number as u32);
            state.append(" \"");
            state.append(episode.title.as_str());
            state.append("\"");
            assert(state@ =~= episode_line(
                episode.season as nat,
                episode.number as nat,
                episode.title@,
            ));
            Ok(
                PresencePayload {
                    details: show.title.clone(),
                    state,
                    large_image: String::from_str("shows"),
                    large_text: None,
                    small_image: String::from_str("rating"),
                    small_text: rating.text(),
                    start,
                    end,
                    buttons: make_buttons(kind, &show.ids, slug),
                },
            )
        },
    }
}

/// Reads the viewing window of a watching record.
pub fn read_window(watching: &TraktWatchingResponse) -> (window: Option<(i64, i64)>)
    ensures
        window == viewing_window(*watching),
{
    let start = parse_rfc3339(watching.started_at.as_str());
    let end = parse_rfc3339(watching.expires_at.as_str());
    match (start, end) {
        (Some(start), Some(end)) => Some((start, end)),
        _ => None,
    }
}

/// Builds the presence for a watching record: `build_payload_at` within the
/// window that the record's own timestamps give.  A record whose start or
/// expiry cannot be read gives no presence, whatever else it holds.
pub fn build_payload(watching: &TraktWatchingResponse, rating: Rating) -> (built: Result<
    PresencePayload,
    PayloadError,
>)
    ensures
        match payload_for(*watching, rating@) {
            Ok(payload) => built is Ok && built->Ok_0@ == payload,
            Err(e) => built == Err::<PresencePayload, PayloadError>(e),
        },
        watching.kind@ != "movie"@ && watching.kind@ != "episode"@ ==> built is Err,
        classify(*watching) == Ok::<MediaKind, PayloadError>(MediaKind::Movie) && viewing_window(
            *watching,
        ) is Some ==> built is Ok && built->Ok_0.details@ == watching.movie->0.title@
            && contains_text(built->Ok_0.state@, decimal(watching.movie->0.year as nat)),
        built matches Ok(payload) ==> imdb_links(payload@.buttons) == imdb_links_of(
            classify(*watching)->Ok_0,
            title_ids(*watching),
        ),
{
    match read_window(watching) {
        Some((start, end)) => build_payload_at(watching, rating, start, end),
        None => Err(PayloadError::MalformedTimestamp),
    }
}

/// The state line of a movie holds the year of release: the numeral follows
/// the calendar and the space.
pub proof fn lemma_year_line_shows_year(year: nat)
    ensures
        year_line(year).subrange(2, year_line(year).len() as int) == decimal(year),
        contains_text(year_line(year), decimal(year)),
{
    reveal_strlit("\u{1f4c5} ");
    let line = year_line(year);
    assert(line.subrange(2, line.len() as int) =~= decimal(year));
}

/// An episode below ten is shown in two digits, the first a zero; from ten
/// on its number stands as it is.  The season is never padded.
pub proof fn lemma_episode_code_padding(season: nat, number: nat)
    ensures
        number < 10 ==> episode_code(season, number) == decimal(season) + seq![
            'x',
            '0',
            digit_char(number),
        ],
        number >= 10 ==> episode_code(season, number) == decimal(season) + seq!['x'] + decimal(
            number,
        ) && decimal(number)[0] != '0',
{
    reveal_strlit("x");
    lemma_two_digit_padding(number);
    if number < 10 {
        assert(episode_code(season, number) =~= decimal(season) + seq![
            'x',
            '0',
            digit_char(number),
        ]);
    }
}

/// A link to the external catalogue is shown exactly when the title is known
/// there: one link, to the page that the title's identifier gives, and none
/// where the title has no such identifier.  The link to the tracking service
/// is always shown, and is the last.
pub proof fn lemma_links_follow_ids(kind: MediaKind, ids: TraktIds)
    requires
        ids.slug is Some,
    ensures
        imdb_links(link_buttons(kind, ids)) == imdb_links_of(kind, ids),
        ids.imdb is None ==> imdb_links(link_buttons(kind, ids)).len() == 0,
        ids.imdb is Some ==> imdb_links(link_buttons(kind, ids)).len() == 1 && imdb_links(
            link_buttons(kind, ids),
        )[0].url == imdb_url(ids.imdb->0@),
        link_buttons(kind, ids).last() == trakt_button(kind, ids.slug->0@),
{
    reveal_strlit("https://www.imdb.com/title/");
    reveal_strlit("https://trakt.tv/");
    reveal_with_fuel(Seq::filter, 3);
    let catalogue = "https://www.imdb.com/title/"@;
    let to_service = trakt_button(kind, ids.slug->0@);
    assert(!targets_imdb(to_service)) by {
        if catalogue.is_prefix_of(to_service.url) {
            assert(to_service.url.subrange(0, catalogue.len() as int)[8] == 't');
        }
    }
    let links = link_buttons(kind, ids);
    assert(links.drop_last() =~= imdb_links_of(kind, ids));
    if ids.imdb is Some {
        assert(targets_imdb(links[0])) by {
            assert(links[0].url.subrange(0, catalogue.len() as int) =~= catalogue);
        }
    }
}

/// How much of the viewing window has passed at `now`, in whole percent:
/// nothing before the start, all of it from the expiry on, and in between the
/// share of the window that lies behind, rounded down.
pub open spec fn watched_percent(now: int, start: int, end: int) -> int {
    if now >= end {
        100
    } else if now <= start {
        0
    } else {
        (now - start) * 100 / (end - start)
    }
}

/// The progress of the viewing as text: how much was watched and how much
/// remains, in percent.
pub open spec fn progress_text(now: int, start: int, end: int) -> Seq<char> {
    let watched = watched_percent(now, start, end);
    decimal(watched as nat) + "% watched | "@ + decimal((100 - watched) as nat) + "% remaining"@
}

/// A proper part of a whole is less than a hundred percent of it.
proof fn lemma_share_below_whole(passed: int, whole: int)
    requires
        0 < passed < whole,
    ensures
        0 <= passed * 100 / whole < 100,
{
    assert(0 <= passed * 100 / whole < 100) by (nonlinear_arith)
        requires
            0 < passed < whole,
    ;
}

/// Computes how much of the viewing window has passed at `now`, in whole
/// percent between 0 and 100.
pub fn percent_watched(now: i64, start: i64, end: i64) -> (percent: u8)
    ensures
        percent == watched_percent(now as int, start as int, end as int),
        percent <= 100,
{
    if now >= end {
        100
    } else if now <= start {
        0
    } else {
        let passed: i128 = now as i128 - start as i128;
        let whole: i128 = end as i128 - start as i128;
        proof {
            lemma_share_below_whole(passed as int, whole as int);
        }
        let percent: i128 = passed * 100 / whole;
        percent as u8
    }
}

impl PresencePayload {
    /// The payload with the progress of the viewing at `now`, in seconds
    /// since the Unix epoch, as the text over the large image.
    pub fn with_progress(self, now: i64) -> (shown: PresencePayload)
        ensures
            shown@ == (PayloadView {
                large_text: Some(progress_text(now as int, self.start as int, self.end as int)),
                ..self@
            }),
    {
        let watched = percent_watched(now, self.start, self.end);
        let mut text = String::new();
        push_decimal(&mut text, watched as u32);
        text.append("% watched | ");
        push_decimal(&mut text, (100 - watched) as u32);
        text.append("% remaining");
        PresencePayload {
            details: self.details,
            state: self.state,
            large_image: self.large_image,
            large_text: Some(text),
            small_image: self.small_image,
            small_text: self.small_text,
            start: self.start,
            end: self.end,
            buttons: self.buttons,
        }
    }
}

} // verus!
