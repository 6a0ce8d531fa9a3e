//! The loop that keeps the presence in step with what is being watched.
//!
//! The loop is a machine.  At every moment it waits for one thing: that a
//! call made for it has ended, or that a sleep is over.  `SyncLoop::action`
//! says which; `SyncLoop::step` takes in what came of it and moves on.  The
//! driver performs the action and reports the event, for ever.

use crate::discord::{ConnectionState, Discord, RECONNECT_DELAY_SECS};
use crate::presence::{
    build_payload_at, classify, media_kind, payload_of, read_window, title_ids, viewing_window,
    MediaKind, PayloadError, PayloadView, PresencePayload,
};
use crate::rating::Rating;
use crate::text::{decimal, decimal_string};
use crate::trakt::{
    cache_after_fetch, episode_rating_url, settled_tenths, lookup, movie_rating_url, request_for,
    watching_url, RatingLookup, Request, RequestView, Trakt, TraktRatingsResponse,
    TraktWatchingResponse,
};
use vstd::prelude::*;

verus! {

/// Seconds between two rounds of the loop.
pub const POLL_INTERVAL_SECS: u64 = 15;

/// What the driver is to do next.
#[derive(Debug)]
pub enum Action {
    /// Make one attempt to connect to the chat client.
    Connect,
    /// Sleep for so many seconds.
    Sleep(u64),
    /// Ask the tracking service what is being watched.
    FetchWatching(Request),
    /// Ask the tracking service for a rating.
    FetchRating(Request),
    /// Send the presence over the connection.
    SetActivity(PresencePayload),
    /// Release the connection.
    Close,
}

/// An action as plain values.
pub enum ActionView {
    Connect,
    Sleep(u64),
    FetchWatching(RequestView),
    FetchRating(RequestView),
    SetActivity(PayloadView),
    Close,
}

impl View for Action {
    type V = ActionView;

    open spec fn view(&self) -> ActionView {
        match self {
            Action::Connect => ActionView::Connect,
            Action::Sleep(seconds) => ActionView::Sleep(*seconds),
            Action::FetchWatching(request) => ActionView::FetchWatching(request@),
            Action::FetchRating(request) => ActionView::FetchRating(request@),
            Action::SetActivity(payload) => ActionView::SetActivity(payload@),
            Action::Close => ActionView::Close,
        }
    }
}

/// What came of an action.
#[derive(Debug)]
pub enum Event {
    /// An attempt to connect ended: `true` where the connection is up.
    Connected(bool),
    /// A sleep is over.
    Woke,
    /// The tracking service was asked what is being watched.  `None` where
    /// nothing is, and where the request or the reading of its answer failed.
    Watching(Option<TraktWatchingResponse>),
    /// The tracking service was asked for a rating.  `None` where the request
    /// or the reading of its answer failed.
    Rating(Option<TraktRatingsResponse>),
    /// A presence was sent: `true` where it was delivered.
    Applied(bool),
    /// The connection was released.
    Closed,
}

/// A presence that waits for the connection to be made.
struct Pending {
    payload: PresencePayload,
    retried: bool,
}

/// A presence that waits for the connection to be made.
pub struct PendingView {
    pub payload: PayloadView,
    /// Whether the presence was sent before, in vain.
    pub retried: bool,
}

impl View for Pending {
    type V = PendingView;

    closed spec fn view(&self) -> PendingView {
        PendingView { payload: self.payload@, retried: self.retried }
    }
}

/// What the loop waits for.
enum Phase {
    Connecting { pending: Option<Pending> },
    Backoff { pending: Option<Pending> },
    Sleeping,
    Watching,
    Rating { watching: TraktWatchingResponse, start: i64, end: i64 },
    Applying { payload: PresencePayload, retried: bool },
    Closing,
}

/// What the loop waits for.
pub enum PhaseView {
    /// An attempt to connect.  Once the connection is up the pending
    /// presence, if there is one, is sent.
    Connecting { pending: Option<PendingView> },
    /// The end of the pause between two attempts to connect.
    Backoff { pending: Option<PendingView> },
    /// The end of the pause between two rounds.
    Sleeping,
    /// The answer to what is being watched.
    Watching,
    /// The rating of what is being watched, within the window given.
    Rating { watching: TraktWatchingResponse, start: i64, end: i64 },
    /// The outcome of sending a presence, for the first time or once more.
    Applying { payload: PayloadView, retried: bool },
    /// The release of the connection.
    Closing,
}

impl View for Phase {
    type V = PhaseView;

    closed spec fn view(&self) -> PhaseView {
        match self {
            Phase::Connecting { pending } => PhaseView::Connecting {
                pending: match pending {
                    Some(p) => Some(p@),
                    None => None,
                },
            },
            Phase::Backoff { pending } => PhaseView::Backoff {
                pending: match pending {
                    Some(p) => Some(p@),
                    None => None,
                },
            },
            Phase::Sleeping => PhaseView::Sleeping,
            Phase::Watching => PhaseView::Watching,
            Phase::Rating { watching, start, end } => PhaseView::Rating {
                watching: *watching,
                start: *start,
                end: *end,
            },
            Phase::Applying { payload, retried } => PhaseView::Applying {
                payload: payload@,
                retried: *retried,
            },
            Phase::Closing => PhaseView::Closing,
        }
    }
}

/// The loop as plain values.
pub struct SyncView {
    /// The ratings fetched so far, by slug.
    pub cache: Map<Seq<char>, Rating>,
    /// The identifier presented to the tracking service.
    pub client_id: Seq<char>,
    /// The user whose viewing is tracked.
    pub username: Seq<char>,
    /// The application for which the presence is shown.
    pub application_id: Seq<char>,
    pub connection: ConnectionState,
    /// Why the last answer to what is being watched gave no presence, if it
    /// held a record that gave none.
    pub skipped: Option<PayloadError>,
    pub phase: PhaseView,
}

/// The request for the rating of what a record says is being watched: of
/// the movie, or of the episode by its show, season and number.
pub open spec fn rating_request(
    watching: TraktWatchingResponse,
    client_id: Seq<char>,
) -> RequestView
    recommends
        classify(watching) is Ok,
{
    let slug = title_ids(watching).slug->0@;
    if classify(watching) == Ok::<MediaKind, PayloadError>(MediaKind::Movie) {
        request_for(movie_rating_url(slug), client_id)
    } else {
        let episode = watching.episode->0;
        request_for(
            episode_rating_url(
                slug,
                decimal(episode.season as nat),
                decimal(episode.number as nat),
            ),
            client_id,
        )
    }
}

/// What the driver is to do while the loop is in a given state.
pub open spec fn action_of(s: SyncView) -> ActionView {
    match s.phase {
        PhaseView::Connecting { .. } => ActionView::Connect,
        PhaseView::Backoff { .. } => ActionView::Sleep(RECONNECT_DELAY_SECS),
        PhaseView::Sleeping => ActionView::Sleep(POLL_INTERVAL_SECS),
        PhaseView::Watching => ActionView::FetchWatching(
            request_for(watching_url(s.username), s.client_id),
        ),
        PhaseView::Rating { watching, .. } => ActionView::FetchRating(
            rating_request(watching, s.client_id),
        ),
        PhaseView::Applying { payload, .. } => ActionView::SetActivity(payload),
        PhaseView::Closing => ActionView::Close,
    }
}

/// The loop with a presence to show: it is sent where the connection is up,
/// and else waits for the connection to be made.
pub open spec fn present(s: SyncView, payload: PayloadView) -> SyncView {
    if s.connection == ConnectionState::Connected {
        SyncView { phase: PhaseView::Applying { payload, retried: false }, ..s }
    } else {
        SyncView {
            phase: PhaseView::Connecting { pending: Some(PendingView { payload, retried: false }) },
            ..s
        }
    }
}

/// The loop after the service sent a record of what is being watched, whose
/// viewing window was read as `window`: `None` where a timestamp of the
/// record is malformed.  A record that gives no presence ends the round, and
/// the loop keeps why.  Else the rating is taken from the cache, or asked
/// for where the cache does not hold it.
pub open spec fn on_watching(
    s: SyncView,
    watching: TraktWatchingResponse,
    window: Option<(i64, i64)>,
) -> SyncView {
    match window {
        None => SyncView {
            skipped: Some(PayloadError::MalformedTimestamp),
            phase: PhaseView::Sleeping,
            ..s
        },
        Some((start, end)) => match classify(watching) {
            Err(e) => SyncView { skipped: Some(e), phase: PhaseView::Sleeping, ..s },
            Ok(_) => {
                let slug = title_ids(watching).slug->0@;
                let s = SyncView { skipped: None, ..s };
                if s.cache.contains_key(slug) {
                    present(s, payload_of(watching, s.cache[slug]@, start, end))
                } else {
                    SyncView { phase: PhaseView::Rating { watching, start, end }, ..s }
                }
            },
        },
    }
}

/// The loop after the fetch of a rating ended: what the service sent is
/// cached, and the presence is built with it, or with the neutral rating
/// where the fetch failed.
pub open spec fn on_rating(
    s: SyncView,
    watching: TraktWatchingResponse,
    start: i64,
    end: i64,
    reply: Option<TraktRatingsResponse>,
) -> SyncView {
    let slug = title_ids(watching).slug->0@;
    present(
        SyncView { cache: cache_after_fetch(s.cache, slug, reply), ..s },
        payload_of(watching, settled_tenths(s.cache, slug, reply), start, end),
    )
}

/// The state that follows `s` when the driver reports `event`.  An event
/// that does not answer what the loop waits for leaves it where it is.
pub open spec fn next(s: SyncView, event: Event) -> SyncView {
    match (s.phase, event) {
        (PhaseView::Connecting { pending }, Event::Connected(connected)) => {
            if !connected {
                SyncView {
                    connection: ConnectionState::Disconnected,
                    phase: PhaseView::Backoff { pending },
                    ..s
                }
            } else {
                match pending {
                    Some(p) => SyncView {
                        connection: ConnectionState::Connected,
                        phase: PhaseView::Applying { payload: p.payload, retried: p.retried },
                        ..s
                    },
                    None => SyncView {
                        connection: ConnectionState::Connected,
                        phase: PhaseView::Sleeping,
                        ..s
                    },
                }
            }
        },
        (PhaseView::Backoff { pending }, Event::Woke) => SyncView {
            phase: PhaseView::Connecting { pending },
            ..s
        },
        (PhaseView::Sleeping, Event::Woke) => SyncView { phase: PhaseView::Watching, ..s },
        (PhaseView::Watching, Event::Watching(reply)) => match reply {
            Some(watching) => on_watching(s, watching, viewing_window(watching)),
            None => SyncView { skipped: None, phase: PhaseView::Closing, ..s },
        },
        (PhaseView::Rating { watching, start, end }, Event::Rating(reply)) => on_rating(
            s,
            watching,
            start,
            end,
            reply,
        ),
        (PhaseView::Applying { payload, retried }, Event::Applied(delivered)) => {
            if delivered {
                SyncView { phase: PhaseView::Sleeping, ..s }
            } else if !retried {
                SyncView {
                    connection: ConnectionState::Disconnected,
                    phase: PhaseView::Connecting {
                        pending: Some(PendingView { payload, retried: true }),
                    },
                    ..s
                }
            } else {
                SyncView {
                    connection: ConnectionState::Disconnected,
                    phase: PhaseView::Sleeping,
                    ..s
                }
            }
        },
        (PhaseView::Closing, Event::Closed) => SyncView {
            connection: ConnectionState::Disconnected,
            phase: PhaseView::Sleeping,
            ..s
        },
        _ => s,
    }
}

/// What holds of every state that the loop reaches: a presence is sent only
/// over a connection that is up, and a rating is asked for only where the
/// record gives a presence.
pub open spec fn consistent(s: SyncView) -> bool {
    match s.phase {
        PhaseView::Applying { .. } => s.connection == ConnectionState::Connected,
        PhaseView::Rating { watching, .. } => classify(watching) is Ok,
        _ => true,
    }
}

/// The loop: the client of the tracking service, the presence connection,
/// and what the loop waits for.
pub struct SyncLoop {
    trakt: Trakt,
    discord: Discord,
    skipped: Option<PayloadError>,
    phase: Phase,
}

impl View for SyncLoop {
    type V = SyncView;

    closed spec fn view(&self) -> SyncView {
        SyncView {
            cache: self.trakt.cache(),
            client_id: self.trakt.client_id(),
            username: self.trakt.username(),
            application_id: self.discord.client_id(),
            connection: self.discord.state(),
            skipped: self.skipped,
            phase: self.phase@,
        }
    }
}

/// The slug under which the rating of what is being watched is cached.
fn rating_key(watching: &TraktWatchingResponse, kind: MediaKind) -> (slug: &String)
    requires
        classify(*watching) == Ok::<MediaKind, PayloadError>(kind),
    ensures
        title_ids(*watching).slug == Some(*slug),
{
    match kind {
        MediaKind::Movie => watching.movie.as_ref().unwrap().ids.slug.as_ref().unwrap(),
        MediaKind::Episode => watching.show.as_ref().unwrap().ids.slug.as_ref().unwrap(),
    }
}

/// Looks up the rating of what is being watched.
fn look_up(trakt: &Trakt, watching: &TraktWatchingResponse, kind: MediaKind) -> (found:
    RatingLookup)
    requires
        classify(*watching) == Ok::<MediaKind, PayloadError>(kind),
    ensures
        found@ == lookup(
            trakt.cache(),
            title_ids(*watching).slug->0@,
            rating_request(*watching, trakt.client_id()),
        ),
{
    let slug = rating_key(watching, kind).clone();
    match kind {
        MediaKind::Movie => trakt.get_movie_rating(slug),
        MediaKind::Episode => {
            let episode = watching.episode.as_ref().unwrap();
            trakt.get_episode_rating(
                slug,
                decimal_string(episode.season as u32),
                decimal_string(episode.number as u32),
            )
        },
    }
}

/// The phase of a loop that has a presence to show.
fn show(discord: &Discord, payload: PresencePayload) -> (phase: Phase)
    ensures
        phase@ == (if discord.state() == ConnectionState::Connected {
            PhaseView::Applying { payload: payload@, retried: false }
        } else {
            PhaseView::Connecting {
                pending: Some(PendingView { payload: payload@, retried: false }),
            }
        }),
{
    if discord.is_connected() {
        Phase::Applying { payload, retried: false }
    } else {
        Phase::Connecting { pending: Some(Pending { payload, retried: false }) }
    }
}

impl SyncLoop {
    #[verifier::type_invariant]
    spec fn valid(self) -> bool {
        consistent(self@)
    }

    /// The loop at its start: before the first round it makes the connection.
    pub fn new(discord: Discord, trakt: Trakt) -> (machine: SyncLoop)
        ensures
            machine@ == (SyncView {
                cache: trakt.cache(),
                client_id: trakt.client_id(),
                username: trakt.username(),
                application_id: discord.client_id(),
                connection: discord.state(),
                skipped: None,
                phase: PhaseView::Connecting { pending: None },
            }),
            consistent(machine@),
    {
        SyncLoop { trakt, discord, skipped: None, phase: Phase::Connecting { pending: None } }
    }

    /// The client of the tracking service, with the ratings cached so far.
    pub fn trakt(&self) -> (trakt: &Trakt)
        ensures
            trakt.cache() == self@.cache,
            trakt.client_id() == self@.client_id,
            trakt.username() == self@.username,
    {
        &self.trakt
    }

    /// The presence connection.
    pub fn discord(&self) -> (discord: &Discord)
        ensures
            discord.client_id() == self@.application_id,
            discord.state() == self@.connection,
    {
        &self.discord
    }

    /// Why the last answer to what is being watched gave no presence, if
    /// it held a record that gave none.
    pub fn skipped(&self) -> (reason: Option<PayloadError>)
        ensures
            reason == self@.skipped,
    {
        self.skipped
    }

    /// What the driver is to do now.
    pub fn action(&self) -> (action: Action)
        ensures
            action@ == action_of(self@),
            consistent(self@),
    {
        proof {
            use_type_invariant(self);
        }
        match &self.phase {
            Phase::Connecting { .. } => Action::Connect,
            Phase::Backoff { .. } => Action::Sleep(RECONNECT_DELAY_SECS),
            Phase::Sleeping => Action::Sleep(POLL_INTERVAL_SECS),
            Phase::Watching => Action::FetchWatching(self.trakt.get_watching()),
            Phase::Rating { watching, .. } => {
                match media_kind(watching) {
                    Ok(MediaKind::Movie) => Action::FetchRating(
                        self.trakt.movie_rating_request(
                            rating_key(watching, MediaKind::Movie).as_str(),
                        ),
                    ),
                    _ => {
                        let episode = watching.episode.as_ref().unwrap();
                        let season = decimal_string(episode.season as u32);
                        let number = decimal_string(episode.number as u32);
                        Action::FetchRating(
                            self.trakt.episode_rating_request(
                                rating_key(watching, MediaKind::Episode).as_str(),
                                season.as_str(),
                                number.as_str(),
                            ),
                        )
                    },
                }
            },
            Phase::Applying { payload, .. } => Action::SetActivity(payload.clone()),
            Phase::Closing => Action::Close,
        }
    }

    /// Takes in a record of what is being watched, whose viewing window was
    /// read as `window`: `None` where a timestamp of the record is malformed.
    /// A loop that does not wait for that record stays where it is.
    pub fn watching_at(
        self,
        watching: TraktWatchingResponse,
        window: Option<(i64, i64)>,
    ) -> (moved: (SyncLoop, Action))
        ensures
            moved.0@ == (if self@.phase is Watching {
                on_watching(self@, watching, window)
            } else {
                self@
            }),
            moved.1@ == action_of(moved.0@),
            consistent(moved.0@),
    {
        proof {
            use_type_invariant(&self);
        }
        let SyncLoop { trakt, discord, skipped, phase } = self;
        let (skipped, phase) = match phase {
            Phase::Watching => match (window, media_kind(&watching)) {
                (None, _) => (Some(PayloadError::MalformedTimestamp), Phase::Sleeping),
                (Some(_), Err(e)) => (Some(e), Phase::Sleeping),
                (Some((start, end)), Ok(kind)) => match look_up(&trakt, &watching, kind) {
                    RatingLookup::Cached(rating) => match build_payload_at(
                        &watching,
                        rating,
                        start,
                        end,
                    ) {
                        Ok(payload) => (None, show(&discord, payload)),
                        Err(e) => (Some(e), Phase::Sleeping),
                    },
                    RatingLookup::Fetch(_) => (None, Phase::Rating { watching, start, end }),
                },
            },
            phase => (skipped, phase),
        };
        let machine = SyncLoop { trakt, discord, skipped, phase };
        let action = machine.action();
        (machine, action)
    }

    /// Takes in what came of the last action, and says what the driver is to
    /// do next.
    ///
    /// A round begins when the pause is over: the service is asked what is
    /// being watched.  Nothing being watched releases the connection, once,
    /// and ends the round.  A record that gives no presence ends the round
    /// too.  Else the rating is had, from the cache or from the service, the
    /// presence is built, and it is sent as soon as the connection is up.  A
    /// presence that is not delivered is sent once more after the connection
    /// has been made again; if that fails too, the round ends.  An attempt to
    /// connect that fails is repeated after a pause, without end.
    pub fn step(self, event: Event) -> (moved: (SyncLoop, Action))
        ensures
            moved.0@ == next(self@, event),
            moved.1@ == action_of(moved.0@),
            consistent(moved.0@),
    {
        proof {
            use_type_invariant(&self);
        }
        let event = match event {
            Event::Watching(Some(watching)) => {
                let window = read_window(&watching);
                return self.watching_at(watching, window);
            },
            event => event,
        };
        let SyncLoop { mut trakt, mut discord, skipped, phase } = self;
        let (skipped, phase) = match (phase, event) {
            (Phase::Connecting { pending }, Event::Connected(connected)) => {
                let retry_in = discord.connect(connected);
                match retry_in {
                    Some(_) => (skipped, Phase::Backoff { pending }),
                    None => match pending {
                        Some(p) => (
                            skipped,
                            Phase::Applying { payload: p.payload, retried: p.retried },
                        ),
                        None => (skipped, Phase::Sleeping),
                    },
                }
            },
            (Phase::Backoff { pending }, Event::Woke) => (skipped, Phase::Connecting { pending }),
            (Phase::Sleeping, Event::Woke) => (skipped, Phase::Watching),
            (Phase::Watching, Event::Watching(_)) => (None, Phase::Closing),
            (Phase::Rating { watching, start, end }, Event::Rating(reply)) => {
                match media_kind(&watching) {
                    Ok(kind) => {
                        let slug = rating_key(&watching, kind).clone();
                        let rating = trakt.receive_rating(slug, reply);
                        match build_payload_at(&watching, rating, start, end) {
                            Ok(payload) => (skipped, show(&discord, payload)),
                            Err(_) => (skipped, Phase::Sleeping),
                        }
                    },
                    Err(_) => (skipped, Phase::Sleeping),
                }
            },
            (Phase::Applying { payload, retried }, Event::Applied(delivered)) => {
                discord.set_activity(delivered);
                if delivered {
                    (skipped, Phase::Sleeping)
                } else if !retried {
                    (
                        skipped,
                        Phase::Connecting { pending: Some(Pending { payload, retried: true }) },
                    )
                } else {
                    (skipped, Phase::Sleeping)
                }
            },
            (Phase::Closing, Event::Closed) => {
                discord.close();
                (skipped, Phase::Sleeping)
            },
            (phase, _) => (skipped, phase),
        };
        let machine = SyncLoop { trakt, discord, skipped, phase };
        let action = machine.action();
        (machine, action)
    }
}

/// Whatever the driver reports, the loop stays consistent: it never asks for
/// a presence to be sent over a connection that is down.
pub proof fn lemma_next_keeps_consistent(s: SyncView, event: Event)
    requires
        consistent(s),
    ensures
        consistent(next(s, event)),
        action_of(next(s, event)) is SetActivity ==> next(s, event).connection
            == ConnectionState::Connected,
{
}

/// Whatever the driver reports, the loop keeps working for the same user and
/// application, and a rating that is cached stays cached as it is.
pub proof fn lemma_next_keeps_ratings(s: SyncView, event: Event, slug: Seq<char>)
    ensures
        next(s, event).client_id == s.client_id,
        next(s, event).username == s.username,
        next(s, event).application_id == s.application_id,
        s.cache.contains_key(slug) ==> next(s, event).cache.contains_key(slug) && next(
            s,
            event,
        ).cache[slug] == s.cache[slug],
{
}

/// A presence that is not delivered brings about one reconnection, after
/// which it is sent once more; if it is not delivered then either, the round
/// ends with the pause, and nothing more is sent or connected in it.  While
/// the connection cannot be made, the attempt is repeated after each pause,
/// and the presence keeps waiting.
pub proof fn lemma_failed_apply_retries_once(s: SyncView, payload: PayloadView)
    requires
        s.phase == (PhaseView::Applying { payload, retried: false }),
    ensures
        ({
            let failed = next(s, Event::Applied(false));
            let refused = next(failed, Event::Connected(false));
            let reconnected = next(failed, Event::Connected(true));
            let failed_again = next(reconnected, Event::Applied(false));
            &&& action_of(failed) == ActionView::Connect
            &&& action_of(refused) == ActionView::Sleep(RECONNECT_DELAY_SECS)
            &&& next(refused, Event::Woke) == failed
            &&& action_of(reconnected) == ActionView::SetActivity(payload)
            &&& reconnected.phase == (PhaseView::Applying { payload, retried: true })
            &&& action_of(failed_again) == ActionView::Sleep(POLL_INTERVAL_SECS)
            &&& failed_again.phase == PhaseView::Sleeping
            &&& action_of(next(reconnected, Event::Applied(true))) == ActionView::Sleep(
                POLL_INTERVAL_SECS,
            )
        }),
{
}

/// When nothing is being watched the connection is released, once, and the
/// round ends with the pause: no rating is looked up and no presence is built
/// or sent.
pub proof fn lemma_nothing_watched_closes_once(s: SyncView)
    requires
        s.phase == PhaseView::Watching,
    ensures
        ({
            let closing = next(s, Event::Watching(None));
            let closed = next(closing, Event::Closed);
            &&& action_of(closing) == ActionView::Close
            &&& closing.cache == s.cache
            &&& action_of(closed) == ActionView::Sleep(POLL_INTERVAL_SECS)
            &&& closed == (SyncView {
                connection: ConnectionState::Disconnected,
                skipped: None,
                phase: PhaseView::Sleeping,
                ..s
            })
        }),
{
}

} // verus!
