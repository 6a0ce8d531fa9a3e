//! The tracking service: the records it sends, the requests it takes, and the
//! session's cache of ratings.

use crate::rating::Rating;
use vstd::hash_map::StringHashMap;
use vstd::prelude::*;

verus! {

/// Seconds allowed for reading from, and for writing to, the service.
pub const TIMEOUT_SECS: u64 = 5;

/// The identifiers of a title.
#[derive(Debug)]
pub struct TraktIds {
    pub trakt: u32,
    /// The stable key under which the service knows the title.
    pub slug: Option<String>,
    pub tvdb: Option<u32>,
    /// Absent when the title is not catalogued there.
    pub imdb: Option<String>,
    pub tmdb: Option<u32>,
    pub tvrage: Option<u32>,
}

/// A movie, as the service describes it.
#[derive(Debug)]
pub struct TraktMovie {
    pub title: String,
    pub year: u16,
    pub ids: TraktIds,
}

/// A show, as the service describes it.
#[derive(Debug)]
pub struct TraktShow {
    pub title: String,
    pub year: u16,
    pub ids: TraktIds,
}

/// An episode of a show, as the service describes it.
#[derive(Debug)]
pub struct TraktEpisode {
    pub season: u8,
    pub number: u8,
    pub title: String,
    pub ids: TraktIds,
}

/// What the service reports as being watched.
#[derive(Debug)]
pub struct TraktWatchingResponse {
    /// End of the expected viewing window, as an RFC 3339 date and time.
    pub expires_at: String,
    /// Start of the viewing, as an RFC 3339 date and time.
    pub started_at: String,
    pub action: String,
    /// The media kind tag: `movie` or `episode`.
    pub kind: String,
    pub movie: Option<TraktMovie>,
    pub show: Option<TraktShow>,
    pub episode: Option<TraktEpisode>,
}

/// What the service reports as a title's rating.
#[derive(Clone, Copy, Debug)]
pub struct TraktRatingsResponse {
    pub rating: Rating,
    pub votes: u32,
}

/// A header of a request.
#[derive(Debug)]
pub struct Header {
    pub name: String,
    pub value: String,
}

/// A read of the service: a `GET` of `url` with `headers`.
#[derive(Debug)]
pub struct Request {
    pub url: String,
    pub headers: Vec<Header>,
}

/// A request as plain values: the URL and the headers, each a name and a
/// value.
pub struct RequestView {
    pub url: Seq<char>,
    pub headers: Seq<(Seq<char>, Seq<char>)>,
}

impl View for Header {
    type V = (Seq<char>, Seq<char>);

    open spec fn view(&self) -> (Seq<char>, Seq<char>) {
        (self.name@, self.value@)
    }
}

impl View for Request {
    type V = RequestView;

    open spec fn view(&self) -> RequestView {
        RequestView { url: self.url@, headers: self.headers@.map_values(|h: Header| h@) }
    }
}

/// The headers that every request carries: the content type, the version of
/// the API, and the client's identifier.
pub open spec fn request_headers(client_id: Seq<char>) -> Seq<(Seq<char>, Seq<char>)> {
    seq![
        ("Content-Type"@, "application/json"@),
        ("trakt-api-version"@, "2"@),
        ("trakt-api-key"@, client_id),
    ]
}

/// Where the service says what `username` is watching.
pub open spec fn watching_url(username: Seq<char>) -> Seq<char> {
    "https://api.trakt.tv/users/"@ + username + "/watching"@
}

/// Where the service gives the rating of the movie `slug`.
pub open spec fn movie_rating_url(slug: Seq<char>) -> Seq<char> {
    "https://api.trakt.tv/movies/"@ + slug + "/ratings"@
}

/// Where the service gives the rating of an episode of the show `slug`.
pub open spec fn episode_rating_url(
    slug: Seq<char>,
    season: Seq<char>,
    episode: Seq<char>,
) -> Seq<char> {
    "https://api.trakt.tv/shows/"@ + slug + "/seasons/"@ + season + "/episodes/"@ + episode
        + "/ratings"@
}

/// The request for `url` on behalf of the client `client_id`.
pub open spec fn request_for(url: Seq<char>, client_id: Seq<char>) -> RequestView {
    RequestView { url, headers: request_headers(client_id) }
}

/// Builds a header.
fn header(name: &str, value: &str) -> (h: Header)
    ensures
        h@ == (name@, value@),
{
    Header { name: name.to_owned(), value: value.to_owned() }
}

/// Builds the request for `url` on behalf of the client `client_id`.
fn request(url: String, client_id: &str) -> (req: Request)
    ensures
        req@ == request_for(url@, client_id@),
{
    let mut headers: Vec<Header> = Vec::new();
    headers.push(header("Content-Type", "application/json"));
    headers.push(header("trakt-api-version", "2"));
    headers.push(header("trakt-api-key", client_id));
    let req = Request { url, headers };
    assert(req@.headers =~= request_headers(client_id@));
    req
}

/// How a rating is to be had: from the cache, or by a request to the service.
#[derive(Debug)]
pub enum RatingLookup {
    /// The cache holds the rating; no request is made.
    Cached(Rating),
    /// The cache does not hold it; this request fetches it.
    Fetch(Request),
}

/// A lookup as plain values.
pub enum RatingLookupView {
    Cached(Rating),
    Fetch(RequestView),
}

impl View for RatingLookup {
    type V = RatingLookupView;

    open spec fn view(&self) -> RatingLookupView {
        match self {
            RatingLookup::Cached(rating) => RatingLookupView::Cached(*rating),
            RatingLookup::Fetch(request) => RatingLookupView::Fetch(request@),
        }
    }
}

/// A lookup of `slug`: the cached rating where there is one, else the
/// request that would fetch it.
pub open spec fn lookup(
    cache: Map<Seq<char>, Rating>,
    slug: Seq<char>,
    request: RequestView,
) -> RatingLookupView {
    if cache.contains_key(slug) {
        RatingLookupView::Cached(cache[slug])
    } else {
        RatingLookupView::Fetch(request)
    }
}

/// The rating that a lookup of `slug` ends with once its fetch brought
/// `reply`, in tenths of a point: what the service sent, or the neutral 0.0
/// where the fetch failed.  A rating cached in the meantime stands.
pub open spec fn settled_tenths(
    cache: Map<Seq<char>, Rating>,
    slug: Seq<char>,
    reply: Option<TraktRatingsResponse>,
) -> nat {
    if cache.contains_key(slug) {
        cache[slug]@
    } else {
        match reply {
            Some(body) => body.rating@,
            None => 0,
        }
    }
}

/// The cache after a fetch for `slug`: it takes in a rating that the service
/// sent, and nothing of a fetch that failed.  What is cached is never
/// replaced.
pub open spec fn cache_after_fetch(
    cache: Map<Seq<char>, Rating>,
    slug: Seq<char>,
    reply: Option<TraktRatingsResponse>,
) -> Map<Seq<char>, Rating> {
    match reply {
        Some(body) if !cache.contains_key(slug) => cache.insert(slug, body.rating),
        _ => cache,
    }
}

/// The client of the tracking service: who asks, for whom, and the ratings
/// fetched so far.  A rating once cached stays as it is for the session.
pub struct Trakt {
    cache: StringHashMap<Rating>,
    client_id: String,
    username: String,
}

impl Trakt {
    /// The cached ratings, by slug.
    pub closed spec fn cache(&self) -> Map<Seq<char>, Rating> {
        self.cache@
    }

    /// The identifier that the client presents with every request.
    pub closed spec fn client_id(&self) -> Seq<char> {
        self.client_id@
    }

    /// The user whose viewing is tracked.
    pub closed spec fn username(&self) -> Seq<char> {
        self.username@
    }

    /// A client with nothing cached.
    pub fn new(client_id: String, username: String) -> (trakt: Trakt)
        ensures
            trakt.cache() == Map::<Seq<char>, Rating>::empty(),
            trakt.client_id() == client_id@,
            trakt.username() == username@,
    {
        Trakt { cache: StringHashMap::new(), client_id, username }
    }

    /// The request that asks what the user is watching.  The service answers
    /// it with a watching record, or with nothing when the user is idle.
    pub fn get_watching(&self) -> (req: Request)
        ensures
            req@ == request_for(watching_url(self.username()), self.client_id()),
    {
        let mut url = String::from_str("https://api.trakt.tv/users/");
        url.append(self.username.as_str());
        url.append("/watching");
        request(url, self.client_id.as_str())
    }

    /// The request that asks for the rating of the movie `movie_slug`.
    pub fn movie_rating_request(&self, movie_slug: &str) -> (req: Request)
        ensures
            req@ == request_for(movie_rating_url(movie_slug@), self.client_id()),
    {
        let mut url = String::from_str("https://api.trakt.tv/movies/");
        url.append(movie_slug);
        url.append("/ratings");
        request(url, self.client_id.as_str())
    }

    /// The request that asks for the rating of an episode of the show
    /// `show_slug`.
    pub fn episode_rating_request(
        &self,
        show_slug: &str,
        season_num: &str,
        episode_num: &str,
    ) -> (req: Request)
        ensures
            req@ == request_for(
                episode_rating_url(show_slug@, season_num@, episode_num@),
                self.client_id(),
            ),
    {
        let mut url = String::from_str("https://api.trakt.tv/shows/");
        url.append(show_slug);
        url.append("/seasons/");
        url.append(season_num);
        url.append("/episodes/");
        url.append(episode_num);
        url.append("/ratings");
        request(url, self.client_id.as_str())
    }

    /// Looks up the rating of a movie by its slug: in the cache first, and
    /// only where the cache does not hold it by a request to the service.
    pub fn get_movie_rating(&self, movie_slug: String) -> (found: RatingLookup)
        ensures
            found@ == lookup(
                self.cache(),
                movie_slug@,
                request_for(movie_rating_url(movie_slug@), self.client_id()),
            ),
    {
        match self.cache.get(movie_slug.as_str()) {
            Some(rating) => RatingLookup::Cached(*rating),
            None => RatingLookup::Fetch(self.movie_rating_request(movie_slug.as_str())),
        }
    }

    /// Looks up the rating of an episode.  The cache is keyed by the show's
    /// slug alone, so the first episode of a show whose rating is fetched
    /// gives the rating of every later one in the session.
    pub fn get_episode_rating(
        &self,
        show_slug: String,
        season_num: String,
        episode_num: String,
    ) -> (found: RatingLookup)
        ensures
            found@ == lookup(
                self.cache(),
                show_slug@,
                request_for(
                    episode_rating_url(show_slug@, season_num@, episode_num@),
                    self.client_id(),
                ),
            ),
    {
        match self.cache.get(show_slug.as_str()) {
            Some(rating) => RatingLookup::Cached(*rating),
            None => RatingLookup::Fetch(
                self.episode_rating_request(
                    show_slug.as_str(),
                    season_num.as_str(),
                    episode_num.as_str(),
                ),
            ),
        }
    }

    /// Takes in what a fetch for `slug` brought: `None` when the request or
    /// the reading of its answer failed.  A rating that the service sent is
    /// cached under `slug` and returned; a failure is answered with the
    /// neutral rating and leaves the cache as it was.  Where `slug` is cached
    /// already, that rating stands and is returned.
    pub fn receive_rating(&mut self, slug: String, reply: Option<TraktRatingsResponse>) -> (rating:
        Rating)
        ensures
            rating@ == settled_tenths(old(self).cache(), slug@, reply),
            final(self).cache() == cache_after_fetch(old(self).cache(), slug@, reply),
            final(self).client_id() == old(self).client_id(),
            final(self).username() == old(self).username(),
    {
        match self.cache.get(slug.as_str()) {
            Some(rating) => *rating,
            None => match reply {
                Some(body) => {
                    self.cache.insert(slug, body.rating);
                    body.rating
                },
                None => Rating::fallback(),
            },
        }
    }
}

/// A lookup that gave a rating, from the cache or from the service, is
/// repeated without a request: the next lookup of the slug finds that very
/// rating cached, whatever request it would otherwise have made.  Only a
/// lookup whose fetch failed leaves nothing behind.
pub proof fn lemma_lookup_repeats(
    cache: Map<Seq<char>, Rating>,
    slug: Seq<char>,
    first: RequestView,
    reply: Option<TraktRatingsResponse>,
    second: RequestView,
)
    requires
        cache.contains_key(slug) || reply is Some,
    ensures
        lookup(cache, slug, first) matches RatingLookupView::Cached(rating) ==> lookup(
            cache,
            slug,
            second,
        ) == RatingLookupView::Cached(rating),
        lookup(cache, slug, first) is Fetch ==> lookup(
            cache_after_fetch(cache, slug, reply),
            slug,
            second,
        ) == RatingLookupView::Cached(reply->0.rating) && reply->0.rating@ == settled_tenths(
            cache,
            slug,
            reply,
        ),
{
}

/// What is cached stays cached, and stays as it is, whatever is fetched
/// later.
pub proof fn lemma_cache_keeps_ratings(
    cache: Map<Seq<char>, Rating>,
    slug: Seq<char>,
    reply: Option<TraktRatingsResponse>,
    cached: Seq<char>,
)
    requires
        cache.contains_key(cached),
    ensures
        cache_after_fetch(cache, slug, reply).contains_key(cached),
        cache_after_fetch(cache, slug, reply)[cached] == cache[cached],
{
}

} // verus!
