//! The now-playing snapshot: refresh an access token, ask the player what
//! it plays, and project the answer. The two upstream calls follow one
//! another; nothing is retried, and every way in which they can fail ends
//! in the same reply, "not playing".

use vstd::prelude::*;
use crate::http::{Method, OutboundRequest, OutboundRequestModel, Pair, PairModel, NO_CONTENT};
use crate::text::text_join;

verus! {

/// The track that the player reports, reduced to what the snapshot reads.
#[derive(Clone, Debug, PartialEq, Eq)]
pub struct Track {
    pub name: String,
    /// Names of the track's artists, in upstream order.
    pub artists: Vec<String>,
    /// Public link to the track.
    pub url: String,
    /// Links to the album's cover images, in upstream order.
    pub images: Vec<String>,
}

/// What a [`Track`] holds.
pub struct TrackModel {
    pub name: Seq<char>,
    pub artists: Seq<Seq<char>>,
    pub url: Seq<char>,
    pub images: Seq<Seq<char>>,
}

impl View for Track {
    type V = TrackModel;

    open spec fn view(&self) -> TrackModel {
        TrackModel {
            name: self.name@,
            artists: self.artists.deep_view(),
            url: self.url@,
            images: self.images.deep_view(),
        }
    }
}

impl DeepView for Track {
    type V = TrackModel;

    open spec fn deep_view(&self) -> TrackModel {
        self@
    }
}

/// The reply of the now-playing endpoint.
#[derive(Clone, Debug, PartialEq, Eq)]
pub enum NowPlaying {
    /// Nothing is playing, or it could not be found out. Served with
    /// `is_playing` false, and with `error` where one is given.
    NotPlaying { error: Option<String> },
    /// A track is playing. Served with `is_playing` true.
    Playing { title: String, artist: String, url: String, album_art: String },
}

/// What a [`NowPlaying`] holds.
pub enum NowPlayingModel {
    NotPlaying { error: Option<Seq<char>> },
    Playing { title: Seq<char>, artist: Seq<char>, url: Seq<char>, album_art: Seq<char> },
}

impl View for NowPlaying {
    type V = NowPlayingModel;

    open spec fn view(&self) -> NowPlayingModel {
        match self {
            NowPlaying::NotPlaying { error } => NowPlayingModel::NotPlaying {
                error: error.deep_view(),
            },
            NowPlaying::Playing { title, artist, url, album_art } => NowPlayingModel::Playing {
                title: title@,
                artist: artist@,
                url: url@,
                album_art: album_art@,
            },
        }
    }
}

impl NowPlaying {
    /// The `is_playing` member of the served reply.
    pub fn is_playing(&self) -> (playing: bool)
        ensures
            playing == (self@ is Playing),
    {
        match self {
            NowPlaying::NotPlaying { .. } => false,
            NowPlaying::Playing { .. } => true,
        }
    }
}

/// What a handler step asks of its caller: send a request upstream and
/// come back with the outcome, or serve a reply and stop.
#[derive(Clone, Debug, PartialEq, Eq)]
pub enum SpotifyStep {
    Send(OutboundRequest),
    Respond(NowPlaying),
}

/// What a [`SpotifyStep`] holds.
pub enum SpotifyStepModel {
    Send(OutboundRequestModel),
    Respond(NowPlayingModel),
}

impl View for SpotifyStep {
    type V = SpotifyStepModel;

    open spec fn view(&self) -> SpotifyStepModel {
        match self {
            SpotifyStep::Send(request) => SpotifyStepModel::Send(request@),
            SpotifyStep::Respond(reply) => SpotifyStepModel::Respond(reply@),
        }
    }
}

/// How the token request ended.
#[derive(Clone, Debug, PartialEq, Eq)]
pub enum TokenFetch {
    /// The service answered with an access token.
    Granted(String),
    /// The service could not be reached, or its answer held no token.
    Failed,
}

/// What a [`TokenFetch`] holds.
pub enum TokenFetchModel {
    Granted(Seq<char>),
    Failed,
}

impl View for TokenFetch {
    type V = TokenFetchModel;

    open spec fn view(&self) -> TokenFetchModel {
        match self {
            TokenFetch::Granted(token) => TokenFetchModel::Granted(token@),
            TokenFetch::Failed => TokenFetchModel::Failed,
        }
    }
}

/// How the player request ended.
#[derive(Clone, Debug, PartialEq, Eq)]
pub enum PlayerFetch {
    /// The player answered. `item` is the track in the answer's body;
    /// `None` where the body names no track or cannot be read.
    Answered { status: u16, item: Option<Track> },
    /// The player could not be reached.
    Failed,
}

/// What a [`PlayerFetch`] holds.
pub enum PlayerFetchModel {
    Answered { status: u16, item: Option<TrackModel> },
    Failed,
}

impl View for PlayerFetch {
    type V = PlayerFetchModel;

    open spec fn view(&self) -> PlayerFetchModel {
        match self {
            PlayerFetch::Answered { status, item } => PlayerFetchModel::Answered {
                status: *status,
                item: item.deep_view(),
            },
            PlayerFetch::Failed => PlayerFetchModel::Failed,
        }
    }
}

/// The plain "not playing" reply, with no error in it.
pub open spec fn not_playing() -> NowPlayingModel {
    NowPlayingModel::NotPlaying { error: None }
}

/// Whether one of the three configured values is missing. A value that is
/// not configured reaches the handler as the empty text.
pub open spec fn credentials_missing(
    client_id: Seq<char>,
    client_secret: Seq<char>,
    refresh_token: Seq<char>,
) -> bool {
    client_id.len() == 0 || client_secret.len() == 0 || refresh_token.len() == 0
}

/// The refresh-token grant sent to the accounts service.
pub open spec fn token_request(
    client_id: Seq<char>,
    client_secret: Seq<char>,
    refresh_token: Seq<char>,
) -> OutboundRequestModel {
    OutboundRequestModel {
        method: Method::Post,
        url: "https://accounts.spotify.com/api/token"@,
        headers: Seq::empty(),
        form: seq![
            PairModel { name: "grant_type"@, value: "refresh_token"@ },
            PairModel { name: "refresh_token"@, value: refresh_token },
            PairModel { name: "client_id"@, value: client_id },
            PairModel { name: "client_secret"@, value: client_secret },
        ],
    }
}

/// The query sent to the player, authorised by `access_token`.
pub open spec fn player_request(access_token: Seq<char>) -> OutboundRequestModel {
    OutboundRequestModel {
        method: Method::Get,
        url: "https://api.spotify.com/v1/me/player/currently-playing"@,
        headers: seq![PairModel { name: "Authorization"@, value: "Bearer "@ + access_token }],
        form: Seq::empty(),
    }
}

/// The first step: without credentials, "not playing" with an error;
/// with them, the token request.
pub open spec fn first_step(
    client_id: Seq<char>,
    client_secret: Seq<char>,
    refresh_token: Seq<char>,
) -> SpotifyStepModel {
    if credentials_missing(client_id, client_secret, refresh_token) {
        SpotifyStepModel::Respond(
            NowPlayingModel::NotPlaying { error: Some("Credenziali Spotify mancanti"@) },
        )
    } else {
        SpotifyStepModel::Send(token_request(client_id, client_secret, refresh_token))
    }
}

/// The step after the token request: with a token, the player request;
/// without one, "not playing".
pub open spec fn step_after_token(fetched: TokenFetchModel) -> SpotifyStepModel {
    match fetched {
        TokenFetchModel::Granted(token) => SpotifyStepModel::Send(player_request(token)),
        TokenFetchModel::Failed => SpotifyStepModel::Respond(not_playing()),
    }
}

/// The snapshot of a track: its name, the name of its first artist or
/// `Unknown`, its link, and the first cover image or the empty text.
pub open spec fn snapshot_of(track: TrackModel) -> NowPlayingModel {
    NowPlayingModel::Playing {
        title: track.name,
        artist: if track.artists.len() > 0 {
            track.artists[0]
        } else {
            "Unknown"@
        },
        url: track.url,
        album_art: if track.images.len() > 0 {
            track.images[0]
        } else {
            Seq::empty()
        },
    }
}

/// The reply after the player request: the snapshot of the track where the
/// player answered with one, under any status but 204; "not playing"
/// otherwise.
pub open spec fn reply_after_player(fetched: PlayerFetchModel) -> NowPlayingModel {
    match fetched {
        PlayerFetchModel::Answered { status, item } => {
            if status == NO_CONTENT {
                not_playing()
            } else {
                match item {
                    Some(track) => snapshot_of(track),
                    None => not_playing(),
                }
            }
        },
        PlayerFetchModel::Failed => not_playing(),
    }
}

/// The reply that a whole run ends in, given the configuration and how
/// each upstream call would end if it were made.
pub open spec fn run_reply(
    client_id: Seq<char>,
    client_secret: Seq<char>,
    refresh_token: Seq<char>,
    token: TokenFetchModel,
    player: PlayerFetchModel,
) -> NowPlayingModel {
    match first_step(client_id, client_secret, refresh_token) {
        SpotifyStepModel::Respond(reply) => reply,
        SpotifyStepModel::Send(_) => match step_after_token(token) {
            SpotifyStepModel::Respond(reply) => reply,
            SpotifyStepModel::Send(_) => reply_after_player(player),
        },
    }
}

/// A run reports a track only where the credentials are there, a token was
/// granted, and the player answered with a track under a status other than
/// 204. Every other run ends in "not playing", and only the run without
/// credentials adds an error to it.
pub proof fn lemma_playing_only_with_item(
    client_id: Seq<char>,
    client_secret: Seq<char>,
    refresh_token: Seq<char>,
    token: TokenFetchModel,
    player: PlayerFetchModel,
)
    ensures
        ({
            let reply = run_reply(client_id, client_secret, refresh_token, token, player);
            let has_item = {
                &&& !credentials_missing(client_id, client_secret, refresh_token)
                &&& token is Granted
                &&& player matches PlayerFetchModel::Answered { status, item }
                &&& status != NO_CONTENT
                &&& item is Some
            };
            &&& has_item ==> reply == snapshot_of(player->item->0)
            &&& !has_item ==> reply is NotPlaying
            &&& !has_item ==> (reply->error is Some <==> credentials_missing(
                client_id,
                client_secret,
                refresh_token,
            ))
        }),
{
}

/// Starts a run: checks the configured credentials and builds the token
/// request.
pub fn spotify_handler(client_id: &str, client_secret: &str, refresh_token: &str) -> (step:
    SpotifyStep)
    ensures
        step@ == first_step(client_id@, client_secret@, refresh_token@),
{
    if client_id.is_empty() || client_secret.is_empty() || refresh_token.is_empty() {
        return SpotifyStep::Respond(
            NowPlaying::NotPlaying {
                error: Some(String::from_str("Credenziali Spotify mancanti")),
            },
        );
    }
    let mut form: Vec<Pair> = Vec::new();
    form.push(Pair::new("grant_type", "refresh_token"));
    form.push(Pair::new("refresh_token", refresh_token));
    form.push(Pair::new("client_id", client_id));
    form.push(Pair::new("client_secret", client_secret));
    let request = OutboundRequest {
        method: Method::Post,
        url: String::from_str("https://accounts.spotify.com/api/token"),
        headers: Vec::new(),
        form,
    };
    proof {
        let wanted = token_request(client_id@, client_secret@, refresh_token@);
        assert(request@.headers =~= wanted.headers);
        assert(request@.form =~= wanted.form);
    }
    SpotifyStep::Send(request)
}

/// Continues a run with the outcome of the token request.
pub fn spotify_after_token(fetched: &TokenFetch) -> (step: SpotifyStep)
    ensures
        step@ == step_after_token(fetched@),
{
    match fetched {
        TokenFetch::Granted(token) => {
            let mut headers: Vec<Pair> = Vec::new();
            let bearer = text_join("Bearer ", token.as_str());
            headers.push(Pair::new("Authorization", bearer.as_str()));
            let request = OutboundRequest {
                method: Method::Get,
                url: String::from_str("https://api.spotify.com/v1/me/player/currently-playing"),
                headers,
                form: Vec::new(),
            };
            proof {
                let wanted = player_request(token@);
                assert(request@.headers =~= wanted.headers);
                assert(request@.form =~= wanted.form);
            }
            SpotifyStep::Send(request)
        },
        TokenFetch::Failed => SpotifyStep::Respond(NowPlaying::NotPlaying { error: None }),
    }
}

/// Projects a track into the snapshot that is served.
pub fn track_snapshot(track: &Track) -> (reply: NowPlaying)
    ensures
        reply@ == snapshot_of(track@),
{
    let artist = if track.artists.len() > 0 {
        track.artists[0].clone()
    } else {
        String::from_str("Unknown")
    };
    let album_art = if track.images.len() > 0 {
        track.images[0].clone()
    } else {
        String::new()
    };
    NowPlaying::Playing { title: track.name.clone(), artist, url: track.url.clone(), album_art }
}

/// Ends a run with the outcome of the player request.
pub fn spotify_after_player(fetched: &PlayerFetch) -> (reply: NowPlaying)
    ensures
        reply@ == reply_after_player(fetched@),
{
    match fetched {
        PlayerFetch::Answered { status, item } => {
            if *status == NO_CONTENT {
                return NowPlaying::NotPlaying { error: None };
            }
            match item {
                Some(track) => track_snapshot(track),
                None => NowPlaying::NotPlaying { error: None },
            }
        },
        PlayerFetch::Failed => NowPlaying::NotPlaying { error: None },
    }
}

} // verus!
