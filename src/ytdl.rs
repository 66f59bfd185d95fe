//! Types for the results of a `youtube-dl` query, and the rules that turn
//! its JSON output, once parsed, into tracks and playlists.

use vstd::prelude::*;
use vstd::string::{StringExecFns, StringSliceAdditionalSpecFns};
use vstd::utf8::{decode_utf8, is_char_boundary};
use crate::voice::payload::{find_delimiter, scan_delimiter, trim_bounds, trim_end, trim_start};
use serde_json::Error as JsonError;

verus! {

/// The text of a string with leading and trailing whitespace removed, as
/// Rust's `str::trim` removes it.
pub uninterp spec fn trimmed(s: Seq<char>) -> Seq<char>;

/// Relies on `str::trim`: the result depends on the characters alone.
#[verifier::external_body]
fn trim_to_string(s: &str) -> (r: String)
    ensures
        r@ == trimmed(s@),
{
    s.trim().to_owned()
}

/// An author of a track.
pub struct Author {
    /// The name of the author.
    pub name: String,
    /// A URL to the author's channel.
    pub url: Option<String>,
}

/// A single `youtube-dl` track.
pub struct Track {
    /// A url which, when provided to `youtube-dl`, should produce the same
    /// result.
    pub url: String,
    /// A visible title for a song.
    pub title: String,
    /// The author of the track.
    pub author: Author,
    /// The URL of the thumbnail of the track.
    pub thumbnail_url: Option<String>,
}

/// Many `youtube-dl` tracks.
pub struct Playlist {
    /// A url which, when provided to `youtube-dl`, should produce the same
    /// result.
    pub url: String,
    /// A visible title for the playlist.
    pub title: String,
    /// The author of the playlist.
    pub author: Author,
    /// The URL of the thumbnail of the playlist.
    pub thumbnail_url: Option<String>,
    /// The tracks of the playlist.
    pub tracks: Vec<Track>,
}

/// The result of a `youtube-dl` query.
pub enum Query {
    /// A track was found.
    Track(Track),
    /// A playlist was found.
    Playlist(Playlist),
}

/// An error from a `youtube-dl` command.
pub struct YtdlError {
    message: String,
}

/// An error that can occur querying `youtube-dl`.
pub enum QueryError {
    /// There was an IO error.
    Io(std::io::Error),
    /// UTF-8 error while processing input JSON.
    Utf8(std::str::Utf8Error),
    /// Error while parsing input JSON.
    Json(JsonError),
    /// `youtube-dl` produced an error.
    Ytdl(YtdlError),
    /// The video that was queried is private.
    PrivateVideo,
}

/// A thumbnail entry of a query result.
pub struct YtdlThumbnail {
    pub url: String,
    pub height: u32,
    pub width: u32,
}

/// The fields of a track in `youtube-dl`'s JSON output.
pub struct YtdlQuery {
    pub id: String,
    pub webpage_url: Option<String>,
    pub title: String,
    pub uploader: Option<String>,
    pub uploader_url: Option<String>,
    pub thumbnail: Option<String>,
    pub thumbnails: Option<Vec<YtdlThumbnail>>,
}

/// The fields of a playlist in `youtube-dl`'s JSON output.
pub struct YtdlPlaylist {
    pub title: String,
    pub uploader: String,
    pub uploader_url: Option<String>,
    pub webpage_url: String,
    pub thumbnail: Option<String>,
    pub entries: Vec<YtdlQuery>,
}

/// The larger of two thumbnails: the later one when it is wider or
/// taller, else the earlier.
pub open spec fn larger(acc: YtdlThumbnail, t: YtdlThumbnail) -> YtdlThumbnail {
    if t.width > acc.width || t.height > acc.height {
        t
    } else {
        acc
    }
}

/// Folds `larger` over `ts`, from the left, starting at `acc`.
pub open spec fn fold_larger(acc: YtdlThumbnail, ts: Seq<YtdlThumbnail>) -> YtdlThumbnail
    decreases ts.len(),
{
    if ts.len() == 0 {
        acc
    } else {
        fold_larger(larger(acc, ts[0]), ts.subrange(1, ts.len() as int))
    }
}

/// The thumbnail a track shows: its own, else the largest of its list.
pub open spec fn track_thumbnail(q: YtdlQuery) -> Option<Seq<char>> {
    match q.thumbnail {
        Some(t) => Some(t@),
        None => match q.thumbnails {
            Some(ts) if ts@.len() > 0 => Some(fold_larger(ts@[0], ts@.subrange(1, ts@.len() as int)).url@),
            _ => None,
        },
    }
}

/// The page of a video, from its id.
pub open spec fn watch_url(id: Seq<char>) -> Seq<char> {
    "https://www.youtube.com/watch?v="@ + id
}

/// The view of an optional string.
pub open spec fn opt_view(s: Option<String>) -> Option<Seq<char>> {
    match s {
        Some(x) => Some(x@),
        None => None,
    }
}

/// The largest thumbnail of a non-empty list.
fn largest_thumbnail(ts: &Vec<YtdlThumbnail>) -> (r: String)
    requires
        ts@.len() > 0,
    ensures
        r@ == fold_larger(ts@[0], ts@.subrange(1, ts@.len() as int)).url@,
{
    let mut best: usize = 0;
    let mut i: usize = 1;
    while i < ts.len()
        invariant
            1 <= i <= ts@.len(),
            best < ts@.len(),
            fold_larger(ts@[0], ts@.subrange(1, ts@.len() as int)) == fold_larger(
                ts@[best as int],
                ts@.subrange(i as int, ts@.len() as int),
            ),
        decreases ts@.len() - i,
    {
        assert(ts@.subrange(i as int, ts@.len() as int).subrange(1, (ts@.len() - i) as int)
            =~= ts@.subrange(i + 1, ts@.len() as int));
        if ts[i].width > ts[best].width || ts[i].height > ts[best].height {
            best = i;
        }
        i += 1;
    }
    ts[best].url.clone()
}

/// `t` is the track made of `q`'s fields.
pub open spec fn is_track_of(t: Track, q: YtdlQuery) -> bool {
    &&& q.uploader is Some
    &&& t.url@ == match q.webpage_url {
        Some(u) => u@,
        None => watch_url(q.id@),
    }
    &&& t.title == q.title
    &&& t.author.name == q.uploader->Some_0
    &&& t.author.url == q.uploader_url
    &&& opt_view(t.thumbnail_url) == track_thumbnail(q)
}

impl Track {
    /// Makes a track of `youtube-dl`'s fields: the url falls back to the
    /// video's page, the thumbnail to the largest in the list, and a track
    /// without an uploader is a private video.
    pub fn from_query(q: YtdlQuery) -> (r: Result<Track, QueryError>)
        ensures
            q.uploader is None <==> r matches Err(QueryError::PrivateVideo),
            q.uploader is Some <==> r is Ok,
            r matches Ok(t) ==> is_track_of(t, q),
    {
        let url = match &q.webpage_url {
            Some(u) => u.clone(),
            None => {
                let prefix = "https://www.youtube.com/watch?v=".to_string();
                prefix.concat(q.id.as_str())
            },
        };
        let thumbnail = match &q.thumbnail {
            Some(t) => Some(t.clone()),
            None => match &q.thumbnails {
                Some(ts) => {
                    if ts.len() > 0 {
                        Some(largest_thumbnail(ts))
                    } else {
                        None
                    }
                },
                None => None,
            },
        };
        let name = match &q.uploader {
            Some(n) => n.clone(),
            None => {
                return Err(QueryError::PrivateVideo);
            },
        };
        Ok(
            Track {
                url,
                title: q.title,
                author: Author { name, url: q.uploader_url },
                thumbnail_url: thumbnail,
            },
        )
    }

    /// The url of the track.
    pub fn url(&self) -> (r: &str)
        ensures
            r@ == self.url@,
    {
        self.url.as_str()
    }

    /// The title of the track.
    pub fn title(&self) -> (r: &str)
        ensures
            r@ == self.title@,
    {
        self.title.as_str()
    }

    /// A hyperlink to the thumbnail of the track.
    pub fn thumbnail_url(&self) -> (r: Option<&str>)
        ensures
            r is None <==> self.thumbnail_url is None,
            r matches Some(u) ==> u@ == self.thumbnail_url->Some_0@,
    {
        match &self.thumbnail_url {
            Some(u) => Some(u.as_str()),
            None => None,
        }
    }

    /// The author's name.
    pub fn author_name(&self) -> (r: &str)
        ensures
            r@ == self.author.name@,
    {
        self.author.name.as_str()
    }

    /// A hyperlink to the author's page.
    pub fn author_url(&self) -> (r: Option<&str>)
        ensures
            r is None <==> self.author.url is None,
            r matches Some(u) ==> u@ == self.author.url->Some_0@,
    {
        match &self.author.url {
            Some(u) => Some(u.as_str()),
            None => None,
        }
    }
}

/// The entries of a playlist that make tracks, in order: private videos
/// are left out.
pub open spec fn public_entries(entries: Seq<YtdlQuery>) -> Seq<YtdlQuery> {
    entries.filter(|q: YtdlQuery| q.uploader is Some)
}

impl Playlist {
    /// Makes a playlist of `youtube-dl`'s fields, leaving out the entries
    /// that are private videos.
    pub fn from_ytdl(p: YtdlPlaylist) -> (r: Playlist)
        ensures
            r.url == p.webpage_url,
            r.title == p.title,
            r.author.name == p.uploader,
            r.author.url == p.uploader_url,
            r.thumbnail_url == p.thumbnail,
            r.tracks@.len() == public_entries(p.entries@).len(),
            forall|i: int|
                0 <= i < r.tracks@.len() ==> is_track_of(
                    #[trigger] r.tracks@[i],
                    public_entries(p.entries@)[i],
                ),
    {
        let YtdlPlaylist { title, uploader, uploader_url, webpage_url, thumbnail, entries } = p;
        let ghost all = entries@;
        let mut tracks: Vec<Track> = Vec::new();
        let mut rest = entries;
        let n = rest.len();
        let mut i: usize = 0;
        while i < n
            invariant
                0 <= i <= n == all.len(),
                rest@ == all.subrange(i as int, n as int),
                tracks@.len() == public_entries(all.subrange(0, i as int)).len(),
                forall|k: int|
                    0 <= k < tracks@.len() ==> is_track_of(
                        #[trigger] tracks@[k],
                        public_entries(all.subrange(0, i as int))[k],
                    ),
            decreases n - i,
        {
            let q = rest.remove(0);
            proof {
                reveal(Seq::filter);
                assert(all.subrange(0, i + 1).drop_last() =~= all.subrange(0, i as int));
                assert(q == all[i as int]);
            }
            match Track::from_query(q) {
                Ok(t) => {
                    tracks.push(t);
                },
                Err(_) => {},
            }
            i += 1;
            proof {
                assert(rest@ =~= all.subrange(i as int, n as int));
            }
        }
        assert(all.subrange(0, n as int) =~= all);
        Playlist {
            url: webpage_url,
            title,
            author: Author { name: uploader, url: uploader_url },
            thumbnail_url: thumbnail,
            tracks,
        }
    }
}

impl Playlist {
    /// The thumbnail a playlist shows: its own, else its first track's.
    pub fn thumbnail(&self) -> (r: Option<&str>)
        ensures
            self.thumbnail_url matches Some(u) ==> r matches Some(x) && x@ == u@,
            self.thumbnail_url is None ==> (r is None <==> (self.tracks@.len() == 0
                || self.tracks@[0].thumbnail_url is None)),
            self.thumbnail_url is None && r is Some ==> r->Some_0@
                == self.tracks@[0].thumbnail_url->Some_0@,
    {
        match &self.thumbnail_url {
            Some(u) => Some(u.as_str()),
            None => {
                if self.tracks.len() > 0 {
                    self.tracks[0].thumbnail_url()
                } else {
                    None
                }
            },
        }
    }

    /// The url of the playlist.
    pub fn url(&self) -> (r: &str)
        ensures
            r@ == self.url@,
    {
        self.url.as_str()
    }

    /// The title of the playlist.
    pub fn title(&self) -> (r: &str)
        ensures
            r@ == self.title@,
    {
        self.title.as_str()
    }

    /// The author's name.
    pub fn author_name(&self) -> (r: &str)
        ensures
            r@ == self.author.name@,
    {
        self.author.name.as_str()
    }

    /// A hyperlink to the author's page.
    pub fn author_url(&self) -> (r: Option<&str>)
        ensures
            r is None <==> self.author.url is None,
            r matches Some(u) ==> u@ == self.author.url->Some_0@,
    {
        match &self.author.url {
            Some(u) => Some(u.as_str()),
            None => None,
        }
    }

    /// The tracks of the playlist.
    pub fn entries(&self) -> (r: &[Track])
        ensures
            r@ == self.tracks@,
    {
        self.tracks.as_slice()
    }

    /// Unwraps the tracks of the playlist.
    pub fn into_entries(self) -> (r: Vec<Track>)
        ensures
            r@ == self.tracks@,
    {
        self.tracks
    }
}

/// The bytes of the key `"_type":`.
pub open spec fn type_key() -> Seq<u8> {
    seq![0x22u8, 0x5Fu8, 0x74u8, 0x79u8, 0x70u8, 0x65u8, 0x22u8, 0x3Au8]
}

/// The bytes of the JSON string `"playlist"`.
pub open spec fn playlist_value() -> Seq<u8> {
    seq![0x22u8, 0x70u8, 0x6Cu8, 0x61u8, 0x79u8, 0x6Cu8, 0x69u8, 0x73u8, 0x74u8, 0x22u8]
}

/// The first position at or after `from` where `key` starts.
pub open spec fn find_key(s: Seq<u8>, key: Seq<u8>, from: int) -> Option<int>
    decreases s.len() + 1 - from,
{
    if from < 0 || from + key.len() > s.len() {
        None
    } else if s.subrange(from, from + key.len()) == key {
        Some(from)
    } else {
        find_key(s, key, from + 1)
    }
}

/// `youtube-dl`'s output describes a playlist: the value after the first
/// `"_type":`, up to the next `,` or `}` and trimmed, is `"playlist"`.
pub open spec fn is_playlist_output(s: Seq<u8>) -> bool {
    match find_key(s, type_key(), 0) {
        None => false,
        Some(i) => match find_delimiter(s, i + 8) {
            None => false,
            Some(j) => trim_end(trim_start(s.subrange(i + 8, j))) == playlist_value(),
        },
    }
}

/// Finds the first occurrence of `key` at or after `from`.
fn scan_key(s: &[u8], key: &[u8], from: usize) -> (r: Option<usize>)
    requires
        from <= s@.len(),
        key@.len() > 0,
    ensures
        r matches Some(i) ==> find_key(s@, key@, from as int) == Some(i as int) && i + key@.len()
            <= s@.len(),
        r is None ==> find_key(s@, key@, from as int) is None,
{
    let n = s.len();
    let k = key.len();
    let mut i = from;
    while n >= k && i <= n - k
        invariant
            n == s@.len(),
            k == key@.len(),
            k > 0,
            from <= i <= s@.len(),
            find_key(s@, key@, from as int) == find_key(s@, key@, i as int),
        decreases s@.len() - i,
    {
        let part = vstd::slice::slice_subrange(s, i, i + k);
        if crate::voice::payload::bytes_eq(part, key) {
            return Some(i);
        }
        i += 1;
    }
    None
}

/// Checks whether `youtube-dl`'s JSON output describes a playlist.
pub fn output_is_playlist(out: &str) -> (r: bool)
    ensures
        r == is_playlist_output(out.spec_bytes()),
{
    let s = out.as_bytes();
    let n = s.len();
    let key: [u8; 8] = [0x22u8, 0x5Fu8, 0x74u8, 0x79u8, 0x70u8, 0x65u8, 0x22u8, 0x3Au8];
    let want: [u8; 10] = [0x22u8, 0x70u8, 0x6Cu8, 0x61u8, 0x79u8, 0x6Cu8, 0x69u8, 0x73u8, 0x74u8, 0x22u8];
    assert(key@ =~= type_key());
    assert(want@ =~= playlist_value());
    match scan_key(s, key.as_slice(), 0) {
        None => false,
        Some(i) => match scan_delimiter(s, i + 8) {
            None => false,
            Some(j) => {
                let (a, b) = trim_bounds(s, i + 8, j);
                crate::voice::payload::bytes_eq(vstd::slice::slice_subrange(s, a, b), want.as_slice())
            },
        },
    }
}

/// The bytes `ERROR:` that start an error line of `youtube-dl`.
pub open spec fn error_prefix() -> Seq<u8> {
    seq![0x45u8, 0x52u8, 0x52u8, 0x4Fu8, 0x52u8, 0x3Au8]
}

impl View for YtdlError {
    type V = Seq<char>;

    closed spec fn view(&self) -> Seq<char> {
        self.message@
    }
}

impl YtdlError {
    /// An error with a message.
    pub fn new(message: String) -> (r: YtdlError)
        ensures
            r@ == message@,
    {
        YtdlError { message }
    }

    /// Reads an error from a line `youtube-dl` wrote to its error stream:
    /// a line that starts with `ERROR:` holds the message after it,
    /// trimmed. Other lines hold none.
    pub fn from_line(line: &str) -> (r: Option<YtdlError>)
        ensures
            r is Some <==> line.spec_bytes().len() >= 6 && line.spec_bytes().subrange(0, 6)
                == error_prefix() && is_char_boundary(line.spec_bytes(), 6),
            r matches Some(e) ==> e@ == trimmed(
                decode_utf8(line.spec_bytes().subrange(6, line.spec_bytes().len() as int)),
            ),
    {
        let b = line.as_bytes();
        if b.len() < 6 || !(b[0] == 0x45u8 && b[1] == 0x52u8 && b[2] == 0x52u8 && b[3] == 0x4Fu8
            && b[4] == 0x52u8 && b[5] == 0x3Au8) {
            proof {
                if b@.len() >= 6 && b@.subrange(0, 6) == error_prefix() {
                    assert(b@.subrange(0, 6)[0] == b@[0]);
                    assert(b@.subrange(0, 6)[1] == b@[1]);
                    assert(b@.subrange(0, 6)[2] == b@[2]);
                    assert(b@.subrange(0, 6)[3] == b@[3]);
                    assert(b@.subrange(0, 6)[4] == b@[4]);
                    assert(b@.subrange(0, 6)[5] == b@[5]);
                }
            }
            return None;
        }
        assert(b@.subrange(0, 6) =~= error_prefix());
        if !line.is_char_boundary(6) {
            return None;
        }
        let (_, rest) = line.split_at(6);
        proof {
            vstd::utf8::encode_utf8_decode_utf8(rest@);
        }
        Some(YtdlError { message: trim_to_string(rest) })
    }

    /// The message of the error.
    pub fn message(&self) -> (r: &str)
        ensures
            r@ == self@,
    {
        self.message.as_str()
    }
}

} // verus!
