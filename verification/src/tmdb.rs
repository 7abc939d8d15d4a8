//! The remote catalog: its records and the builder for every request the
//! pipeline sends to it.  Building a request is pure string work and is
//! verified here; the transport that performs it lives outside the library.

use vstd::prelude::*;

use crate::config::ListType;
use crate::numfmt::dec_digits_signed;
use crate::numfmt::i64_to_string;

verus! {

/// The two kinds of title the catalog serves.
#[derive(Clone, Copy, PartialEq, Eq, Structural, Debug)]
pub enum Kind {
    Movie,
    Tv,
}

impl Kind {
    /// Path segment of the list endpoints ("movies" / "tv").
    pub open spec fn spec_list_segment(self) -> Seq<char> {
        match self {
            Kind::Movie => "movies"@,
            Kind::Tv => "tv"@,
        }
    }

    pub fn list_segment(self) -> (r: &'static str)
        ensures
            r@ == self.spec_list_segment(),
    {
        match self {
            Kind::Movie => "movies",
            Kind::Tv => "tv",
        }
    }

    /// Path segment of the image endpoints ("movie" / "tv").
    pub open spec fn spec_image_segment(self) -> Seq<char> {
        match self {
            Kind::Movie => "movie"@,
            Kind::Tv => "tv"@,
        }
    }

    pub fn image_segment(self) -> (r: &'static str)
        ensures
            r@ == self.spec_image_segment(),
    {
        match self {
            Kind::Movie => "movie",
            Kind::Tv => "tv",
        }
    }
}

/// One movie on a user's list.
pub struct Movie {
    pub id: i32,
    pub title: String,
}

/// One page of a movie list response.
pub struct MovieWatchlistResponse {
    pub results: Vec<Movie>,
}

/// One TV show on a user's list.
pub struct TVShow {
    pub id: i32,
    pub name: String,
}

/// One page of a TV list response.
pub struct TVWatchlistResponse {
    pub results: Vec<TVShow>,
}

/// One backdrop offered for a title.  The catalog reports the aspect
/// ratio as a decimal; it is carried here in thousandths, so the
/// widescreen threshold of 1.75 reads as 1750.
pub struct Image {
    pub aspect_ratio_milli: u32,
    pub file_path: String,
    pub height: u32,
    pub width: u32,
}

/// The backdrops of one title.
pub struct ImagesResponse {
    pub backdrops: Vec<Image>,
}

/// Base of every catalog endpoint.
pub open spec fn spec_api_url() -> Seq<char> {
    "https://api.themoviedb.org/3"@
}

pub fn api_url() -> (r: &'static str)
    ensures
        r@ == spec_api_url(),
{
    "https://api.themoviedb.org/3"
}

/// URL of the token-creation endpoint.
pub open spec fn spec_token_new_url(api_key: Seq<char>) -> Seq<char> {
    spec_api_url() + "/authentication/token/new?api_key="@ + api_key
}

pub fn token_new_url(api_key: &str) -> (url: String)
    ensures
        url@ == spec_token_new_url(api_key@),
{
    let mut url = api_url().to_owned();
    url.append("/authentication/token/new?api_key=");
    url.append(api_key);
    url
}

/// URL of the session-creation endpoint; the request token travels in the
/// request body, not in the URL.
pub open spec fn spec_session_new_url(api_key: Seq<char>) -> Seq<char> {
    spec_api_url() + "/authentication/session/new?api_key="@ + api_key
}

pub fn session_new_url(api_key: &str) -> (url: String)
    ensures
        url@ == spec_session_new_url(api_key@),
{
    let mut url = api_url().to_owned();
    url.append("/authentication/session/new?api_key=");
    url.append(api_key);
    url
}

/// URL the user must visit to approve a freshly issued request token.
pub open spec fn spec_approval_url(token: Seq<char>) -> Seq<char> {
    "https://www.themoviedb.org/authenticate/"@ + token
}

pub fn approval_url(token: &str) -> (url: String)
    ensures
        url@ == spec_approval_url(token@),
{
    let mut url = "https://www.themoviedb.org/authenticate/".to_owned();
    url.append(token);
    url
}

/// The three-way language inclusion value sent with an image listing:
/// untagged images, images tagged "unknown", and the configured language
/// are requested together, so untagged images are never silently lost.
pub open spec fn spec_language_inclusion(language: Option<Seq<char>>) -> Seq<char> {
    match language {
        Some(l) => "null,xx,"@ + l,
        None => "null,xx,"@,
    }
}

pub fn language_inclusion(language: Option<&String>) -> (r: String)
    ensures
        (language matches Some(l) ==> r@ == spec_language_inclusion(Some(l@))),
        (language is None ==> r@ == spec_language_inclusion(None)),
{
    let mut r = "null,xx,".to_owned();
    match language {
        Some(l) => {
            r.append(l.as_str());
        },
        None => {},
    }
    r
}

/// Full URL of a backdrop, served from the image host at original size.
pub open spec fn spec_image_download_url(file_path: Seq<char>) -> Seq<char> {
    "https://image.tmdb.org/t/p/original"@ + file_path
}

pub fn image_download_url(file_path: &str) -> (url: String)
    ensures
        url@ == spec_image_download_url(file_path@),
{
    let mut url = "https://image.tmdb.org/t/p/original".to_owned();
    url.append(file_path);
    url
}

/// URL of the account lookup for the session.
pub open spec fn spec_account_url(api_key: Seq<char>, session_id: Seq<char>) -> Seq<char> {
    spec_api_url() + "/account?api_key="@ + api_key + "&session_id="@ + session_id
}

/// URL of one list page: watchlist or favorites, movies or TV.
pub open spec fn spec_list_url(
    api_key: Seq<char>,
    session_id: Seq<char>,
    account_id: int,
    kind: Kind,
    list_type: ListType,
) -> Seq<char> {
    spec_api_url() + "/account/"@ + dec_digits_signed(account_id) + "/"@
        + list_type.spec_path_segment() + "/"@ + kind.spec_list_segment() + "?api_key="@ + api_key
        + "&session_id="@ + session_id
}

/// URL of the backdrop listing of one title.
pub open spec fn spec_images_url(
    api_key: Seq<char>,
    title_id: int,
    kind: Kind,
    language: Option<Seq<char>>,
) -> Seq<char> {
    spec_api_url() + "/"@ + kind.spec_image_segment() + "/"@ + dec_digits_signed(title_id)
        + "/images?api_key="@ + api_key + "&include_image_language="@ + spec_language_inclusion(
        language,
    )
}

/// Typed client of the catalog: the credentials and the memoized account
/// id.  It builds requests; it performs none of them.
pub struct Tmdb {
    pub api_key: String,
    pub account_id: Option<i32>,
    pub session_id: Option<String>,
}

impl Tmdb {
    /// The memoized account id, resolved at most once per session.
    pub open spec fn cached_account(&self) -> Option<i32> {
        self.account_id
    }

    pub fn new(api_key: String, session_id: Option<String>) -> (t: Self)
        ensures
            t.api_key == api_key,
            t.session_id == session_id,
            t.cached_account() is None,
    {
        Self { api_key, account_id: None, session_id }
    }

    /// Reads the cache; `None` means the account id must be resolved
    /// remotely and then stored.
    pub fn cached_account_id(&self) -> (r: Option<i32>)
        ensures
            r == self.cached_account(),
    {
        self.account_id
    }

    /// Memoizes a freshly resolved account id.
    pub fn store_account_id(&mut self, id: i32)
        ensures
            final(self).cached_account() == Some(id),
            final(self).api_key == old(self).api_key,
            final(self).session_id == old(self).session_id,
    {
        self.account_id = Some(id);
    }

    /// Drops the memoized account id.
    pub fn invalidate_account_id(&mut self)
        ensures
            final(self).cached_account() is None,
            final(self).api_key == old(self).api_key,
            final(self).session_id == old(self).session_id,
    {
        self.account_id = None;
    }

    /// Replaces the session id; a change of session invalidates the
    /// memoized account id, an unchanged session keeps it.
    pub fn set_session_id(&mut self, session_id: String)
        ensures
            final(self).session_id == Some(session_id),
            final(self).api_key == old(self).api_key,
            (old(self).session_id matches Some(s) && s@ == session_id@) ==> final(self)
                .cached_account() == old(self).cached_account(),
            !(old(self).session_id matches Some(s) && s@ == session_id@) ==> final(self)
                .cached_account() is None,
    {
        let same = match &self.session_id {
            Some(current) => *current == session_id,
            None => false,
        };
        if !same {
            self.account_id = None;
        }
        self.session_id = Some(session_id);
    }

    /// URL of the account lookup; needs an authenticated session.
    pub fn account_url(&self) -> (r: Result<String, crate::auth::AuthError>)
        ensures
            r is Ok <==> self.session_id is Some,
            r matches Ok(url) ==> self.session_id matches Some(s) && url@ == spec_account_url(
                self.api_key@,
                s@,
            ),
            r matches Err(e) ==> e == crate::auth::AuthError::NoSession,
    {
        match &self.session_id {
            None => Err(crate::auth::AuthError::NoSession),
            Some(session) => {
                let mut url = api_url().to_owned();
                url.append("/account?api_key=");
                url.append(self.api_key.as_str());
                url.append("&session_id=");
                url.append(session.as_str());
                Ok(url)
            },
        }
    }

    /// URL of one list page for the resolved account; needs an
    /// authenticated session.
    pub fn list_url(&self, account_id: i32, kind: Kind, list_type: ListType) -> (r: Result<
        String,
        crate::auth::AuthError,
    >)
        ensures
            r is Ok <==> self.session_id is Some,
            r matches Ok(url) ==> self.session_id matches Some(s) && url@ == spec_list_url(
                self.api_key@,
                s@,
                account_id as int,
                kind,
                list_type,
            ),
            r matches Err(e) ==> e == crate::auth::AuthError::NoSession,
    {
        match &self.session_id {
            None => Err(crate::auth::AuthError::NoSession),
            Some(session) => {
                let mut url = api_url().to_owned();
                url.append("/account/");
                url.append(i64_to_string(account_id as i64).as_str());
                url.append("/");
                url.append(list_type.path_segment());
                url.append("/");
                url.append(kind.list_segment());
                url.append("?api_key=");
                url.append(self.api_key.as_str());
                url.append("&session_id=");
                url.append(session.as_str());
                Ok(url)
            },
        }
    }

    /// URL of the backdrop listing of one title, with the language
    /// inclusion value for the effective filter.
    pub fn images_url(&self, title_id: i32, kind: Kind, language: Option<&String>) -> (url: String)
        ensures
            (language matches Some(l) ==> url@ == spec_images_url(
                self.api_key@,
                title_id as int,
                kind,
                Some(l@),
            )),
            (language is None ==> url@ == spec_images_url(
                self.api_key@,
                title_id as int,
                kind,
                None,
            )),
    {
        let mut url = api_url().to_owned();
        url.append("/");
        url.append(kind.image_segment());
        url.append("/");
        url.append(i64_to_string(title_id as i64).as_str());
        url.append("/images?api_key=");
        url.append(self.api_key.as_str());
        url.append("&include_image_language=");
        url.append(language_inclusion(language).as_str());
        url
    }
}

} // verus!
