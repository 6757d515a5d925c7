//! One read of a paste, from the key string to what the reader is shown.
//!
//! A read needs two things that only its caller can get: an answer from the
//! database and, for markup that the cache does not hold, a run of the
//! highlighter. So a read is a short state machine, and the caller moves it:
//!
//! 1. [`begin`] parses the key. The [`Lookup`] it returns says what to ask
//!    the database.
//! 2. [`Lookup::resolve`] takes the database's answer. It ends the read, or
//!    returns a [`Rendering`] that says what to highlight.
//! 3. [`Rendering::finish`] takes the highlighter's answer and ends the read.
//!
//! Markup is remembered only for a paste that can be read again and was read
//! without a password, and only for such a read is the cache asked at all.

use crate::access::{can_delete, may_delete};
use crate::cache::RenderCache;
use crate::entry::{
    lookup_view, opt_password_view, Data, DataView, DbError, Entry, EntryView, Password,
};
use crate::error::Error;
use crate::highlight::{markup_view, HighlightError, Html};
use crate::key::{parse_key, Key, KeyView};
use crate::paste::{
    Page, PageView, PasswordForm, PasswordInput, PasswordInputView, Paste, PasteView, Response,
    ResponseView, Theme,
};
use crate::text::{borrow_opt, opt_str_view, opt_view};
use vstd::prelude::*;
use vstd::string::*;
use vstd::utf8::encode_utf8;

verus! {

/// What a reader sends, and the site's settings.
pub struct Request {
    pub page: Page,
    /// The key string, as the reader wrote it.
    pub id: String,
    pub theme: Option<Theme>,
    /// The value of the reader's signed identity token, if there is one.
    pub identity: Option<String>,
    /// The password form, if the reader submitted one.
    pub form: Option<PasswordForm>,
}

/// A request as a mathematical value.
pub struct RequestView {
    pub page: PageView,
    pub id: Seq<char>,
    pub theme: Option<Theme>,
    pub identity: Option<Seq<char>>,
    /// The password as typed.
    pub form: Option<Seq<char>>,
}

impl View for Request {
    type V = RequestView;

    open spec fn view(&self) -> RequestView {
        RequestView {
            page: self.page@,
            id: self.id@,
            theme: self.theme,
            identity: opt_view(self.identity),
            form: match self.form {
                Some(form) => Some(form.password@),
                None => None,
            },
        }
    }
}

/// A read that waits for the database.
pub struct Lookup {
    page: Page,
    key: Key,
    theme: Option<Theme>,
    identity: Option<String>,
    password: Option<Password>,
}

/// What a read that waits for the database knows.
pub struct LookupView {
    pub page: PageView,
    pub key: KeyView,
    pub theme: Option<Theme>,
    pub identity: Option<Seq<char>>,
    pub password: Option<Seq<u8>>,
}

impl View for Lookup {
    type V = LookupView;

    closed spec fn view(&self) -> LookupView {
        LookupView {
            page: self.page@,
            key: self.key@,
            theme: self.theme,
            identity: opt_view(self.identity),
            password: opt_password_view(self.password),
        }
    }
}

/// A read that waits for the highlighter.
#[derive(Debug)]
pub struct Rendering {
    page: Page,
    key: Key,
    theme: Option<Theme>,
    can_delete: bool,
    is_available: bool,
    with_password: bool,
    title: String,
    text: String,
}

/// What a read that waits for the highlighter knows.
pub struct RenderingView {
    pub page: PageView,
    pub key: KeyView,
    pub theme: Option<Theme>,
    pub can_delete: bool,
    /// Whether the paste can be read again.
    pub is_available: bool,
    /// Whether the reader gave a password.
    pub with_password: bool,
    pub title: Seq<char>,
    /// The raw content, which the highlighter is to render.
    pub text: Seq<char>,
}

impl View for Rendering {
    type V = RenderingView;

    closed spec fn view(&self) -> RenderingView {
        RenderingView {
            page: self.page@,
            key: self.key@,
            theme: self.theme,
            can_delete: self.can_delete,
            is_available: self.is_available,
            with_password: self.with_password,
            title: self.title@,
            text: self.text@,
        }
    }
}

/// Where a read stands once the database has answered.
#[derive(Debug)]
pub enum Progress {
    /// The read is over.
    Done(Result<Response, Error>),
    /// The content is there and the highlighter has to render it.
    Render(Rendering),
}

/// Where a read stands, as a mathematical value.
pub enum ProgressView {
    Done(Result<ResponseView, Error>),
    Render(RenderingView),
}

/// The view of how a read ended.
pub open spec fn outcome_view(outcome: Result<Response, Error>) -> Result<ResponseView, Error> {
    match outcome {
        Ok(response) => Ok(response@),
        Err(e) => Err(e),
    }
}

impl View for Progress {
    type V = ProgressView;

    open spec fn view(&self) -> ProgressView {
        match self {
            Progress::Done(outcome) => ProgressView::Done(outcome_view(*outcome)),
            Progress::Render(rendering) => ProgressView::Render(rendering@),
        }
    }
}

/// The cache as the read path sees it.
pub type Cached = Map<KeyView, Seq<char>>;

/// Whether a read may use the cache: only if the paste can be read again
/// and the reader gave no password.
pub open spec fn cache_eligible(is_available: bool, with_password: bool) -> bool {
    is_available && !with_password
}

/// The title to show: the paste's own, or none at all.
pub open spec fn shown_title(title: Option<Seq<char>>) -> Seq<char> {
    match title {
        Some(t) => t,
        None => Seq::empty(),
    }
}

/// The first step: a key string that parses opens a lookup, any other ends
/// the read.
pub open spec fn begun(request: RequestView) -> Result<LookupView, Error> {
    match parse_key(request.id) {
        Ok(key) => Ok(
            LookupView {
                page: request.page,
                key,
                theme: request.theme,
                identity: request.identity,
                password: match request.form {
                    Some(typed) => Some(encode_utf8(typed)),
                    None => None,
                },
            },
        ),
        Err(_) => Err(Error::InvalidKey),
    }
}

/// The page that shows a paste.
pub open spec fn paste_page(
    lookup: LookupView,
    data: DataView,
    is_available: bool,
    html: Seq<char>,
) -> PasteView {
    PasteView {
        page: lookup.page,
        key: lookup.key,
        theme: lookup.theme,
        can_delete: may_delete(lookup.identity, data.uid),
        is_available,
        html,
        title: shown_title(data.title),
    }
}

/// The step for a lookup that found content. Markup from the cache ends the
/// read; otherwise the highlighter is next.
pub open spec fn with_content(
    lookup: LookupView,
    data: DataView,
    is_available: bool,
    cache: Cached,
) -> ProgressView {
    if cache_eligible(is_available, lookup.password is Some) && cache.contains_key(lookup.key) {
        ProgressView::Done(
            Ok(ResponseView::Paste(paste_page(lookup, data, is_available, cache[lookup.key]))),
        )
    } else {
        ProgressView::Render(
            RenderingView {
                page: lookup.page,
                key: lookup.key,
                theme: lookup.theme,
                can_delete: may_delete(lookup.identity, data.uid),
                is_available,
                with_password: lookup.password is Some,
                title: shown_title(data.title),
                text: data.text,
            },
        )
    }
}

/// The second step, on each of the five answers that the database can give.
pub open spec fn resolved(
    lookup: LookupView,
    found: Result<EntryView, DbError>,
    cache: Cached,
) -> ProgressView {
    match found {
        Ok(EntryView::Regular(data)) => with_content(lookup, data, true, cache),
        Ok(EntryView::Burned(data)) => with_content(lookup, data, false, cache),
        Ok(EntryView::Expired) => ProgressView::Done(Err(Error::NotFound)),
        Err(DbError::NotFound) => ProgressView::Done(Err(Error::NotFound)),
        Err(DbError::PasswordRequired) => ProgressView::Done(
            Ok(
                ResponseView::PasswordInput(
                    PasswordInputView { page: lookup.page, theme: lookup.theme, key: lookup.key },
                ),
            ),
        ),
    }
}

/// How the third step ends the read.
pub open spec fn finished(
    rendering: RenderingView,
    rendered: Result<Seq<char>, HighlightError>,
) -> Result<ResponseView, Error> {
    match rendered {
        Ok(html) => Ok(
            ResponseView::Paste(
                PasteView {
                    page: rendering.page,
                    key: rendering.key,
                    theme: rendering.theme,
                    can_delete: rendering.can_delete,
                    is_available: rendering.is_available,
                    html,
                    title: rendering.title,
                },
            ),
        ),
        Err(_) => Err(Error::HighlightFailure),
    }
}

/// What the third step leaves in the cache.
pub open spec fn cache_after(
    rendering: RenderingView,
    rendered: Result<Seq<char>, HighlightError>,
    cache: Cached,
) -> Cached {
    match rendered {
        Ok(html) => if cache_eligible(rendering.is_available, rendering.with_password) {
            cache.insert(rendering.key, html)
        } else {
            cache
        },
        Err(_) => cache,
    }
}

/// Opens a read: parses the key string.
pub fn begin(request: Request) -> (r: Result<Lookup, Error>)
    ensures
        match r {
            Ok(lookup) => begun(request@) == Ok::<LookupView, Error>(lookup@),
            Err(e) => begun(request@) == Err::<LookupView, Error>(e),
        },
{
    let Request { page, id, theme, identity, form } = request;
    let key = match Key::parse(id.as_str()) {
        Ok(key) => key,
        Err(_) => {
            return Err(Error::InvalidKey);
        },
    };
    let password = match form {
        Some(form) => Some(form.attempt()),
        None => None,
    };
    Ok(Lookup { page, key, theme, identity, password })
}

impl Lookup {
    /// The key that is being read.
    pub fn key(&self) -> (key: &Key)
        ensures
            key@ == self@.key,
    {
        &self.key
    }

    /// The password to hand to the database with the key's identifier.
    pub fn password(&self) -> (p: Option<&Password>)
        ensures
            match p {
                Some(q) => self@.password == Some(q@),
                None => self@.password is None,
            },
    {
        self.password.as_ref()
    }

    /// Takes the database's answer.
    ///
    /// The cache is only read here, and only where the read may use it.
    pub fn resolve(self, found: Result<Entry, DbError>, cache: &RenderCache) -> (next: Progress)
        ensures
            next@ == resolved(self@, lookup_view(found), cache@),
    {
        let (data, is_available) = match found {
            Ok(Entry::Regular(data)) => (data, true),
            Ok(Entry::Burned(data)) => (data, false),
            Ok(Entry::Expired) => {
                return Progress::Done(Err(Error::NotFound));
            },
            Err(DbError::NotFound) => {
                return Progress::Done(Err(Error::NotFound));
            },
            Err(DbError::PasswordRequired) => {
                return Progress::Done(
                    Ok(
                        Response::PasswordInput(
                            PasswordInput { page: self.page, theme: self.theme, key: self.key },
                        ),
                    ),
                );
            },
        };
        let with_password = self.password.is_some();
        let can_be_deleted = can_delete(borrow_opt(&self.identity), data.uid);
        let Data { text, title, uid: _ } = data;
        let title = match title {
            Some(title) => title,
            None => String::new(),
        };
        let cached = if is_available && !with_password {
            cache.get(&self.key)
        } else {
            None
        };
        match cached {
            Some(html) => Progress::Done(
                Ok(
                    Response::Paste(
                        Paste::new(
                            self.key,
                            html,
                            self.theme,
                            can_be_deleted,
                            is_available,
                            title,
                            self.page,
                        ),
                    ),
                ),
            ),
            None => Progress::Render(
                Rendering {
                    page: self.page,
                    key: self.key,
                    theme: self.theme,
                    can_delete: can_be_deleted,
                    is_available,
                    with_password,
                    title,
                    text,
                },
            ),
        }
    }
}

impl Rendering {
    /// The raw content to hand to the highlighter.
    pub fn text(&self) -> (text: &str)
        ensures
            text@ == self@.text,
    {
        self.text.as_str()
    }

    /// The extension to hand to the highlighter with the content.
    pub fn ext(&self) -> (ext: Option<&str>)
        ensures
            opt_str_view(ext) == self@.key.ext,
    {
        self.key.ext()
    }

    /// Takes the highlighter's answer and ends the read.
    ///
    /// Markup goes into the cache only here: once it is complete, and only
    /// where the read may use the cache.
    pub fn finish(self, rendered: Result<Html, HighlightError>, cache: &mut RenderCache) -> (r:
        Result<Response, Error>)
        ensures
            outcome_view(r) == finished(self@, markup_view(rendered)),
            final(cache)@ == cache_after(self@, markup_view(rendered), old(cache)@),
    {
        let html = match rendered {
            Ok(html) => html,
            Err(_) => {
                return Err(Error::HighlightFailure);
            },
        };
        if self.is_available && !self.with_password {
            cache.put(self.key.clone(), html.clone());
        }
        Ok(
            Response::Paste(
                Paste::new(
                    self.key,
                    html,
                    self.theme,
                    self.can_delete,
                    self.is_available,
                    self.title,
                    self.page,
                ),
            ),
        )
    }
}

} // verus!
