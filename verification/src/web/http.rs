//! The pages: what each request is answered with.

use crate::data::ClipStore;
use crate::domain::clip::field::short_code::is_generated;
use crate::domain::clip::field::{Password, ShortCode};
use crate::domain::clip::{reason_text, Clip};
use crate::domain::text::present;
use crate::service::action::{
    created, exhausted, lookup, permission_hint, rejection, Lookup,
};
use crate::service::ask::{GetClip, NewClip};
use crate::service::views::ViewCounter;
use crate::service::{action, ServiceError};
use crate::web::{PageError, Status};
use vstd::prelude::*;
use vstd::string::StringExecFns;

verus! {

/// The name of the cookie that carries a reader's password.
pub const PASSWORD_COOKIE: &'static str = "password";

/// What a page shows.
#[derive(Debug)]
pub enum Page {
    /// The form that creates a clip.
    Home,
    /// A clip.
    ViewClip(Clip),
    /// The form that asks for the password of the clip with this short code.
    PasswordRequired(ShortCode),
}

/// A cookie to set with a response.
#[derive(Debug)]
pub struct Cookie {
    pub name: String,
    pub value: String,
}

/// A page to render: its status, what it shows, the messages to show with
/// it, and the cookie to set.
#[derive(Debug)]
pub struct Rendered {
    pub status: Status,
    pub page: Page,
    pub errors: Vec<String>,
    pub cookie: Option<Cookie>,
}

/// A redirect to the page of the clip with this short code.
#[derive(Debug)]
pub struct Redirect {
    pub to: ShortCode,
}

impl Redirect {
    /// The path of the page that the redirect leads to.
    pub fn location(&self) -> (path: String)
        ensures
            path@ == "/clip/"@ + self.to@,
    {
        "/clip/".to_owned().concat(self.to.as_str())
    }
}

/// The message of a page that failed for no fault of the user.
pub open spec fn server_error_text() -> Seq<char> {
    "A server error occurred. Please try again"@
}

/// The message of the creation form when what was submitted could not be
/// read as a form.
pub open spec fn unreadable_form_text() -> Seq<char> {
    "An error occurred, please try again"@
}

/// The message of the password form when no password was submitted.
pub open spec fn password_required_text() -> Seq<char> {
    "A password is required to view this clip"@
}

/// The message that goes with a clip that is not there.
pub open spec fn not_found_text() -> Seq<char> {
    "Clip not found"@
}

/// The password that a reader supplies by cookie.
pub open spec fn cookie_password(cookie: Option<Seq<char>>) -> Option<Seq<char>> {
    match cookie {
        Some(value) => present(value),
        None => None,
    }
}

/// Whether `rendered` comes under `status` with no message and no cookie.
pub open spec fn is_plain(rendered: Rendered, status: Status) -> bool {
    &&& rendered.status == status
    &&& rendered.errors@.len() == 0
    &&& rendered.cookie is None
}

/// Whether `rendered` comes under `status` with the one message `message`
/// and no cookie.
pub open spec fn has_message(rendered: Rendered, status: Status, message: Seq<char>) -> bool {
    &&& rendered.status == status
    &&& rendered.errors@.len() == 1
    &&& rendered.errors@[0]@ == message
    &&& rendered.cookie is None
}

/// The page `page` under `status` with one message.
fn with_message(status: Status, page: Page, message: String) -> (rendered: Rendered)
    ensures
        has_message(rendered, status, message@),
        rendered.page == page,
{
    let mut errors: Vec<String> = Vec::new();
    errors.push(message);
    Rendered { status, page, errors, cookie: None }
}

/// The page `page` under `status` with no message.
fn plain(status: Status, page: Page) -> (rendered: Rendered)
    ensures
        is_plain(rendered, status),
        rendered.page == page,
{
    Rendered { status, page, errors: Vec::new(), cookie: None }
}

/// The home page.
pub fn home() -> (rendered: Rendered)
    ensures
        is_plain(rendered, Status::Success),
        rendered.page is Home,
{
    plain(Status::Success, Page::Home)
}

/// Answers a submitted creation form at the time `now`; `form` is `None`
/// where what was submitted could not be read as a form. A clip that was
/// created is answered with a redirect to its page. An unreadable form or a
/// rejected field brings the form back with the reason, and any other
/// failure brings it back with a general message.
pub fn new_clip(form: Option<NewClip>, store: &mut ClipStore, now: i64) -> (answer: Result<
    Redirect,
    Rendered,
>)
    ensures
        match answer {
            Ok(redirect) => {
                &&& form matches Some(request)
                &&& rejection(request@, now) is None
                &&& is_generated(redirect.to@)
                &&& !old(store)@.contains_key(redirect.to@)
                &&& final(store)@ == old(store)@.insert(
                    redirect.to@,
                    created(request@, redirect.to@, now),
                )
            },
            Err(rendered) => {
                &&& final(store)@ == old(store)@
                &&& rendered.page is Home
                &&& match form {
                    None => has_message(rendered, Status::BadRequest, unreadable_form_text()),
                    Some(request) => match rejection(request@, now) {
                        Some(e) => has_message(
                            rendered,
                            Status::BadRequest,
                            reason_text(e.reason),
                        ),
                        None => {
                            &&& has_message(
                                rendered,
                                Status::InternalServerError,
                                server_error_text(),
                            )
                            &&& exhausted(old(store)@)
                        },
                    },
                }
            },
        },
{
    let request = match form {
        Some(request) => request,
        None => {
            return Err(
                with_message(
                    Status::BadRequest,
                    Page::Home,
                    "An error occurred, please try again".to_owned(),
                ),
            );
        },
    };
    match action::new_clip(request, store, now) {
        Ok(clip) => Ok(Redirect { to: clip.short_code }),
        Err(ServiceError::Invalid(_, message)) => Err(
            with_message(Status::BadRequest, Page::Home, message),
        ),
        Err(_) => Err(
            with_message(
                Status::InternalServerError,
                Page::Home,
                "A server error occurred. Please try again".to_owned(),
            ),
        ),
    }
}

/// Answers a request for the page of a clip at the time `now`, from a reader
/// who supplies no password.
pub fn get_clip(short_code: ShortCode, store: &ClipStore, views: &mut ViewCounter, now: i64) -> (answer:
    Result<Rendered, PageError>)
    ensures
        match lookup(store@, short_code@, None, now) {
            Lookup::Found(record) => {
                &&& answer matches Ok(rendered)
                &&& is_plain(rendered, Status::Success)
                &&& rendered.page matches Page::ViewClip(clip)
                &&& clip@ == record
                &&& final(views)@ == old(views)@.push((short_code@, 1u32))
            },
            Lookup::Denied => {
                &&& answer matches Ok(rendered)
                &&& is_plain(rendered, Status::Unauthorized)
                &&& rendered.page matches Page::PasswordRequired(code)
                &&& code@ == short_code@
                &&& final(views)@ == old(views)@
            },
            Lookup::NotFound => {
                &&& answer matches Err(PageError::NotFound(message))
                &&& message@ == not_found_text()
                &&& final(views)@ == old(views)@
            },
        },
{
    let request = GetClip::from(short_code.clone());
    match action::get_clip(request, store, views, now) {
        Ok(clip) => Ok(plain(Status::Success, Page::ViewClip(clip))),
        Err(e) => match e {
            ServiceError::PermissionError(_) => Ok(
                plain(Status::Unauthorized, Page::PasswordRequired(short_code)),
            ),
            ServiceError::NotFound => Err(PageError::NotFound("Clip not found".to_owned())),
            _ => Err(PageError::Internal("server error".to_owned())),
        },
    }
}

/// Answers a submitted password form at the time `now`. With the right
/// password the clip is shown and the password is kept in a cookie. A wrong
/// password, or a form without one, brings the form back with a message.
pub fn submit_clip_password(
    form: Option<Password>,
    short_code: ShortCode,
    store: &ClipStore,
    views: &mut ViewCounter,
    now: i64,
) -> (answer: Result<Rendered, PageError>)
    ensures
        match form {
            None => {
                &&& answer matches Ok(rendered)
                &&& has_message(rendered, Status::Success, password_required_text())
                &&& rendered.page matches Page::PasswordRequired(code)
                &&& code@ == short_code@
                &&& final(views)@ == old(views)@
            },
            Some(password) => match lookup(store@, short_code@, password@, now) {
                Lookup::Found(record) => {
                    &&& answer matches Ok(rendered)
                    &&& rendered.status == Status::Success
                    &&& rendered.errors@.len() == 0
                    &&& rendered.page matches Page::ViewClip(clip)
                    &&& clip@ == record
                    &&& rendered.cookie matches Some(cookie)
                    &&& cookie.name@ == PASSWORD_COOKIE@
                    &&& present(cookie.value@) == password@
                    &&& final(views)@ == old(views)@.push((short_code@, 1u32))
                },
                Lookup::Denied => {
                    &&& answer matches Ok(rendered)
                    &&& has_message(rendered, Status::Success, permission_hint())
                    &&& rendered.page matches Page::PasswordRequired(code)
                    &&& code@ == short_code@
                    &&& final(views)@ == old(views)@
                },
                Lookup::NotFound => {
                    &&& answer matches Err(PageError::NotFound(message))
                    &&& message@ == not_found_text()
                    &&& final(views)@ == old(views)@
                },
            },
        },
{
    match form {
        Some(password) => {
            let request = GetClip { short_code: short_code.clone(), password: password.clone() };
            match action::get_clip(request, store, views, now) {
                Ok(clip) => {
                    let value = match password.into_inner() {
                        Some(secret) => secret,
                        None => String::new(),
                    };
                    Ok(
                        Rendered {
                            status: Status::Success,
                            page: Page::ViewClip(clip),
                            errors: Vec::new(),
                            cookie: Some(Cookie { name: PASSWORD_COOKIE.to_owned(), value }),
                        },
                    )
                },
                Err(e) => match e {
                    ServiceError::PermissionError(hint) => Ok(
                        with_message(Status::Success, Page::PasswordRequired(short_code), hint),
                    ),
                    ServiceError::NotFound => Err(
                        PageError::NotFound("Clip not found".to_owned()),
                    ),
                    _ => Err(PageError::Internal("server error".to_owned())),
                },
            }
        },
        None => Ok(
            with_message(
                Status::Success,
                Page::PasswordRequired(short_code),
                "A password is required to view this clip".to_owned(),
            ),
        ),
    }
}

/// Answers a request for the bare text of a clip at the time `now`, from a
/// reader whose password, if any, comes by cookie.
pub fn get_raw_clip(
    cookie: Option<String>,
    short_code: ShortCode,
    store: &ClipStore,
    views: &mut ViewCounter,
    now: i64,
) -> (answer: Result<(Status, String), Status>)
    ensures
        match lookup(
            store@,
            short_code@,
            cookie_password(
                match cookie {
                    Some(value) => Some(value@),
                    None => None,
                },
            ),
            now,
        ) {
            Lookup::Found(record) => {
                &&& answer matches Ok((status, body))
                &&& status == Status::Success
                &&& body@ == record.content
                &&& final(views)@ == old(views)@.push((short_code@, 1u32))
            },
            Lookup::Denied => {
                &&& answer matches Ok((status, body))
                &&& status == Status::Unauthorized
                &&& body@ == permission_hint()
                &&& final(views)@ == old(views)@
            },
            Lookup::NotFound => {
                &&& answer == Err::<(Status, String), Status>(Status::NotFound)
                &&& final(views)@ == old(views)@
            },
        },
{
    let password = match cookie {
        Some(value) => match Password::new(value) {
            Ok(password) => password,
            Err(_) => Password::default(),
        },
        None => Password::default(),
    };
    let request = GetClip { short_code, password };
    match action::get_clip(request, store, views, now) {
        Ok(clip) => Ok((Status::Success, clip.content.into_inner())),
        Err(e) => match e {
            ServiceError::PermissionError(hint) => Ok((Status::Unauthorized, hint)),
            ServiceError::NotFound => Err(Status::NotFound),
            _ => Err(Status::InternalServerError),
        },
    }
}

} // verus!
