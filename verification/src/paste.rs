//! What a read hands to the presentation layer.

use crate::entry::Password;
use crate::highlight::Html;
use crate::key::{Key, KeyView};
use vstd::prelude::*;
use vstd::string::*;
use vstd::utf8::encode_utf8;

verus! {

/// The colour scheme a reader prefers. The read path only passes it on.
#[derive(Clone, Copy, Debug, PartialEq, Eq, Structural)]
pub enum Theme {
    Dark,
    Light,
}

/// Settings of the site that every page shows. The read path only passes
/// them on.
#[derive(Debug, PartialEq, Eq)]
pub struct Page {
    /// The name of the site.
    pub title: String,
    /// The address under which the site is reached.
    pub base_url: String,
}

/// The site's settings as a mathematical value.
pub struct PageView {
    pub title: Seq<char>,
    pub base_url: Seq<char>,
}

impl View for Page {
    type V = PageView;

    open spec fn view(&self) -> PageView {
        PageView { title: self.title@, base_url: self.base_url@ }
    }
}

impl Clone for Page {
    fn clone(&self) -> (page: Page)
        ensures
            page@ == self@,
    {
        Page { title: self.title.clone(), base_url: self.base_url.clone() }
    }
}

/// The form a reader submits to unlock a protected paste.
pub struct PasswordForm {
    /// The password as typed.
    pub password: String,
}

impl PasswordForm {
    /// The typed password as the bytes of its UTF-8 encoding.
    pub fn attempt(&self) -> (p: Password)
        ensures
            p@ == encode_utf8(self.password@),
    {
        Password::new(self.password.as_str().as_bytes_vec())
    }
}

/// Paste view showing the formatted paste.
#[derive(Debug, PartialEq, Eq)]
pub struct Paste {
    pub page: Page,
    pub key: Key,
    pub theme: Option<Theme>,
    /// If the reader may delete the paste.
    pub can_delete: bool,
    /// If the paste is still in the database and can be fetched with another
    /// request.
    pub is_available: bool,
    /// The rendered markup.
    pub html: String,
    /// The paste's title; empty where it has none.
    pub title: String,
}

/// The paste view as a mathematical value.
pub struct PasteView {
    pub page: PageView,
    pub key: KeyView,
    pub theme: Option<Theme>,
    pub can_delete: bool,
    pub is_available: bool,
    pub html: Seq<char>,
    pub title: Seq<char>,
}

impl View for Paste {
    type V = PasteView;

    open spec fn view(&self) -> PasteView {
        PasteView {
            page: self.page@,
            key: self.key@,
            theme: self.theme,
            can_delete: self.can_delete,
            is_available: self.is_available,
            html: self.html@,
            title: self.title@,
        }
    }
}

impl Paste {
    /// Construct new paste view from cache `key` and paste `html`.
    pub fn new(
        key: Key,
        html: Html,
        theme: Option<Theme>,
        can_delete: bool,
        is_available: bool,
        title: String,
        page: Page,
    ) -> (paste: Self)
        ensures
            paste@ == (PasteView {
                page: page@,
                key: key@,
                theme,
                can_delete,
                is_available,
                html: html@,
                title: title@,
            }),
    {
        let html = html.into_inner();

        Self { page, key, theme, can_delete, is_available, html, title }
    }
}

/// The prompt shown when a paste asks for a password.
#[derive(Debug, PartialEq, Eq)]
pub struct PasswordInput {
    pub page: Page,
    pub theme: Option<Theme>,
    /// The key that was asked for, under which the prompt asks again.
    pub key: Key,
}

/// The prompt as a mathematical value.
pub struct PasswordInputView {
    pub page: PageView,
    pub theme: Option<Theme>,
    pub key: KeyView,
}

impl View for PasswordInput {
    type V = PasswordInputView;

    open spec fn view(&self) -> PasswordInputView {
        PasswordInputView { page: self.page@, theme: self.theme, key: self.key@ }
    }
}

/// What a read that did not fail shows.
#[derive(Debug, PartialEq, Eq)]
pub enum Response {
    Paste(Paste),
    PasswordInput(PasswordInput),
}

/// What is shown, as a mathematical value.
pub enum ResponseView {
    Paste(PasteView),
    PasswordInput(PasswordInputView),
}

impl View for Response {
    type V = ResponseView;

    open spec fn view(&self) -> ResponseView {
        match self {
            Response::Paste(paste) => ResponseView::Paste(paste@),
            Response::PasswordInput(prompt) => ResponseView::PasswordInput(prompt@),
        }
    }
}

} // verus!
