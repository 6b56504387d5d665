//! The settings of one run.

use vstd::prelude::*;

verus! {

/// The settings of one run: the mail account, where the recipients and the
/// template are kept, and the address under which a recipient unsubscribes.
#[derive(Clone, Debug, PartialEq, Eq)]
pub struct AppConfig {
    pub email_domain: String,
    pub email_user: String,
    pub email_pass: String,
    pub database_path: String,
    pub content_html_path: String,
    pub unsubscribe_url: String,
}

/// An [`AppConfig`] as contracts see it.
pub struct AppConfigView {
    pub email_domain: Seq<char>,
    pub email_user: Seq<char>,
    pub email_pass: Seq<char>,
    pub database_path: Seq<char>,
    pub content_html_path: Seq<char>,
    pub unsubscribe_url: Seq<char>,
}

impl View for AppConfig {
    type V = AppConfigView;

    open spec fn view(&self) -> AppConfigView {
        AppConfigView {
            email_domain: self.email_domain@,
            email_user: self.email_user@,
            email_pass: self.email_pass@,
            database_path: self.database_path@,
            content_html_path: self.content_html_path@,
            unsubscribe_url: self.unsubscribe_url@,
        }
    }
}

impl AppConfigView {
    /// The settings of a run that was given none: a local mail server
    /// without credentials, and files in the working directory.
    pub open spec fn default() -> AppConfigView {
        AppConfigView {
            email_domain: "localhost"@,
            email_user: ""@,
            email_pass: ""@,
            database_path: "./newsletter.sqlite"@,
            content_html_path: "./message.html"@,
            unsubscribe_url: "localhost/unsubscribe/?email="@,
        }
    }
}

impl Default for AppConfig {
    /// The settings of a run that was given none.
    fn default() -> (cfg: AppConfig)
        ensures
            cfg@ == AppConfigView::default(),
    {
        AppConfig {
            email_domain: String::from_str("localhost"),
            email_user: String::from_str(""),
            email_pass: String::from_str(""),
            database_path: String::from_str("./newsletter.sqlite"),
            content_html_path: String::from_str("./message.html"),
            unsubscribe_url: String::from_str("localhost/unsubscribe/?email="),
        }
    }
}

} // verus!
