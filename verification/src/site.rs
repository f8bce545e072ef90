//! What the document around the page holds: the fixed values of the outer
//! document and of the application inside it.

use vstd::prelude::*;

verus! {

/// The fixed values of the outer document.
pub struct Document {
    /// The language of the document.
    pub lang: &'static str,
    /// The character set that the head declares.
    pub charset: &'static str,
    /// The viewport that the head declares.
    pub viewport: &'static str,
}

/// The fixed values of the application: what it puts into the head, and where
/// its one page is found.
pub struct Application {
    /// The id of the stylesheet link.
    pub stylesheet_id: &'static str,
    /// The address of the stylesheet.
    pub stylesheet_href: &'static str,
    /// The title of the document.
    pub title: &'static str,
    /// The path of the only route, which shows the home page.
    pub home_path: &'static str,
    /// The text shown for every other path.
    pub not_found: &'static str,
}

/// The outer document: English, UTF-8, and a viewport as wide as the device.
pub fn shell() -> (doc: Document)
    ensures
        doc.lang@ == "en"@,
        doc.charset@ == "utf-8"@,
        doc.viewport@ == "width=device-width, initial-scale=1"@,
{
    Document {
        lang: "en",
        charset: "utf-8",
        viewport: "width=device-width, initial-scale=1",
    }
}

/// The application: its stylesheet and title, the home page at the site root
/// (the empty path), and the text for a path that is not the root.
#[allow(non_snake_case)]
pub fn App() -> (app: Application)
    ensures
        app.stylesheet_id@ == "leptos"@,
        app.stylesheet_href@ == "/pkg/cargo-bon-bug.css"@,
        app.title@ == "Welcome to Leptos"@,
        app.home_path@ == ""@,
        app.not_found@ == "Page not found."@,
{
    Application {
        stylesheet_id: "leptos",
        stylesheet_href: "/pkg/cargo-bon-bug.css",
        title: "Welcome to Leptos",
        home_path: "",
        not_found: "Page not found.",
    }
}

} // verus!
