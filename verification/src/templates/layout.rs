//! The frame that every page shares: head, navigation and footer.

use vstd::prelude::*;
use vstd::string::StringExecFns;
use crate::text::str_eq;

verus! {

/// What stands before the name of the signed-in user.
pub const USER_OPEN: &'static str = r#"<span class="logged-in-indicator">🟢 "#;

/// What stands between the name of the user and the link to the
/// administration.
pub const USER_LINKS: &'static str = r#"</span>
            <a href="/dashboard">Dashboard</a>
            "#;

/// What closes the links of a signed-in user.
pub const USER_CLOSE: &'static str = r#"
            <form method="POST" action="/logout" style="display:inline;margin:0;">
                <button type="submit" class="btn-link">Logout</button>
            </form>"#;

/// The link to the administration.
pub const ADMIN_LINK: &'static str = r#"<a href="/admin">Admin</a>"#;

/// The links of a visitor without a session.
pub const LOGIN_LINKS: &'static str = r#"<a href="/login">Login</a>
           <a href="/signup">Sign Up</a>"#;

/// The page up to its title.
pub const PAGE_HEAD: &'static str = r#"<!DOCTYPE html>
<html lang="en">
<head>
    <meta charset="utf-8">
    <meta name="viewport" content="width=device-width, initial-scale=1">
    <title>"#;

/// The page between its title and the links of the user.
pub const PAGE_NAV: &'static str = r#" - Hyrule</title>
    <link rel="stylesheet" href="/static/css/main.css">
</head>
<body>
    <header class="header">
        <div class="container">
            <div class="header-content">
                <div class="logo">
                    <a href="/">Hyrule</a>
                </div>
                <nav class="nav">
                    <a href="/">Home</a>
                    <a href="/explore">Explore</a>
                    <a href="/docs">Docs</a>
                    "#;

/// The page between the links of the user and its body.
pub const PAGE_MAIN: &'static str = r#"
                </nav>
            </div>
        </div>
    </header>
    
    <main class="main">
        <div class="container">
            "#;

/// The page after its body.
pub const PAGE_FOOT: &'static str = r#"
        </div>
    </main>
    
    <footer class="footer">
        <div class="container">
            <p>Hyrule - Distributed Git Hosting</p>
            <p>
                <a href="/about">About</a> · 
                <a href="/docs">Documentation</a> · 
                <a href="https://github.com/hyrule">GitHub</a>
            </p>
        </div>
    </footer>
</body>
</html>"#;

/// The users who see the link to the administration.
pub open spec fn sees_admin_link(user: Seq<char>) -> bool {
    user == "admin"@ || user == "Link"@
}

/// The links in the header: those of the signed-in user, or those to log
/// in and to sign up.
pub open spec fn auth_links(username: Option<Seq<char>>) -> Seq<char> {
    match username {
        Some(user) => USER_OPEN@ + user + USER_LINKS@ + (if sees_admin_link(user) {
            ADMIN_LINK@
        } else {
            Seq::empty()
        }) + USER_CLOSE@,
        None => LOGIN_LINKS@,
    }
}

/// The whole page: the frame around `title`, the links of the user and
/// `content`. Title, name and body are put in as they are.
pub open spec fn page(title: Seq<char>, content: Seq<char>, username: Option<Seq<char>>) -> Seq<
    char,
> {
    PAGE_HEAD@ + title + PAGE_NAV@ + auth_links(username) + PAGE_MAIN@ + content + PAGE_FOOT@
}

/// The page for a visitor without a session.
pub fn render_page(title: &str, content: &str) -> (html: String)
    ensures
        html@ == page(title@, content@, None),
{
    render_page_with_user(title, content, None)
}

/// The page for the signed-in user `username`, or for a visitor where
/// there is none.
pub fn render_page_with_user(title: &str, content: &str, username: Option<&str>) -> (html: String)
    ensures
        html@ == page(
            title@,
            content@,
            match username {
                Some(user) => Some(user@),
                None => None,
            },
        ),
{
    let mut links = String::new();
    match username {
        Some(user) => {
            links.append(USER_OPEN);
            links.append(user);
            links.append(USER_LINKS);
            if str_eq(user, "admin") || str_eq(user, "Link") {
                links.append(ADMIN_LINK);
            }
            links.append(USER_CLOSE);
            assert(links@ == auth_links(Some(user@)));
        },
        None => {
            links.append(LOGIN_LINKS);
            assert(links@ == auth_links(None));
        },
    }
    let mut html = String::from_str(PAGE_HEAD);
    html.append(title);
    html.append(PAGE_NAV);
    html.append(links.as_str());
    html.append(PAGE_MAIN);
    html.append(content);
    html.append(PAGE_FOOT);
    html
}

/// What stands before the target of a link of the navigation.
pub const NAV_OPEN: &'static str = r#"<a href=""#;

/// What stands between the target and the class.
pub const NAV_CLASS: &'static str = r#"" class=""#;

/// What stands between the class and the text.
pub const NAV_TEXT: &'static str = r#"">"#;

/// What closes the link.
pub const NAV_CLOSE: &'static str = r#"</a>"#;

/// A link of the navigation.
pub open spec fn nav_link_html(href: Seq<char>, text: Seq<char>, active: bool) -> Seq<char> {
    NAV_OPEN@ + href + NAV_CLASS@ + (if active {
        "nav-link active"@
    } else {
        "nav-link"@
    }) + NAV_TEXT@ + text + NAV_CLOSE@
}

/// A link of the navigation to `href`, marked where it leads to the page
/// that is shown.
pub fn nav_link(href: &str, text: &str, active: bool) -> (html: String)
    ensures
        html@ == nav_link_html(href@, text@, active),
{
    let class = if active {
        "nav-link active"
    } else {
        "nav-link"
    };
    let mut html = String::from_str(NAV_OPEN);
    html.append(href);
    html.append(NAV_CLASS);
    html.append(class);
    html.append(NAV_TEXT);
    html.append(text);
    html.append(NAV_CLOSE);
    html
}

} // verus!
