//! The frame around every page: what it tells about itself to those who link
//! to it, its navigation and its theme.

use crate::lists::views;
use crate::markup::{escape_text, escaped};
use crate::model::User;
use crate::text::{drop_trailing, has_prefix, same_text, starts_with_text, without_trailing};
use vstd::prelude::*;
use vstd::string::StringExecFns;

verus! {

/// Resolves the two theme axes before first paint so there is no flash of the
/// wrong theme: the account's setting wins over what the browser remembers.
pub const THEME_BOOTSTRAP_JS: &'static str = r#"(function(){var d=document.documentElement;function p(a,f){return d.getAttribute("data-bs-"+a)||localStorage.getItem("bs-"+a)||f}var site=p("site","system");var th=p("theater","dark");var sys=matchMedia("(prefers-color-scheme: dark)").matches?"dark":"light";var s=site==="system"?sys:site;d.setAttribute("data-app-theme",d.hasAttribute("data-theater-page")?(th==="match"?s:th):s);})();"#;

/// What a page is described as when it does not describe itself.
pub const DEFAULT_DESCRIPTION: &'static str =
    "A competitive arena where your code battles other Battlesnakes.";

/// Where the fonts come from.
pub const GOOGLE_FONTS_HREF: &'static str =
    "https://fonts.googleapis.com/css2?family=Bricolage+Grotesque:opsz,wght@12..96,300;12..96,500;12..96,600;12..96,700;12..96,800&family=Instrument+Sans:ital,wght@0,400;0,500;0,600;1,400&family=IBM+Plex+Mono:wght@400;500;600&display=swap";

/// A page, with its content as it is shown.
#[derive(Debug)]
pub struct Page {
    pub title: String,
    pub content: String,
    pub flash: Option<String>,
    pub flash_type: Option<String>,
    pub user: Option<User>,
    /// The path that was asked for, which tells the active link.
    pub current_path: String,
    pub base_url: String,
    /// Pages that show a game take their theme from the theater axis instead
    /// of the site axis.
    pub theater: bool,
    /// What the page is described as where it is linked.
    pub description: Option<String>,
}

/// Something that a page tells about itself.
#[derive(Debug)]
pub struct Meta {
    /// Whether the key is a property rather than a name.
    pub property: bool,
    pub key: String,
    pub content: String,
}

/// Something that a page tells about itself, with its texts as characters.
pub struct MetaView {
    pub property: bool,
    pub key: Seq<char>,
    pub content: Seq<char>,
}

impl View for Meta {
    type V = MetaView;

    open spec fn view(&self) -> MetaView {
        MetaView { property: self.property, key: self.key@, content: self.content@ }
    }
}

/// The tag of something that a page tells about itself.
pub open spec fn meta_tag(meta: MetaView) -> Seq<char> {
    (if meta.property {
        "<meta property=\""@
    } else {
        "<meta name=\""@
    }) + escaped(meta.key) + "\" content=\""@ + escaped(meta.content) + "\">"@
}

/// The tags of all that a page tells about itself.
pub open spec fn meta_tags(metas: Seq<MetaView>) -> Seq<char>
    decreases metas.len(),
{
    if metas.len() == 0 {
        Seq::empty()
    } else {
        meta_tags(metas.drop_last()) + meta_tag(metas.last())
    }
}

impl Meta {
    /// The tag in the head of the page.
    pub fn tag(&self) -> (r: String)
        ensures
            r@ == meta_tag(self@),
    {
        let opening: &str = if self.property {
            "<meta property=\""
        } else {
            "<meta name=\""
        };
        opening.to_owned().concat(escape_text(self.key.as_str()).as_str()).concat(
            "\" content=\"",
        ).concat(escape_text(self.content.as_str()).as_str()).concat("\">")
    }
}

fn named(key: &str, content: &str) -> (r: Meta)
    ensures
        r@ == (MetaView { property: false, key: key@, content: content@ }),
{
    Meta { property: false, key: key.to_owned(), content: content.to_owned() }
}

fn property(key: &str, content: &str) -> (r: Meta)
    ensures
        r@ == (MetaView { property: true, key: key@, content: content@ }),
{
    Meta { property: true, key: key.to_owned(), content: content.to_owned() }
}

/// A link of the navigation.
#[derive(Debug)]
pub struct NavLink {
    pub label: String,
    pub href: String,
    pub active: bool,
}

/// A link of the navigation, with its texts as characters.
pub struct NavLinkView {
    pub label: Seq<char>,
    pub href: Seq<char>,
    pub active: bool,
}

impl View for NavLink {
    type V = NavLinkView;

    open spec fn view(&self) -> NavLinkView {
        NavLinkView { label: self.label@, href: self.href@, active: self.active }
    }
}

/// The tag of a link, which is marked where it is active.
pub open spec fn link_tag(link: NavLinkView) -> Seq<char> {
    (if link.active {
        "<a class=\"active\" href=\""@
    } else {
        "<a href=\""@
    }) + escaped(link.href) + "\">"@ + escaped(link.label) + "</a>"@
}

/// The tags of a list of links.
pub open spec fn link_tags(links: Seq<NavLinkView>) -> Seq<char>
    decreases links.len(),
{
    if links.len() == 0 {
        Seq::empty()
    } else {
        link_tags(links.drop_last()) + link_tag(links.last())
    }
}

impl NavLink {
    /// The tag in the navigation.
    pub fn tag(&self) -> (r: String)
        ensures
            r@ == link_tag(self@),
    {
        let opening: &str = if self.active {
            "<a class=\"active\" href=\""
        } else {
            "<a href=\""
        };
        opening.to_owned().concat(escape_text(self.href.as_str()).as_str()).concat("\">").concat(
            escape_text(self.label.as_str()).as_str(),
        ).concat("</a>")
    }
}

/// The row of links on wide screens.
pub open spec fn link_row_of(path: Seq<char>, signed_in: bool) -> Seq<char> {
    "<div class=\"links\">"@ + link_tags(links_at(path, signed_in)) + "</div>"@
}

/// The sheet of links behind the menu of small screens, where somebody who is
/// not signed in can also do so.
pub open spec fn link_sheet_of(path: Seq<char>, signed_in: bool) -> Seq<char> {
    "<div class=\"sheet\">"@ + link_tags(links_at(path, signed_in)) + (if signed_in {
        Seq::empty()
    } else {
        "<a class=\"cta\" href=\"/auth/github\">Sign in with GitHub</a>"@
    }) + "</div>"@
}

/// The links of the site: label, target, and whether only somebody who is
/// signed in has it. "Snakes" is the directory of every public snake and
/// "Players" that of the people behind them; "My Snakes" manages one's own.
pub open spec fn site_links() -> Seq<(Seq<char>, Seq<char>, bool)> {
    seq![
        ("Leaderboards"@, "/leaderboards"@, false),
        ("Tournaments"@, "/tournaments"@, false),
        ("Snakes"@, "/snakes"@, false),
        ("Players"@, "/players"@, false),
        ("My Snakes"@, "/battlesnakes"@, true),
        ("Customizations"@, "/customizations"@, false),
    ]
}

/// Whether a path is at or below a target.
pub open spec fn below(path: Seq<char>, href: Seq<char>) -> bool {
    path == href || has_prefix(path, href + "/"@)
}

/// The links of the navigation of a page at the given path: those of the
/// site that the viewer has, and the documentation.
pub open spec fn links_at(path: Seq<char>, signed_in: bool) -> Seq<NavLinkView> {
    site_links().filter(|l: (Seq<char>, Seq<char>, bool)| !l.2 || signed_in).map_values(
        |l: (Seq<char>, Seq<char>, bool)|
            NavLinkView { label: l.0, href: l.1, active: below(path, l.1) },
    ).push(
        NavLinkView { label: "Docs"@, href: "https://docs.battlesnake.com"@, active: false },
    )
}

/// What a page is described as.
pub open spec fn description_of(page: Page) -> Seq<char> {
    match page.description {
        Some(description) => description@,
        None => DEFAULT_DESCRIPTION@,
    }
}

/// A path of the site as a full address, with one slash between the two.
pub open spec fn absolute(base_url: Seq<char>, path: Seq<char>) -> Seq<char> {
    without_trailing(base_url, '/') + path
}

/// The axis that a user's theme is taken from.
pub open spec fn theme_axis(user: User, theater: bool) -> Seq<char> {
    if theater && user.theater_theme@ != "match"@ {
        user.theater_theme@
    } else {
        user.site_theme@
    }
}

/// The theme of a page, as far as it is known without asking the browser.
pub open spec fn theme_of(page: Page) -> Option<Seq<char>> {
    match page.user {
        Some(user) => {
            let axis = theme_axis(user, page.theater);
            if axis == "light"@ || axis == "dark"@ {
                Some(axis)
            } else {
                None
            }
        },
        None => None,
    }
}

/// What a page tells about itself, given where its image is.
pub open spec fn metas_of(page: Page, image_path: Seq<char>) -> Seq<MetaView> {
    let description = description_of(page);
    let image = absolute(page.base_url@, image_path);
    seq![
        MetaView { property: false, key: "description"@, content: description },
        MetaView { property: true, key: "og:site_name"@, content: "Battlesnake Arena"@ },
        MetaView { property: true, key: "og:title"@, content: page.title@ },
        MetaView { property: true, key: "og:type"@, content: "website"@ },
        MetaView { property: true, key: "og:description"@, content: description },
        MetaView {
            property: true,
            key: "og:url"@,
            content: absolute(page.base_url@, page.current_path@),
        },
        MetaView { property: true, key: "og:image"@, content: image },
        MetaView { property: true, key: "og:image:type"@, content: "image/png"@ },
        MetaView { property: true, key: "og:image:width"@, content: "1200"@ },
        MetaView { property: true, key: "og:image:height"@, content: "630"@ },
        MetaView { property: true, key: "og:image:alt"@, content: "Battlesnake Arena"@ },
        MetaView { property: false, key: "twitter:card"@, content: "summary_large_image"@ },
        MetaView { property: false, key: "twitter:image"@, content: image },
        MetaView { property: false, key: "twitter:image:alt"@, content: "Battlesnake Arena"@ },
    ]
}

impl Page {
    /// A page without a user at the root of the site.
    pub fn new(title: String, content: String, flash: Option<String>, base_url: &str) -> (r: Page)
        ensures
            r.title == title,
            r.content == content,
            r.flash == flash,
            r.flash_type is None,
            r.user is None,
            r.current_path@ == "/"@,
            r.base_url@ == base_url@,
            !r.theater,
            r.description is None,
    {
        Page {
            title,
            content,
            flash,
            flash_type: None,
            user: None,
            current_path: "/".to_owned(),
            base_url: base_url.to_owned(),
            theater: false,
            description: None,
        }
    }

    /// The page with its own description.
    pub fn with_description(self, description: String) -> (r: Page)
        ensures
            r == (Page { description: Some(description), ..self }),
    {
        Page { description: Some(description), ..self }
    }

    /// What the page is described as.
    pub fn description(&self) -> (r: &str)
        ensures
            r@ == description_of(*self),
    {
        match &self.description {
            Some(description) => description.as_str(),
            None => DEFAULT_DESCRIPTION,
        }
    }

    /// The address of the page.
    pub fn canonical_url(&self) -> (r: String)
        ensures
            r@ == absolute(self.base_url@, self.current_path@),
    {
        drop_trailing(self.base_url.as_str(), '/').concat(self.current_path.as_str())
    }

    /// The address of the image that stands for the page, given its path.
    pub fn social_image_url(&self, image_path: &str) -> (r: String)
        ensures
            r@ == absolute(self.base_url@, image_path@),
    {
        drop_trailing(self.base_url.as_str(), '/').concat(image_path)
    }

    /// The theme to start with. `None` means that it depends on the browser.
    pub fn initial_theme(&self) -> (r: Option<&'static str>)
        ensures
            match r {
                Some(theme) => theme_of(*self) == Some(theme@),
                None => theme_of(*self) is None,
            },
    {
        match &self.user {
            Some(user) => {
                let axis: &str = if self.theater && !same_text(
                    user.theater_theme.as_str(),
                    "match",
                ) {
                    user.theater_theme.as_str()
                } else {
                    user.site_theme.as_str()
                };
                if same_text(axis, "light") {
                    Some("light")
                } else if same_text(axis, "dark") {
                    Some("dark")
                } else {
                    None
                }
            },
            None => None,
        }
    }

    /// Whether a link leads to the page or to something above it.
    pub fn is_active(&self, href: &str) -> (r: bool)
        ensures
            r == below(self.current_path@, href@),
    {
        same_text(self.current_path.as_str(), href) || starts_with_text(
            self.current_path.as_str(),
            href.to_owned().concat("/").as_str(),
        )
    }

    fn nav_link(&self, label: &str, href: &str) -> (r: NavLink)
        ensures
            r@ == (NavLinkView {
                label: label@,
                href: href@,
                active: below(self.current_path@, href@),
            }),
    {
        NavLink { label: label.to_owned(), href: href.to_owned(), active: self.is_active(href) }
    }

    /// The links of the navigation.
    pub fn nav_links(&self) -> (r: Vec<NavLink>)
        ensures
            views(r@) == links_at(self.current_path@, self.user is Some),
    {
        let mut links: Vec<NavLink> = vec![
            self.nav_link("Leaderboards", "/leaderboards"),
            self.nav_link("Tournaments", "/tournaments"),
            self.nav_link("Snakes", "/snakes"),
            self.nav_link("Players", "/players"),
        ];
        if self.user.is_some() {
            links.push(self.nav_link("My Snakes", "/battlesnakes"));
        }
        links.push(self.nav_link("Customizations", "/customizations"));
        links.push(
            NavLink {
                label: "Docs".to_owned(),
                href: "https://docs.battlesnake.com".to_owned(),
                active: false,
            },
        );
        proof {
            links_listed(self.current_path@, self.user is Some);
            assert(views(links@) =~= links_at(self.current_path@, self.user is Some));
        }
        links
    }

    fn nav_tags(&self) -> (r: String)
        ensures
            r@ == link_tags(links_at(self.current_path@, self.user is Some)),
    {
        let links: Vec<NavLink> = self.nav_links();
        let mut html: String = String::new();
        let mut i: usize = 0;
        while i < links.len()
            invariant
                i <= links.len(),
                html@ == link_tags(views(links@).take(i as int)),
            decreases links.len() - i,
        {
            html.append(links[i].tag().as_str());
            proof {
                let shown = views(links@).take(i + 1);
                assert(shown.drop_last() =~= views(links@).take(i as int));
                assert(shown.last() == links@[i as int]@);
            }
            i = i + 1;
        }
        assert(views(links@).take(i as int) =~= views(links@));
        html
    }

    /// The row of links on wide screens.
    pub fn link_row(&self) -> (r: String)
        ensures
            r@ == link_row_of(self.current_path@, self.user is Some),
    {
        "<div class=\"links\">".to_owned().concat(self.nav_tags().as_str()).concat("</div>")
    }

    /// The sheet of links behind the menu of small screens.
    pub fn link_sheet(&self) -> (r: String)
        ensures
            r@ == link_sheet_of(self.current_path@, self.user is Some),
    {
        let sign_in: &str = if self.user.is_some() {
            ""
        } else {
            "<a class=\"cta\" href=\"/auth/github\">Sign in with GitHub</a>"
        };
        proof {
            reveal_strlit("");
            assert(""@ =~= Seq::<char>::empty());
        }
        "<div class=\"sheet\">".to_owned().concat(self.nav_tags().as_str()).concat(sign_in).concat(
            "</div>",
        )
    }

    /// What the appearance settings say about where they are kept.
    pub fn appearance_hint(&self) -> (r: &'static str)
        ensures
            r@ == (if self.user is Some {
                "Saved to your account."@
            } else {
                "Saved in this browser. Sign in to sync across devices."@
            }),
    {
        if self.user.is_some() {
            "Saved to your account."
        } else {
            "Saved in this browser. Sign in to sync across devices."
        }
    }

    /// The name that the viewer is greeted with, when signed in: their own,
    /// or else their login.
    pub fn nav_user_name(&self) -> (r: Option<&str>)
        ensures
            match (r, self.user) {
                (Some(name), Some(user)) => name@ == (match user.display_name {
                    Some(display_name) => display_name@,
                    None => user.github_login@,
                }),
                (None, None) => true,
                _ => false,
            },
    {
        match &self.user {
            Some(user) => match &user.display_name {
                Some(display_name) => Some(display_name.as_str()),
                None => Some(user.github_login.as_str()),
            },
            None => None,
        }
    }

    /// The title that the browser shows.
    pub fn head_title(&self) -> (r: String)
        ensures
            r@ == self.title@ + " — Battlesnake"@,
    {
        self.title.clone().concat(" — Battlesnake")
    }

    /// What the page tells about itself, given where its image is.
    pub fn metas(&self, image_path: &str) -> (r: Vec<Meta>)
        ensures
            views(r@) == metas_of(*self, image_path@),
    {
        let url: String = self.canonical_url();
        let image: String = self.social_image_url(image_path);
        let metas: Vec<Meta> = vec![
            named("description", self.description()),
            property("og:site_name", "Battlesnake Arena"),
            property("og:title", self.title.as_str()),
            property("og:type", "website"),
            property("og:description", self.description()),
            property("og:url", url.as_str()),
            property("og:image", image.as_str()),
            property("og:image:type", "image/png"),
            property("og:image:width", "1200"),
            property("og:image:height", "630"),
            property("og:image:alt", "Battlesnake Arena"),
            named("twitter:card", "summary_large_image"),
            named("twitter:image", image.as_str()),
            named("twitter:image:alt", "Battlesnake Arena"),
        ];
        assert(views(metas@) =~= metas_of(*self, image_path@));
        metas
    }

    /// The tags of what the page tells about itself, given where its image is.
    pub fn head_tags(&self, image_path: &str) -> (r: String)
        ensures
            r@ == meta_tags(metas_of(*self, image_path@)),
    {
        let metas: Vec<Meta> = self.metas(image_path);
        let mut html: String = String::new();
        let mut i: usize = 0;
        while i < metas.len()
            invariant
                i <= metas.len(),
                html@ == meta_tags(views(metas@).take(i as int)),
            decreases metas.len() - i,
        {
            html.append(metas[i].tag().as_str());
            proof {
                let told = views(metas@).take(i + 1);
                assert(told.drop_last() =~= views(metas@).take(i as int));
                assert(told.last() == metas@[i as int]@);
            }
            i = i + 1;
        }
        assert(views(metas@).take(i as int) =~= views(metas@));
        html
    }
}

// Laws.

proof fn links_listed(path: Seq<char>, signed_in: bool)
    ensures
        ({
            let link = |i: int|
                NavLinkView {
                    label: site_links()[i].0,
                    href: site_links()[i].1,
                    active: below(path, site_links()[i].1),
                };
            let docs = NavLinkView {
                label: "Docs"@,
                href: "https://docs.battlesnake.com"@,
                active: false,
            };
            links_at(path, signed_in) == if signed_in {
                seq![link(0), link(1), link(2), link(3), link(4), link(5), docs]
            } else {
                seq![link(0), link(1), link(2), link(3), link(5), docs]
            }
        }),
{
    let had = |l: (Seq<char>, Seq<char>, bool)| !l.2 || signed_in;
    let all = site_links();
    reveal_with_fuel(Seq::filter, 7);
    assert(all.drop_last() =~= all.take(5));
    assert(all.take(5).drop_last() =~= all.take(4));
    assert(all.take(4).drop_last() =~= all.take(3));
    assert(all.take(3).drop_last() =~= all.take(2));
    assert(all.take(2).drop_last() =~= all.take(1));
    assert(all.take(1).drop_last() =~= all.take(0));
    assert(all.take(0) =~= Seq::empty());
    if signed_in {
        assert(all.filter(had) =~= all);
    } else {
        assert(all.filter(had) =~= all.take(4).push(all[5]));
    }
    let link = |i: int|
        NavLinkView {
            label: site_links()[i].0,
            href: site_links()[i].1,
            active: below(path, site_links()[i].1),
        };
    let docs = NavLinkView {
        label: "Docs"@,
        href: "https://docs.battlesnake.com"@,
        active: false,
    };
    assert(links_at(path, signed_in) =~= if signed_in {
        seq![link(0), link(1), link(2), link(3), link(4), link(5), docs]
    } else {
        seq![link(0), link(1), link(2), link(3), link(5), docs]
    });
}

/// The directory of players is in everybody's navigation, active at and below
/// its own path, while one's own snakes are only there for somebody who is
/// signed in.
pub proof fn the_navigation_depends_on_the_viewer(path: Seq<char>, signed_in: bool)
    ensures
        links_at(path, signed_in)[3] == (NavLinkView {
            label: "Players"@,
            href: "/players"@,
            active: below(path, "/players"@),
        }),
        !signed_in ==> forall|i: int|
            0 <= i < links_at(path, signed_in).len() ==> (#[trigger] links_at(
                path,
                signed_in,
            )[i]).href != "/battlesnakes"@,
        signed_in ==> links_at(path, signed_in)[4].href == "/battlesnakes"@,
{
    links_listed(path, signed_in);
    reveal_strlit("/leaderboards");
    reveal_strlit("/tournaments");
    reveal_strlit("/snakes");
    reveal_strlit("/players");
    reveal_strlit("/battlesnakes");
    reveal_strlit("/customizations");
    reveal_strlit("https://docs.battlesnake.com");
    assert("/leaderboards"@[1] == 'l' && "/battlesnakes"@[1] == 'b');
}

proof fn without_trailing_ends(s: Seq<char>, c: char)
    ensures
        without_trailing(s, c).len() > 0 ==> without_trailing(s, c).last() != c,
        without_trailing(s, c).len() <= s.len(),
    decreases s.len(),
{
    if s.len() > 0 && s.last() == c {
        without_trailing_ends(s.drop_last(), c);
    }
}

/// However many slashes a base address ends in, exactly one stands between it
/// and a path that begins with one slash.
pub proof fn addresses_have_no_double_slash(base_url: Seq<char>, path: Seq<char>)
    requires
        path.len() > 0,
        path[0] == '/',
    ensures
        ({
            let head = without_trailing(base_url, '/');
            let address = absolute(base_url, path);
            &&& address[head.len() as int] == '/'
            &&& head.len() > 0 ==> address[head.len() - 1] != '/'
            &&& absolute(base_url.push('/'), path) == address
        }),
{
    without_trailing_ends(base_url, '/');
    assert(base_url.push('/').drop_last() =~= base_url);
}

/// A page with its own description is described by it, and everything else
/// that it tells about itself stays as it was.
pub proof fn a_description_changes_nothing_else(page: Page, description: String, image: Seq<char>)
    ensures
        ({
            let described = Page { description: Some(description), ..page };
            let before = metas_of(page, image);
            let after = metas_of(described, image);
            &&& description_of(described) == description@
            &&& after.len() == before.len()
            &&& forall|i: int|
                0 <= i < after.len() ==> {
                    &&& (#[trigger] after[i]).key == before[i].key
                    &&& after[i].property == before[i].property
                    &&& after[i].content == if i == 0 || i == 4 {
                        description@
                    } else {
                        before[i].content
                    }
                }
        }),
{
}

/// At most one link of the site is active, and none is unless the path is at
/// or below it.
pub proof fn one_link_is_active(path: Seq<char>, i: int, j: int)
    requires
        0 <= i < j < site_links().len(),
    ensures
        !(below(path, site_links()[i].1) && below(path, site_links()[j].1)),
{
    reveal_strlit("/leaderboards");
    reveal_strlit("/tournaments");
    reveal_strlit("/snakes");
    reveal_strlit("/players");
    reveal_strlit("/battlesnakes");
    reveal_strlit("/customizations");
    reveal_strlit("/");
    let a = site_links()[i].1;
    let b = site_links()[j].1;
    assert(a[1] != b[1]);
    if below(path, a) {
        assert(path != a ==> path.take((a + "/"@).len() as int)[1] == (a + "/"@)[1]);
        assert(path[1] == a[1]);
    }
    if below(path, b) {
        assert(path != b ==> path.take((b + "/"@).len() as int)[1] == (b + "/"@)[1]);
        assert(path[1] == b[1]);
    }
}

/// A link is active exactly on its own page and on those below it.
pub proof fn links_are_active_at_and_below_their_page(
    href: Seq<char>,
    rest: Seq<char>,
    path: Seq<char>,
)
    ensures
        below(href, href),
        below(href + "/"@ + rest, href),
        below(path, href) && path != href ==> exists|tail: Seq<char>|
            path == #[trigger] (href + "/"@ + tail),
        !(path.len() >= href.len() && path.take(href.len() as int) == href) ==> !below(path, href),
{
    reveal_strlit("/");
    let prefix = href + "/"@;
    assert((prefix + rest).take(prefix.len() as int) =~= prefix);
    if below(path, href) && path != href {
        let tail = path.skip(prefix.len() as int);
        assert(path =~= prefix + tail);
        assert(path.take(href.len() as int) =~= path.take(prefix.len() as int).take(
            href.len() as int,
        ));
        assert(prefix.take(href.len() as int) =~= href);
    }
    if path == href {
        assert(path.take(href.len() as int) =~= href);
    }
}

/// The theme of a page is the user's own: that of the site, or on pages with a
/// game that of the theater unless it matches the site. Only light and dark
/// are known without the browser, and nobody's theme is known who is not
/// signed in.
pub proof fn themes_are_the_users_own(page: Page)
    ensures
        page.user is None ==> theme_of(page) is None,
        page.user matches Some(user) ==> {
            let axis = if page.theater && user.theater_theme@ != "match"@ {
                user.theater_theme@
            } else {
                user.site_theme@
            };
            &&& axis == "light"@ ==> theme_of(page) == Some("light"@)
            &&& axis == "dark"@ ==> theme_of(page) == Some("dark"@)
            &&& axis != "light"@ && axis != "dark"@ ==> theme_of(page) is None
        },
{
}

/// What a page tells about itself is its own: its title, its description, its
/// address and its image, each under its key.
pub proof fn pages_tell_about_themselves(page: Page, image: Seq<char>)
    ensures
        ({
            let told = metas_of(page, image);
            let described = if page.description is Some {
                page.description->0@
            } else {
                DEFAULT_DESCRIPTION@
            };
            let base = without_trailing(page.base_url@, '/');
            &&& told.len() == 14
            &&& told[0] == (MetaView { property: false, key: "description"@, content: described })
            &&& told[2] == (MetaView { property: true, key: "og:title"@, content: page.title@ })
            &&& told[4] == (MetaView {
                property: true,
                key: "og:description"@,
                content: described,
            })
            &&& told[5] == (MetaView {
                property: true,
                key: "og:url"@,
                content: base + page.current_path@,
            })
            &&& told[6] == (MetaView { property: true, key: "og:image"@, content: base + image })
            &&& told[12] == (MetaView {
                property: false,
                key: "twitter:image"@,
                content: base + image,
            })
        }),
{
}

/// The navigation leads to the leaderboards, the tournaments, the snakes, the
/// players, one's own snakes where one is signed in, the customizations and
/// the documentation, in this order, and marks the page one is on.
pub proof fn the_navigation_leads_everywhere(path: Seq<char>)
    ensures
        ({
            let links = links_at(path, true);
            &&& links.len() == 7
            &&& links_at(path, false).len() == 6
            &&& links[0].href == "/leaderboards"@ && links[0].label == "Leaderboards"@
            &&& links[1].href == "/tournaments"@ && links[1].label == "Tournaments"@
            &&& links[2].href == "/snakes"@ && links[2].label == "Snakes"@
            &&& links[3].href == "/players"@ && links[3].label == "Players"@
            &&& links[4].href == "/battlesnakes"@ && links[4].label == "My Snakes"@
            &&& links[5].href == "/customizations"@ && links[5].label == "Customizations"@
            &&& links[6].href == "https://docs.battlesnake.com"@ && links[6].label == "Docs"@
            &&& !links[6].active
            &&& forall|i: int|
                0 <= i < 6 ==> ((#[trigger] links[i]).active <==> below(path, links[i].href))
            &&& forall|i: int|
                0 <= i < 6 ==> #[trigger] links_at(path, false)[i] == if i < 4 {
                    links[i]
                } else {
                    links[i + 1]
                }
        }),
{
    links_listed(path, true);
    links_listed(path, false);
}

/// A tag holds the texts of what it is about, with nothing in them that could
/// end it, and an active link is marked as such.
pub proof fn tags_hold_their_texts(meta: MetaView, link: NavLinkView)
    ensures
        meta.property ==> meta_tag(meta) == "<meta property=\""@ + escaped(meta.key)
            + "\" content=\""@ + escaped(meta.content) + "\">"@,
        !meta.property ==> meta_tag(meta) == "<meta name=\""@ + escaped(meta.key)
            + "\" content=\""@ + escaped(meta.content) + "\">"@,
        link.active ==> link_tag(link) == "<a class=\"active\" href=\""@ + escaped(link.href)
            + "\">"@ + escaped(link.label) + "</a>"@,
        !link.active ==> link_tag(link) == "<a href=\""@ + escaped(link.href) + "\">"@ + escaped(
            link.label,
        ) + "</a>"@,
{
}

/// Tags stand one behind the other, in order.
pub proof fn tags_stand_in_order(
    metas: Seq<MetaView>,
    meta: MetaView,
    links: Seq<NavLinkView>,
    link: NavLinkView,
)
    ensures
        meta_tags(Seq::empty()).len() == 0,
        meta_tags(metas.push(meta)) == meta_tags(metas) + meta_tag(meta),
        link_tags(Seq::empty()).len() == 0,
        link_tags(links.push(link)) == link_tags(links) + link_tag(link),
{
    assert(metas.push(meta).drop_last() =~= metas);
    assert(links.push(link).drop_last() =~= links);
}

/// The links stand in a row, and once more on a sheet, on which whoever is not
/// signed in can do so.
pub proof fn links_stand_in_a_row_and_on_a_sheet(path: Seq<char>, signed_in: bool)
    ensures
        link_row_of(path, signed_in) == "<div class=\"links\">"@ + link_tags(
            links_at(path, signed_in),
        ) + "</div>"@,
        link_sheet_of(path, true) == "<div class=\"sheet\">"@ + link_tags(links_at(path, true))
            + "</div>"@,
        link_sheet_of(path, false) == "<div class=\"sheet\">"@ + link_tags(links_at(path, false))
            + "<a class=\"cta\" href=\"/auth/github\">Sign in with GitHub</a>"@ + "</div>"@,
{
    assert(link_sheet_of(path, true) =~= "<div class=\"sheet\">"@ + link_tags(links_at(path, true))
        + "</div>"@);
}

/// A description is one's own where there is one, and the usual one otherwise.
pub proof fn pages_are_described(page: Page)
    ensures
        page.description is Some ==> description_of(page) == page.description->0@,
        page.description is None ==> description_of(page) == DEFAULT_DESCRIPTION@,
{
}

} // verus!
