use arena::ids::Id;
use arena::model::User;
use arena::page::{Page, DEFAULT_DESCRIPTION, GOOGLE_FONTS_HREF, THEME_BOOTSTRAP_JS};

fn test_page() -> Page {
    Page::new(
        "Test Title".to_string(),
        "<p>content</p>".to_string(),
        None,
        "http://localhost:3000",
    )
}

fn test_user(site_theme: &str, theater_theme: &str) -> User {
    User {
        user_id: Id::from_u128(1),
        github_login: "coder".to_string(),
        github_avatar_url: None,
        display_name: None,
        site_theme: site_theme.to_string(),
        theater_theme: theater_theme.to_string(),
    }
}

fn content(page: &Page, key: &str) -> Vec<String> {
    page.metas(IMAGE)
        .into_iter()
        .filter(|m| m.key == key)
        .map(|m| m.content)
        .collect()
}

const IMAGE: &str = "/static/og-card.png";

/// What the page tells about itself and its navigation: the desktop link row
/// and the mobile menu sheet.
fn render(page: &Page) -> String {
    page.head_tags(IMAGE) + &page.link_row() + &page.link_sheet()
}

#[test]
fn head_contains_baseline_og_tags() {
    let mut page = test_page();
    page.base_url = "https://arena.battlesnake.com/".to_string();
    page.current_path = "/games/example".to_string();
    let html = render(&page);
    assert!(html.contains(r#"<meta property="og:site_name" content="Battlesnake Arena">"#));
    assert!(html.contains(r#"<meta property="og:title" content="Test Title">"#));
    assert!(html.contains(r#"<meta property="og:type" content="website">"#));
    assert!(html.contains(&format!(
        r#"<meta property="og:description" content="{DEFAULT_DESCRIPTION}">"#
    )));
    let image_url = format!("https://arena.battlesnake.com{IMAGE}");
    let expected = [
        (
            r#"property="og:url""#,
            "https://arena.battlesnake.com/games/example",
        ),
        (r#"property="og:image""#, image_url.as_str()),
        (r#"property="og:image:type""#, "image/png"),
        (r#"property="og:image:width""#, "1200"),
        (r#"property="og:image:height""#, "630"),
        (r#"property="og:image:alt""#, "Battlesnake Arena"),
        (r#"name="twitter:card""#, "summary_large_image"),
        (r#"name="twitter:image""#, image_url.as_str()),
        (r#"name="twitter:image:alt""#, "Battlesnake Arena"),
    ];
    for (selector, value) in expected {
        assert_eq!(html.matches(selector).count(), 1, "{selector}");
        assert!(html.contains(&format!(r#"{selector} content="{value}""#)));
    }
    assert!(!html.contains("arena.battlesnake.com//"));
    assert!(html.contains(&format!(
        r#"<meta name="description" content="{DEFAULT_DESCRIPTION}">"#
    )));
}

#[test]
fn custom_description_overrides_default() {
    let page = test_page()
        .with_description("Standard game on an 11x11 board — watch the replay".to_string());
    let html = render(&page);
    assert!(html.contains(
        r#"<meta property="og:description" content="Standard game on an 11x11 board — watch the replay">"#
    ));
    assert!(!html.contains(DEFAULT_DESCRIPTION));
}

#[test]
fn players_directory_is_in_the_anonymous_nav() {
    let html = render(&test_page());
    assert_eq!(html.matches(r#"href="/players">Players</a>"#).count(), 2);
}

#[test]
fn players_nav_link_is_active_on_the_directory() {
    let mut page = test_page();
    page.current_path = "/players".to_string();
    let html = render(&page);
    assert_eq!(
        html.matches(r#"<a class="active" href="/players">Players</a>"#)
            .count(),
        2
    );
}

#[test]
fn description_is_html_escaped() {
    let page =
        test_page().with_description(r#"<script>"quotes" & snakes</script>"#.to_string());
    let html = render(&page);
    assert!(html.contains("&lt;script&gt;&quot;quotes&quot; &amp; snakes&lt;/script&gt;"));
    assert!(!html.contains(r#"<script>"quotes""#));
}

#[test]
fn og_card_generator_literals_match_page_constants() {
    let generator = r#"
        const fonts = "https://fonts.googleapis.com/css2?family=Bricolage+Grotesque:opsz,wght@12..96,300;12..96,500;12..96,600;12..96,700;12..96,800&family=Instrument+Sans:ital,wght@0,400;0,500;0,600;1,400&family=IBM+Plex+Mono:wght@400;500;600&display=swap";
        const tagline = "A competitive arena where your code battles other Battlesnakes.";
    "#;
    for (name, value) in [
        ("GOOGLE_FONTS_HREF", GOOGLE_FONTS_HREF),
        ("DEFAULT_DESCRIPTION", DEFAULT_DESCRIPTION),
    ] {
        assert!(
            generator.contains(value),
            "{name} changed; update the card generator when the Rust constants change"
        );
    }
}

#[test]
fn a_new_page_is_anonymous_and_at_the_root() {
    let page = test_page();
    assert_eq!(page.title, "Test Title");
    assert_eq!(page.content, "<p>content</p>");
    assert!(page.flash.is_none() && page.flash_type.is_none() && page.user.is_none());
    assert_eq!(page.current_path, "/");
    assert_eq!(page.base_url, "http://localhost:3000");
    assert!(!page.theater);
    assert_eq!(page.head_title(), "Test Title — Battlesnake");
    assert_eq!(page.description(), DEFAULT_DESCRIPTION);
    assert!(THEME_BOOTSTRAP_JS.starts_with("(function(){"));
    assert!(THEME_BOOTSTRAP_JS.ends_with("})();"));
}

#[test]
fn a_page_tells_each_thing_about_itself_once() {
    let mut page = test_page();
    page.base_url = "https://arena.battlesnake.com/".to_string();
    page.current_path = "/games/example".to_string();
    let image = "https://arena.battlesnake.com/static/og-card.png";
    for (key, value) in [
        ("description", DEFAULT_DESCRIPTION),
        ("og:site_name", "Battlesnake Arena"),
        ("og:title", "Test Title"),
        ("og:type", "website"),
        ("og:description", DEFAULT_DESCRIPTION),
        ("og:url", "https://arena.battlesnake.com/games/example"),
        ("og:image", image),
        ("og:image:type", "image/png"),
        ("og:image:width", "1200"),
        ("og:image:height", "630"),
        ("og:image:alt", "Battlesnake Arena"),
        ("twitter:card", "summary_large_image"),
        ("twitter:image", image),
        ("twitter:image:alt", "Battlesnake Arena"),
    ] {
        assert_eq!(content(&page, key), vec![value.to_string()], "{key}");
    }
    for meta in page.metas(IMAGE) {
        assert_eq!(meta.property, meta.key.starts_with("og:"), "{}", meta.key);
    }
}

#[test]
fn a_description_of_its_own_replaces_the_default() {
    let text = "Standard game on an 11x11 board — watch the replay";
    let page = test_page().with_description(text.to_string());
    assert_eq!(page.description(), text);
    assert_eq!(content(&page, "description"), vec![text.to_string()]);
    assert_eq!(content(&page, "og:description"), vec![text.to_string()]);
    assert_eq!(content(&page, "og:title"), vec!["Test Title".to_string()]);
}

#[test]
fn addresses_have_one_slash_in_between() {
    let mut page = test_page();
    page.current_path = "/players".to_string();
    for base in ["https://a.example", "https://a.example/", "https://a.example///"] {
        page.base_url = base.to_string();
        assert_eq!(page.canonical_url(), "https://a.example/players");
        assert_eq!(page.social_image_url("/x.png"), "https://a.example/x.png");
    }
}

#[test]
fn the_players_directory_is_in_everybodys_navigation() {
    let mut page = test_page();
    let labels: Vec<String> = page.nav_links().into_iter().map(|l| l.label).collect();
    assert_eq!(
        labels,
        vec!["Leaderboards", "Tournaments", "Snakes", "Players", "Customizations", "Docs"]
    );
    page.user = Some(test_user("light", "dark"));
    let links: Vec<(String, String)> = page
        .nav_links()
        .into_iter()
        .map(|l| (l.label, l.href))
        .collect();
    assert_eq!(links.len(), 7);
    assert_eq!(links[3], ("Players".to_string(), "/players".to_string()));
    assert_eq!(links[4], ("My Snakes".to_string(), "/battlesnakes".to_string()));
}

#[test]
fn the_link_of_the_current_section_is_active() {
    let mut page = test_page();
    for (path, active) in [
        ("/players", vec!["/players"]),
        ("/players/7", vec!["/players"]),
        ("/playerscards", vec![]),
        ("/", vec![]),
        ("/tournaments/x/edit", vec!["/tournaments"]),
    ] {
        page.current_path = path.to_string();
        let hrefs: Vec<String> = page
            .nav_links()
            .into_iter()
            .filter(|l| l.active)
            .map(|l| l.href)
            .collect();
        assert_eq!(hrefs, active, "{path}");
    }
    page.current_path = "/snakes".to_string();
    assert!(page.is_active("/snakes"));
    assert!(!page.is_active("/snake"));
}

#[test]
fn the_first_theme_follows_the_account() {
    let mut page = test_page();
    assert_eq!(page.initial_theme(), None);
    for (site, theater_axis, theater, expected) in [
        ("light", "dark", false, Some("light")),
        ("dark", "light", false, Some("dark")),
        ("system", "dark", false, None),
        ("light", "dark", true, Some("dark")),
        ("dark", "match", true, Some("dark")),
        ("system", "match", true, None),
        ("dark", "light", true, Some("light")),
        ("light", "sepia", true, None),
    ] {
        page.user = Some(test_user(site, theater_axis));
        page.theater = theater;
        assert_eq!(page.initial_theme(), expected);
    }
}

#[test]
fn the_viewer_is_greeted_by_name() {
    let mut page = test_page();
    assert_eq!(page.nav_user_name(), None);
    assert_eq!(
        page.appearance_hint(),
        "Saved in this browser. Sign in to sync across devices."
    );
    let mut user = test_user("light", "dark");
    user.display_name = Some("Ada".to_string());
    page.user = Some(user);
    assert_eq!(page.nav_user_name(), Some("Ada"));
    assert_eq!(page.appearance_hint(), "Saved to your account.");
    page.user = Some(test_user("light", "dark"));
    assert_eq!(page.nav_user_name(), Some("coder"));
}

#[test]
fn the_head_is_made_of_tags() {
    let page = test_page().with_description("a < b".to_string());
    let head = page.head_tags(IMAGE);
    assert!(head.starts_with(
        r#"<meta name="description" content="a &lt; b"><meta property="og:site_name" content="Battlesnake Arena">"#
    ));
    assert!(head.ends_with(r#"<meta name="twitter:image:alt" content="Battlesnake Arena">"#));
    assert_eq!(head.matches("<meta ").count(), 14);
    assert_eq!(head.matches('<').count(), 14);
}

#[test]
fn links_stand_in_a_row_and_on_a_sheet() {
    let mut page = test_page();
    page.current_path = "/snakes/1".to_string();
    let links = r#"<a href="/leaderboards">Leaderboards</a><a href="/tournaments">Tournaments</a><a class="active" href="/snakes">Snakes</a><a href="/players">Players</a><a href="/customizations">Customizations</a><a href="https://docs.battlesnake.com">Docs</a>"#;
    let sign_in = r#"<a class="cta" href="/auth/github">Sign in with GitHub</a>"#;
    assert_eq!(page.link_row(), format!(r#"<div class="links">{links}</div>"#));
    assert_eq!(
        page.link_sheet(),
        format!(r#"<div class="sheet">{links}{sign_in}</div>"#)
    );
    page.user = Some(test_user("system", "match"));
    assert!(page.link_sheet().contains(r#"<a href="/battlesnakes">My Snakes</a>"#));
    assert!(!page.link_sheet().contains(sign_in));
}
