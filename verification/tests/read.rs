use paste_read::cache::RenderCache;
use paste_read::entry::{Data, DbError, Entry};
use paste_read::error::Error;
use paste_read::highlight::{HighlightError, Html};
use paste_read::key::Key;
use paste_read::paste::{Page, PasswordForm, PasswordInput, Paste, Response, Theme};
use paste_read::policy::replay;
use paste_read::read::{begin, Progress, Request};

fn page() -> Page {
    Page { title: "bin".to_string(), base_url: "https://bin.example/".to_string() }
}

fn request(id: &str) -> Request {
    Request { page: page(), id: id.to_string(), theme: None, identity: None, form: None }
}

fn with_password(id: &str, password: &str) -> Request {
    Request {
        form: Some(PasswordForm { password: password.to_string() }),
        ..request(id)
    }
}

fn with_identity(id: &str, identity: &str) -> Request {
    Request { identity: Some(identity.to_string()), ..request(id) }
}

fn data(text: &str) -> Data {
    Data { text: text.to_string(), title: None, uid: None }
}

fn owned(text: &str, uid: i64) -> Data {
    Data { uid: Some(uid), ..data(text) }
}

fn upper(text: &str, ext: Option<&str>) -> Result<Html, HighlightError> {
    Ok(Html::new(format!("<{}>{}</>", ext.unwrap_or("txt"), text.to_uppercase())))
}

fn shown(outcome: Result<Response, Error>) -> Paste {
    match outcome {
        Ok(Response::Paste(paste)) => paste,
        other => panic!("no paste is shown: {:?}", other),
    }
}

/// Runs one read. Counts in `runs` how often the highlighter was asked.
fn read(
    request: Request,
    found: Result<Entry, DbError>,
    cache: &mut RenderCache,
    runs: &mut u32,
) -> Result<Response, Error> {
    let lookup = begin(request)?;
    match lookup.resolve(found, cache) {
        Progress::Done(outcome) => outcome,
        Progress::Render(rendering) => {
            *runs += 1;
            let rendered = upper(rendering.text(), rendering.ext());
            rendering.finish(rendered, cache)
        }
    }
}

#[test]
fn unknown_paste() {
    let mut cache = RenderCache::new();
    let mut runs = 0;
    let outcome = read(request("000000"), Err(DbError::NotFound), &mut cache, &mut runs);
    assert_eq!(outcome, Err(Error::NotFound));
    assert!(Error::NotFound.not_found_class());
    assert_eq!(runs, 0);
}

#[test]
fn regular_paste_is_rendered_once_and_then_served_from_the_cache() {
    let mut cache = RenderCache::new();
    let mut runs = 0;
    let key = Key::parse("abc123").unwrap();
    assert_eq!(key.ext(), None);

    let first = shown(read(
        request("abc123"),
        Ok(Entry::Regular(data("hello"))),
        &mut cache,
        &mut runs,
    ));
    assert_eq!(runs, 1);
    assert_eq!(first.html, "<txt>HELLO</>");
    assert!(first.is_available);
    assert!(!first.can_delete);
    assert_eq!(first.title, "");
    assert_eq!(first.key, key);
    assert_eq!(cache.get(&key), Some(Html::new("<txt>HELLO</>".to_string())));

    let second = shown(read(
        request("abc123"),
        Ok(Entry::Regular(data("hello"))),
        &mut cache,
        &mut runs,
    ));
    assert_eq!(runs, 1);
    assert_eq!(second, first);
    assert_eq!(cache.get(&key), Some(Html::new("<txt>HELLO</>".to_string())));
}

#[test]
fn cached_markup_is_served_without_the_highlighter() {
    let mut cache = RenderCache::new();
    cache.put(Key::parse("abc123").unwrap(), Html::new("from the cache".to_string()));
    let lookup = begin(request("abc123")).unwrap();
    match lookup.resolve(Ok(Entry::Regular(data("hello"))), &cache) {
        Progress::Done(outcome) => assert_eq!(shown(outcome).html, "from the cache"),
        Progress::Render(_) => panic!("the highlighter is asked"),
    }
}

#[test]
fn password_prompt_is_no_error() {
    let mut cache = RenderCache::new();
    let mut runs = 0;
    let outcome = read(
        Request { theme: Some(Theme::Light), ..request("abc123.py") },
        Err(DbError::PasswordRequired),
        &mut cache,
        &mut runs,
    );
    assert_eq!(
        outcome,
        Ok(Response::PasswordInput(PasswordInput {
            page: page(),
            theme: Some(Theme::Light),
            key: Key::parse("abc123.py").unwrap(),
        }))
    );
    assert_eq!(runs, 0);
}

#[test]
fn wrong_password_prompts_again() {
    let mut cache = RenderCache::new();
    let mut runs = 0;
    let outcome = read(
        with_password("abc123", "guess"),
        Err(DbError::PasswordRequired),
        &mut cache,
        &mut runs,
    );
    assert!(matches!(outcome, Ok(Response::PasswordInput(_))));
}

#[test]
fn missing_and_expired_pastes_look_the_same() {
    let mut cache = RenderCache::new();
    let mut runs = 0;
    let missing = read(request("abc123"), Err(DbError::NotFound), &mut cache, &mut runs);
    let expired = read(request("abc123"), Ok(Entry::Expired), &mut cache, &mut runs);
    assert_eq!(missing, Err(Error::NotFound));
    assert_eq!(expired, missing);
    assert_eq!(runs, 0);
}

#[test]
fn expired_paste_reads_the_same_twice() {
    let mut cache = RenderCache::new();
    let mut runs = 0;
    let first = read(request("abc123.py"), Ok(Entry::Expired), &mut cache, &mut runs);
    let second = read(request("abc123.py"), Ok(Entry::Expired), &mut cache, &mut runs);
    assert_eq!(first, Err(Error::NotFound));
    assert_eq!(second, first);
    assert_eq!(cache.get(&Key::parse("abc123.py").unwrap()), None);
}

#[test]
fn burned_paste_is_shown_once_and_never_cached() {
    let mut cache = RenderCache::new();
    let mut runs = 0;
    let key = Key::parse("abc123").unwrap();

    let first = shown(read(
        request("abc123"),
        Ok(Entry::Burned(data("once"))),
        &mut cache,
        &mut runs,
    ));
    assert_eq!(first.html, "<txt>ONCE</>");
    assert!(!first.is_available);
    assert_eq!(runs, 1);
    assert_eq!(cache.get(&key), None);

    let second = read(request("abc123"), Err(DbError::NotFound), &mut cache, &mut runs);
    assert_eq!(second, Err(Error::NotFound));
    assert_eq!(runs, 1);
    assert_eq!(cache.get(&key), None);
}

#[test]
fn burned_paste_does_not_ask_the_cache() {
    let mut cache = RenderCache::new();
    let mut runs = 0;
    let key = Key::parse("abc123").unwrap();
    cache.put(key.clone(), Html::new("stale".to_string()));
    let paste = shown(read(
        request("abc123"),
        Ok(Entry::Burned(data("once"))),
        &mut cache,
        &mut runs,
    ));
    assert_eq!(paste.html, "<txt>ONCE</>");
    assert_eq!(runs, 1);
    assert_eq!(cache.get(&key), Some(Html::new("stale".to_string())));
}

#[test]
fn read_with_password_neither_fills_nor_asks_the_cache() {
    let mut cache = RenderCache::new();
    let mut runs = 0;
    let key = Key::parse("abc123.py").unwrap();

    let paste = shown(read(
        with_password("abc123.py", "s3cret"),
        Ok(Entry::Regular(data("hidden"))),
        &mut cache,
        &mut runs,
    ));
    assert_eq!(paste.html, "<py>HIDDEN</>");
    assert!(paste.is_available);
    assert_eq!(runs, 1);
    assert_eq!(cache.get(&key), None);

    cache.put(key.clone(), Html::new("open".to_string()));
    let paste = shown(read(
        with_password("abc123.py", "s3cret"),
        Ok(Entry::Regular(data("hidden"))),
        &mut cache,
        &mut runs,
    ));
    assert_eq!(paste.html, "<py>HIDDEN</>");
    assert_eq!(runs, 2);
    assert_eq!(cache.get(&key), Some(Html::new("open".to_string())));
}

#[test]
fn lookup_carries_the_password_to_the_database() {
    let lookup = begin(with_password("abc123", "pa\u{df}")).unwrap();
    assert_eq!(lookup.key().id(), "abc123");
    let bytes = lookup.password().map(|p| p.as_bytes().to_vec());
    assert_eq!(bytes, Some(vec![b'p', b'a', 0xc3, 0x9f]));
    let lookup = begin(request("abc123")).unwrap();
    assert!(lookup.password().is_none());
}

#[test]
fn malformed_key_ends_the_read_at_once() {
    assert!(matches!(begin(request("")), Err(Error::InvalidKey)));
    assert!(matches!(begin(request(".py")), Err(Error::InvalidKey)));
    assert!(matches!(begin(request("abc 123")), Err(Error::InvalidKey)));
    assert!(matches!(begin(request("/000000")), Err(Error::InvalidKey)));
    assert!(Error::InvalidKey.not_found_class());
}

#[test]
fn highlight_failure_is_reported_and_nothing_is_cached() {
    let mut cache = RenderCache::new();
    let lookup = begin(request("abc123.zz")).unwrap();
    let rendering = match lookup.resolve(Ok(Entry::Regular(data("hello"))), &cache) {
        Progress::Render(rendering) => rendering,
        Progress::Done(_) => panic!("nothing is cached yet"),
    };
    assert_eq!(rendering.text(), "hello");
    assert_eq!(rendering.ext(), Some("zz"));
    let outcome = rendering.finish(Err(HighlightError::UnsupportedExtension), &mut cache);
    assert_eq!(outcome, Err(Error::HighlightFailure));
    assert!(!Error::HighlightFailure.not_found_class());
    assert_eq!(cache.get(&Key::parse("abc123.zz").unwrap()), None);

    let lookup = begin(request("abc123")).unwrap();
    let rendering = match lookup.resolve(Ok(Entry::Regular(data("\u{0}"))), &cache) {
        Progress::Render(rendering) => rendering,
        Progress::Done(_) => panic!("nothing is cached yet"),
    };
    let outcome = rendering.finish(Err(HighlightError::MalformedContent), &mut cache);
    assert_eq!(outcome, Err(Error::HighlightFailure));
}

#[test]
fn owner_is_offered_deletion() {
    let mut cache = RenderCache::new();
    let mut runs = 0;
    let paste = shown(read(
        with_identity("abc123", "42"),
        Ok(Entry::Regular(owned("mine", 42))),
        &mut cache,
        &mut runs,
    ));
    assert!(paste.can_delete);

    // The markup now comes from the cache, the right to delete does not.
    let paste = shown(read(
        with_identity("abc123", "43"),
        Ok(Entry::Regular(owned("mine", 42))),
        &mut cache,
        &mut runs,
    ));
    assert!(!paste.can_delete);
    assert_eq!(runs, 1);
    let paste = shown(read(
        with_identity("abc123", "42"),
        Ok(Entry::Regular(owned("mine", 42))),
        &mut cache,
        &mut runs,
    ));
    assert!(paste.can_delete);
    assert_eq!(runs, 1);
}

#[test]
fn broken_identity_token_does_not_block_reading() {
    let mut cache = RenderCache::new();
    let mut runs = 0;
    let paste = shown(read(
        with_identity("abc123", "not a number"),
        Ok(Entry::Regular(owned("mine", 42))),
        &mut cache,
        &mut runs,
    ));
    assert!(!paste.can_delete);
    assert_eq!(paste.html, "<txt>MINE</>");
}

#[test]
fn anonymous_paste_can_be_deleted_by_nobody() {
    let mut cache = RenderCache::new();
    let mut runs = 0;
    let paste = shown(read(
        with_identity("abc123", "42"),
        Ok(Entry::Burned(data("nobody's"))),
        &mut cache,
        &mut runs,
    ));
    assert!(!paste.can_delete);
}

#[test]
fn title_and_theme_are_passed_on() {
    let mut cache = RenderCache::new();
    let mut runs = 0;
    let titled = Data { title: Some("notes".to_string()), ..data("text") };
    let paste = shown(read(
        Request { theme: Some(Theme::Dark), ..request("abc123.md") },
        Ok(Entry::Regular(titled.clone())),
        &mut cache,
        &mut runs,
    ));
    assert_eq!(paste.title, "notes");
    assert_eq!(paste.theme, Some(Theme::Dark));
    assert_eq!(paste.page, page());
    assert_eq!(paste.html, "<md>TEXT</>");

    // From the cache, with another reader's theme.
    let paste = shown(read(
        Request { theme: Some(Theme::Light), ..request("abc123.md") },
        Ok(Entry::Regular(titled)),
        &mut cache,
        &mut runs,
    ));
    assert_eq!(runs, 1);
    assert_eq!(paste.title, "notes");
    assert_eq!(paste.theme, Some(Theme::Light));
}

#[test]
fn same_paste_under_another_extension_is_rendered_anew() {
    let mut cache = RenderCache::new();
    let mut runs = 0;
    let plain = shown(read(
        request("abc123"),
        Ok(Entry::Regular(data("x"))),
        &mut cache,
        &mut runs,
    ));
    let python = shown(read(
        request("abc123.py"),
        Ok(Entry::Regular(data("x"))),
        &mut cache,
        &mut runs,
    ));
    assert_eq!(runs, 2);
    assert_eq!(plain.html, "<txt>X</>");
    assert_eq!(python.html, "<py>X</>");
}

#[test]
fn later_reads_keep_what_earlier_reads_cached() {
    let mut cache = RenderCache::new();
    let mut runs = 0;
    read(request("aaa"), Ok(Entry::Regular(data("a"))), &mut cache, &mut runs).unwrap();
    read(request("bbb"), Ok(Entry::Regular(data("b"))), &mut cache, &mut runs).unwrap();
    read(request("ccc"), Ok(Entry::Burned(data("c"))), &mut cache, &mut runs).unwrap();
    read(with_password("ddd", "p"), Ok(Entry::Regular(data("d"))), &mut cache, &mut runs)
        .unwrap();
    let _ = read(request("eee"), Ok(Entry::Expired), &mut cache, &mut runs);
    assert_eq!(cache.get(&Key::parse("aaa").unwrap()), Some(Html::new("<txt>A</>".to_string())));
    assert_eq!(cache.get(&Key::parse("bbb").unwrap()), Some(Html::new("<txt>B</>".to_string())));
    assert_eq!(cache.get(&Key::parse("ccc").unwrap()), None);
    assert_eq!(cache.get(&Key::parse("ddd").unwrap()), None);
    assert_eq!(cache.get(&Key::parse("eee").unwrap()), None);
}

#[test]
fn replay_runs_the_steps_in_a_row() {
    let mut cache = RenderCache::new();
    let key = Key::parse("abc123").unwrap();

    let first = shown(replay(
        request("abc123"),
        Ok(Entry::Regular(data("hello"))),
        Ok(Html::new("<b>hello</b>".to_string())),
        &mut cache,
    ));
    assert_eq!(first.html, "<b>hello</b>");
    assert_eq!(cache.get(&key), Some(Html::new("<b>hello</b>".to_string())));

    // The highlighter's answer no longer matters: the cache has the markup.
    let second = shown(replay(
        request("abc123"),
        Ok(Entry::Regular(data("hello"))),
        Err(HighlightError::MalformedContent),
        &mut cache,
    ));
    assert_eq!(second, first);

    let burned = shown(replay(
        request("def456"),
        Ok(Entry::Burned(data("once"))),
        Ok(Html::new("<i>once</i>".to_string())),
        &mut cache,
    ));
    assert_eq!(burned.html, "<i>once</i>");
    assert_eq!(cache.get(&Key::parse("def456").unwrap()), None);

    assert_eq!(
        replay(
            request("def456"),
            Err(DbError::NotFound),
            Ok(Html::new(String::new())),
            &mut cache,
        ),
        Err(Error::NotFound)
    );
    assert_eq!(
        replay(request("no key"), Ok(Entry::Expired), Ok(Html::new(String::new())), &mut cache),
        Err(Error::InvalidKey)
    );
    assert_eq!(
        replay(
            request("ghi789"),
            Ok(Entry::Regular(data("x"))),
            Err(HighlightError::UnsupportedExtension),
            &mut cache,
        ),
        Err(Error::HighlightFailure)
    );
    assert_eq!(cache.get(&Key::parse("ghi789").unwrap()), None);
}
