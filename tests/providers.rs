use file_icon_provider::error::Error;
use file_icon_provider::file_provider::FileIconProvider;
use file_icon_provider::icon::Icon;
use file_icon_provider::path::PathInfo;
use file_icon_provider::provider::Provider;
use file_icon_provider::request::{IconFetch, Lookup};

fn plain_file() -> PathInfo {
    PathInfo { exists: true, is_dir: false, is_symlink: false, is_executable: false }
}

fn square(size: u32, fill: u8) -> Icon {
    Icon { width: size, height: size, pixels: vec![fill; (size * size * 4) as usize] }
}

fn pixels(icon: Icon) -> Vec<u8> {
    icon.pixels
}

fn expect_fetch<T: std::fmt::Debug>(r: Result<Lookup<T>, Error>) -> IconFetch {
    match r {
        Ok(Lookup::Fetch(f)) => f,
        other => panic!("expected a fetch, got {:?}", other),
    }
}

fn expect_cached<T: std::fmt::Debug>(r: Result<Lookup<T>, Error>) -> T {
    match r {
        Ok(Lookup::Cached(v)) => v,
        other => panic!("expected a cached value, got {:?}", other),
    }
}

#[test]
fn provider_refuses_null_size() {
    assert_eq!(Provider::new(0, pixels).err(), Some(Error::NullIconSize));
}

#[test]
fn provider_keeps_its_size() {
    let provider = Provider::new(48, pixels).unwrap();
    assert_eq!(provider.icon_size(), 48);
}

#[test]
fn provider_reports_missing_path() {
    let provider = Provider::new(32, pixels).unwrap();
    let missing = PathInfo { exists: false, ..plain_file() };
    assert_eq!(provider.get_file_icon("gone.txt", missing).err(), Some(Error::PathDoesNotExist));
}

#[test]
fn same_extension_is_served_from_cache() {
    let mut provider = Provider::new(32, pixels).unwrap();
    let fetch = expect_fetch(provider.get_file_icon("a/one.txt", plain_file()));
    assert_eq!(fetch.path, "a/one.txt");
    assert_eq!(fetch.size, 32);
    assert_eq!(fetch.key.as_deref(), Some("txt"));
    let first = provider.complete(fetch, Some(square(32, 9))).unwrap();
    let second = expect_cached(provider.get_file_icon("b/two.txt", plain_file()));
    assert_eq!(first, second);
}

#[test]
fn txt_icon_round_trip_at_32() {
    let mut provider = Provider::new(32, pixels).unwrap();
    let fetch = expect_fetch(provider.get_file_icon("notes.txt", plain_file()));
    assert_eq!(fetch.key.as_deref(), Some("txt"));
    let first = provider.complete(fetch, Some(square(32, 200))).unwrap();
    assert_eq!(first.len(), 4096);
    let second = expect_cached(provider.get_file_icon("notes.txt", plain_file()));
    assert_eq!(second.len(), 4096);
    assert_eq!(first, second);
}

#[test]
fn clear_makes_the_next_lookup_fetch_once() {
    let mut provider = Provider::new(16, pixels).unwrap();
    let fetch = expect_fetch(provider.get_file_icon("x.png", plain_file()));
    provider.complete(fetch, Some(square(16, 1))).unwrap();
    expect_cached(provider.get_file_icon("y.png", plain_file()));
    provider.clear();
    assert_eq!(provider.icon_size(), 16);
    let fetch = expect_fetch(provider.get_file_icon("y.png", plain_file()));
    let refreshed = provider.complete(fetch, Some(square(16, 2))).unwrap();
    assert_eq!(refreshed, vec![2u8; 16 * 16 * 4]);
    assert_eq!(expect_cached(provider.get_file_icon("x.png", plain_file())), refreshed);
}

#[test]
fn directories_and_links_are_never_cached() {
    let mut provider = Provider::new(32, pixels).unwrap();
    let dir = PathInfo { is_dir: true, ..plain_file() };
    let link = PathInfo { is_symlink: true, ..plain_file() };
    for info in [dir, link] {
        for round in 0..2u8 {
            let fetch = expect_fetch(provider.get_file_icon("folder.d", info));
            assert!(fetch.key.is_none());
            let got = provider.complete(fetch, Some(square(32, round))).unwrap();
            assert_eq!(got, vec![round; 4096]);
        }
    }
    let fetch = expect_fetch(provider.get_file_icon("other.d", plain_file()));
    assert_eq!(fetch.key.as_deref(), Some("d"));
}

#[test]
fn own_icon_and_extensionless_files_are_never_cached() {
    let mut provider = Provider::new(32, pixels).unwrap();
    let exec = PathInfo { is_executable: true, ..plain_file() };
    for (path, info) in [("app.desktop", plain_file()), ("run.txt", exec), ("README", plain_file())] {
        let fetch = expect_fetch(provider.get_file_icon(path, info));
        assert!(fetch.key.is_none());
        provider.complete(fetch, Some(square(32, 3))).unwrap();
        expect_fetch(provider.get_file_icon(path, info));
    }
}

#[test]
fn failures_are_not_cached() {
    let mut provider = Provider::new(32, pixels).unwrap();
    let fetch = expect_fetch(provider.get_file_icon("a.pdf", plain_file()));
    assert_eq!(provider.complete(fetch, None).err(), Some(Error::Failed));
    let fetch = expect_fetch(provider.get_file_icon("a.pdf", plain_file()));
    let bad = Icon { width: 32, height: 32, pixels: vec![0u8; 10] };
    assert_eq!(provider.complete(fetch, Some(bad)).err(), Some(Error::Failed));
    let fetch = expect_fetch(provider.get_file_icon("a.pdf", plain_file()));
    assert_eq!(provider.complete(fetch, Some(square(32, 5))).unwrap(), vec![5u8; 4096]);
    expect_cached(provider.get_file_icon("a.pdf", plain_file()));
}

#[test]
fn a_second_completion_keeps_the_first_value() {
    let mut provider = Provider::new(8, pixels).unwrap();
    let one = expect_fetch(provider.get_file_icon("a.svg", plain_file()));
    let two = expect_fetch(provider.get_file_icon("b.svg", plain_file()));
    assert_eq!(provider.complete(one, Some(square(8, 1))).unwrap(), vec![1u8; 256]);
    assert_eq!(provider.complete(two, Some(square(8, 2))).unwrap(), vec![1u8; 256]);
}

#[test]
fn converter_runs_on_the_platform_icon() {
    let mut provider = Provider::new(2, |icon: Icon| (icon.width, icon.height, icon.pixels.len())).unwrap();
    let fetch = expect_fetch(provider.get_file_icon("z.rs", plain_file()));
    let odd = Icon { width: 3, height: 1, pixels: vec![0u8; 12] };
    assert_eq!(provider.complete(fetch, Some(odd)).unwrap(), (3, 1, 12));
}

#[test]
fn file_provider_reports_errors() {
    let provider = FileIconProvider::new(pixels);
    let missing = PathInfo { exists: false, ..plain_file() };
    assert_eq!(provider.icon("NOT EXISTING", 32, missing).err(), Some(Error::PathDoesNotExist));
    assert_eq!(provider.icon("/", 0, plain_file()).err(), Some(Error::NullIconSize));
    assert_eq!(provider.icon("NOT EXISTING", 0, missing).err(), Some(Error::NullIconSize));
}

#[test]
fn file_provider_caches_by_size_and_path() {
    let mut provider = FileIconProvider::new(pixels);
    let fetch = expect_fetch(provider.icon("a/b.txt", 16, plain_file()));
    assert_eq!(fetch.path, "a/b.txt");
    assert_eq!(fetch.size, 16);
    assert_eq!(fetch.key.as_deref(), Some("a/b.txt"));
    let first = provider.complete(fetch, Some(square(16, 4))).unwrap();
    assert_eq!(expect_cached(provider.icon("a/b.txt", 16, plain_file())), first);
    let other_size = expect_fetch(provider.icon("a/b.txt", 32, plain_file()));
    assert_eq!(other_size.size, 32);
    let other_path = expect_fetch(provider.icon("a/c.txt", 16, plain_file()));
    assert_eq!(other_path.key.as_deref(), Some("a/c.txt"));
    provider.clear();
    expect_fetch(provider.icon("a/b.txt", 16, plain_file()));
}

#[test]
fn file_provider_checks_before_reading_the_cache() {
    let mut provider = FileIconProvider::new(pixels);
    let forged = IconFetch { path: "/gone".to_string(), size: 0, key: Some("/gone".to_string()) };
    provider.complete(forged, Some(square(2, 8))).unwrap();
    assert_eq!(provider.icon("/gone", 0, plain_file()).err(), Some(Error::NullIconSize));
    let fetch = IconFetch { path: "/gone".to_string(), size: 24, key: Some("/gone".to_string()) };
    provider.complete(fetch, Some(square(24, 8))).unwrap();
    let missing = PathInfo { exists: false, ..plain_file() };
    assert_eq!(provider.icon("/gone", 24, missing).err(), Some(Error::PathDoesNotExist));
    assert_eq!(expect_cached(provider.icon("/gone", 24, plain_file())), vec![8u8; 24 * 24 * 4]);
}

#[test]
fn file_provider_never_caches_directories_and_links() {
    let mut provider = FileIconProvider::new(pixels);
    let dir = PathInfo { is_dir: true, ..plain_file() };
    let link = PathInfo { is_symlink: true, ..plain_file() };
    let exec = PathInfo { is_executable: true, ..plain_file() };
    for info in [dir, link, exec] {
        for round in 0..2u8 {
            let fetch = expect_fetch(provider.icon("/usr/share", 32, info));
            assert!(fetch.key.is_none());
            assert_eq!(provider.complete(fetch, Some(square(32, round))).unwrap(), vec![round; 4096]);
        }
    }
}

#[test]
fn file_provider_never_caches_paths_that_are_not_text() {
    let mut provider = FileIconProvider::new(pixels);
    let path = "dir/bad\u{FFFD}name.txt";
    let fetch = expect_fetch(provider.icon(path, 16, plain_file()));
    assert!(fetch.key.is_none());
    provider.complete(fetch, Some(square(16, 1))).unwrap();
    expect_fetch(provider.icon(path, 16, plain_file()));
}

#[test]
fn extension_that_is_not_text_is_never_cached() {
    let mut provider = Provider::new(16, pixels).unwrap();
    let fetch = expect_fetch(provider.get_file_icon("photo.jp\u{FFFD}", plain_file()));
    assert!(fetch.key.is_none());
    provider.complete(fetch, Some(square(16, 1))).unwrap();
    expect_fetch(provider.get_file_icon("photo.jp\u{FFFD}", plain_file()));
    let fetch = expect_fetch(provider.get_file_icon("dir\u{FFFD}/photo.jpg", plain_file()));
    assert_eq!(fetch.key.as_deref(), Some("jpg"));
}
