use downloader_bot::download::{
    begin_transfer, download_file_logic, finished_events, next_step, started_event, Step, REMOVE_DELAY_SECS,
};
use downloader_bot::files::{destination_path, get_expected_filename, path_extension};
use downloader_bot::tasks::{DownloadEvent, DownloadJob};
use std::path::Path;

fn std_extension(path: &str) -> Option<String> {
    Path::new(path).extension().and_then(|e| e.to_str()).map(|e| e.to_string())
}

fn job(local_mode: bool) -> DownloadJob {
    DownloadJob {
        task_id: "7_abc".to_string(),
        file_id: "abc".to_string(),
        file_name: "video".to_string(),
        dest_dir: "downloads".to_string(),
        local_mode,
    }
}

fn s(text: &str) -> String {
    text.to_string()
}

#[test]
fn extensions() {
    assert_eq!(path_extension("photos/file_1.jpg"), "jpg");
    assert_eq!(path_extension("/srv/1:token/documents/file_0.pdf"), "pdf");
    assert_eq!(path_extension("archive.tar.gz"), "gz");
    assert_eq!(path_extension("name."), "");
    assert_eq!(path_extension("dir.d/file"), "");
    assert_eq!(path_extension(".hidden"), "");
    assert_eq!(path_extension("a/.."), "");
    assert_eq!(path_extension("a.b/."), "b");
    assert_eq!(path_extension(""), "");
}

/// The last component of a path with `/` between the components.
fn last_component(path: &str) -> Option<&str> {
    let mut parts: Vec<&str> = path.split('/').collect();
    while matches!(parts.last(), Some(&"") | Some(&".")) {
        parts.pop();
    }
    parts.last().copied().filter(|name| *name != "..")
}

/// What stands behind the last dot of the last component, unless that dot comes first.
fn stated_extension(path: &str) -> &str {
    match last_component(path).and_then(|name| name.rsplit_once('.')) {
        Some((stem, ext)) if !stem.is_empty() => ext,
        _ => "",
    }
}

fn starts_with_two_separators(path: &str) -> bool {
    let b = path.as_bytes();
    b.len() >= 2 && b"/\\".contains(&b[0]) && b"/\\".contains(&b[1])
}

/// A path of Windows below its drive, with `/` for each separator.
fn below_drive(path: &str) -> String {
    let b = path.as_bytes();
    let drive = b.len() >= 2 && b[1] == b':' && b[0].is_ascii_alphabetic();
    path[if drive { 2 } else { 0 }..].replace('\\', "/")
}

/// Every path of up to `longest` characters out of these.
fn paths_of(alphabet: &[char], longest: usize) -> Vec<String> {
    let mut paths = vec![String::new()];
    let mut begin = 0;
    for _ in 0..longest {
        let end = paths.len();
        for i in begin..end {
            for c in alphabet {
                let mut longer = paths[i].clone();
                longer.push(*c);
                paths.push(longer);
            }
        }
        begin = end;
    }
    paths
}

#[test]
fn extensions_are_those_of_unix_or_of_windows() {
    for p in paths_of(&['a', '.', '/', '\\', 'é', ':'], 6) {
        if !starts_with_two_separators(&p) {
            let ext = path_extension(&p);
            let below = below_drive(&p);
            assert!(ext == stated_extension(&p) || ext == stated_extension(&below), "{}", p);
        }
    }
}

#[test]
fn most_windows_paths_read_alike() {
    assert_eq!(path_extension("C:x.pdf"), "pdf");
    assert_eq!(path_extension("C:\\docs\\x.pdf"), "pdf");
    assert_eq!(path_extension("C:\\docs\\x"), "");
    assert_eq!(path_extension("docs\\x.tar.gz"), "gz");
}

#[test]
fn extensions_are_those_of_the_platform() {
    for p in paths_of(&['a', '.', '/', '\\', ':'], 6) {
        assert_eq!(path_extension(&p), std_extension(&p).unwrap_or_default(), "{}", p);
    }
}

#[test]
fn an_extension_follows_a_dot_and_has_none() {
    for p in paths_of(&['a', '.', '/', '\\', ':'], 6) {
        let ext = path_extension(&p);
        assert!(!ext.contains('.'), "{}", p);
        assert!(ext.is_empty() || p.contains(&format!(".{}", ext)), "{}", p);
    }
}

#[test]
fn destination_names() {
    assert_eq!(destination_path("d", "doc", "id9", "pdf"), "d/doc_id9.pdf");
    assert_eq!(destination_path("d", "doc", "id9", ""), "d/doc_id9.");
}

#[test]
fn the_extension_goes_into_the_first_step() {
    assert_eq!(
        begin_transfer(&job(true), s("C:\\x.d\\clip"), ""),
        Step::Rename { from: s("C:\\x.d\\clip"), to: s("downloads/video_abc.") }
    );
    assert_eq!(
        begin_transfer(&job(false), s("C:\\x.d\\clip"), "d\\clip"),
        Step::Create { from: s("C:\\x.d\\clip"), to: s("downloads/video_abc.d\\clip") }
    );
}

#[test]
fn expected_filename_needs_the_remote_path() {
    assert_eq!(
        get_expected_filename(Some("x/y.mp4"), "abc", "video", "downloads"),
        Some(s("downloads/video_abc.mp4"))
    );
    assert_eq!(get_expected_filename(None, "abc", "video", "downloads"), None);
}

#[test]
fn a_file_is_stored_where_it_is_looked_for() {
    let expected = get_expected_filename(Some("x/y.mp4"), "abc", "video", "downloads").unwrap();
    match download_file_logic(&job(false), Ok(s("x/y.mp4"))) {
        Step::Create { from, to } => {
            assert_eq!(from, "x/y.mp4");
            assert_eq!(to, expected);
        }
        other => panic!("{:?}", other),
    }
}

#[test]
fn refused_file_ends_the_download() {
    assert_eq!(
        download_file_logic(&job(true), Err(s("not found"))),
        Step::Finished(Err(s("not found")))
    );
}

#[test]
fn local_file_is_moved() {
    let step = download_file_logic(&job(true), Ok(s("/srv/y.mp4")));
    assert_eq!(step, Step::Rename { from: s("/srv/y.mp4"), to: s("downloads/video_abc.mp4") });
    assert_eq!(next_step(step, Ok(())), Step::Finished(Ok(())));
}

#[test]
fn local_file_is_copied_where_it_cannot_be_moved() {
    let step = download_file_logic(&job(true), Ok(s("/srv/y.mp4")));
    let step = next_step(step, Err(s("cross-device")));
    assert_eq!(step, Step::Copy { from: s("/srv/y.mp4"), to: s("downloads/video_abc.mp4") });
    let step = next_step(step, Ok(()));
    assert_eq!(step, Step::Remove { path: s("/srv/y.mp4") });
    assert_eq!(next_step(step, Err(s("busy"))), Step::Finished(Ok(())));
}

#[test]
fn local_file_that_cannot_be_copied_stays() {
    let step = Step::Copy { from: s("a"), to: s("b") };
    assert_eq!(next_step(step, Err(s("disk full"))), Step::Finished(Err(s("disk full"))));
}

#[test]
fn remote_file_is_created_and_fetched() {
    let step = download_file_logic(&job(false), Ok(s("x/y.mp4")));
    let step = next_step(step, Ok(()));
    assert_eq!(step, Step::Fetch { from: s("x/y.mp4"), to: s("downloads/video_abc.mp4") });
    assert_eq!(next_step(step, Ok(())), Step::Finished(Ok(())));
    let create = Step::Create { from: s("a"), to: s("b") };
    assert_eq!(next_step(create, Err(s("denied"))), Step::Finished(Err(s("denied"))));
    let fetch = Step::Fetch { from: s("a"), to: s("b") };
    assert_eq!(next_step(fetch, Err(s("timeout"))), Step::Finished(Err(s("timeout"))));
    assert_eq!(next_step(Step::Finished(Ok(())), Err(s("late"))), Step::Finished(Ok(())));
}

#[test]
fn the_queue_hears_of_a_download() {
    assert_eq!(REMOVE_DELAY_SECS, 3);
    assert_eq!(started_event(&job(true)), DownloadEvent::TaskStarted(s("7_abc")));
    assert_eq!(
        finished_events(&job(true), Ok(())),
        (DownloadEvent::TaskDone(s("7_abc")), Some(DownloadEvent::TaskRemove(s("7_abc"))))
    );
    assert_eq!(
        finished_events(&job(true), Err(s("timeout"))),
        (DownloadEvent::TaskError(s("7_abc"), s("timeout")), None)
    );
}
