use sblog::cache::{add_postinfo, remove_postinfo, update_postinfo_path, PostInfo, TemplateCache};
use sblog::ident::derive_post_id;
use sblog::monitor::{
    is_template_event, process_post_event, PostEventOutcome, WatchEvent, WatchEventKind,
};
use sblog::paths::{is_exclude_file, is_md_or_html, is_watched_path, template_name};

fn event(kind: WatchEventKind, paths: &[&str]) -> WatchEvent {
    WatchEvent { kind, paths: paths.iter().map(|p| p.to_string()).collect() }
}

#[test]
fn create_watched_path_is_cached() {
    let mut caches = sblog::init();
    let e = event(WatchEventKind::CreateFile, &["/posts/notes.md"]);
    let out = process_post_event(&mut caches.posts, &e);
    assert_eq!(out, PostEventOutcome::Applied);
    assert_eq!(caches.posts.len(), 1);
    let id = derive_post_id(&"/posts/notes.md".to_string());
    let info = caches.posts.get(&id).expect("created entry must be present");
    assert_eq!(info.path, "/posts/notes.md");
}

#[test]
fn create_hidden_file_is_ignored() {
    let mut caches = sblog::init();
    let e = event(WatchEventKind::CreateFile, &["/posts/.draft.md"]);
    let out = process_post_event(&mut caches.posts, &e);
    assert_eq!(out, PostEventOutcome::Applied);
    assert_eq!(caches.posts.len(), 0);
}

#[test]
fn create_unwatched_extension_is_ignored() {
    let mut caches = sblog::init();
    for p in ["/posts/a.txt", "/posts/a", "/posts/a.md.bak", "/posts/", "/posts/md"] {
        let e = event(WatchEventKind::CreateFile, &[p]);
        process_post_event(&mut caches.posts, &e);
    }
    assert_eq!(caches.posts.len(), 0);
}

#[test]
fn create_extension_case_insensitive() {
    let mut caches = sblog::init();
    let e = event(WatchEventKind::CreateFile, &["/posts/a.MD", "/posts/b.Html"]);
    process_post_event(&mut caches.posts, &e);
    assert_eq!(caches.posts.len(), 2);
}

#[test]
fn rename_on_empty_cache_installs_new_entry() {
    let mut caches = sblog::init();
    let e = event(WatchEventKind::RenameBoth, &["/posts/a.md", "/posts/b.md"]);
    let out = process_post_event(&mut caches.posts, &e);
    assert_eq!(out, PostEventOutcome::Applied);
    assert_eq!(caches.posts.len(), 1);
    let old_id = derive_post_id(&"/posts/a.md".to_string());
    let new_id = derive_post_id(&"/posts/b.md".to_string());
    assert!(caches.posts.get(&old_id).is_none());
    let info = caches.posts.get(&new_id).expect("renamed entry must be present");
    assert_eq!(info.path, "/posts/b.md");
}

#[test]
fn rename_moves_existing_entry() {
    let mut caches = sblog::init();
    let create = event(WatchEventKind::CreateFile, &["/posts/a.md"]);
    process_post_event(&mut caches.posts, &create);
    let rename = event(WatchEventKind::RenameBoth, &["/posts/a.md", "/posts/b.md"]);
    process_post_event(&mut caches.posts, &rename);
    assert_eq!(caches.posts.len(), 1);
    let old_id = derive_post_id(&"/posts/a.md".to_string());
    assert!(caches.posts.get(&old_id).is_none());
}

#[test]
fn rename_does_not_filter_the_new_path() {
    // Deliberate asymmetry: the rename target is cached even when the
    // creation filter would have excluded it.
    let mut caches = sblog::init();
    let rename = event(WatchEventKind::RenameBoth, &["/posts/a.md", "/posts/.hidden.md"]);
    let out = process_post_event(&mut caches.posts, &rename);
    assert_eq!(out, PostEventOutcome::Applied);
    let id = derive_post_id(&"/posts/.hidden.md".to_string());
    let info = caches.posts.get(&id).expect("unfiltered rename target must be cached");
    assert_eq!(info.path, "/posts/.hidden.md");
}

#[test]
fn rename_with_one_path_is_malformed() {
    let mut caches = sblog::init();
    let e = event(WatchEventKind::RenameBoth, &["/posts/a.md"]);
    let out = process_post_event(&mut caches.posts, &e);
    assert_eq!(out, PostEventOutcome::MalformedRename);
    assert_eq!(caches.posts.len(), 0);
}

#[test]
fn rename_with_zero_or_three_paths_is_malformed() {
    let mut caches = sblog::init();
    let create = event(WatchEventKind::CreateFile, &["/posts/a.md"]);
    process_post_event(&mut caches.posts, &create);

    let zero = event(WatchEventKind::RenameBoth, &[]);
    assert_eq!(process_post_event(&mut caches.posts, &zero), PostEventOutcome::MalformedRename);
    let three = event(WatchEventKind::RenameBoth, &["/posts/a.md", "/posts/b.md", "/posts/c.md"]);
    assert_eq!(process_post_event(&mut caches.posts, &three), PostEventOutcome::MalformedRename);

    // The pre-event state is untouched.
    assert_eq!(caches.posts.len(), 1);
    let id = derive_post_id(&"/posts/a.md".to_string());
    assert!(caches.posts.get(&id).is_some());
}

#[test]
fn remove_present_entry() {
    let mut caches = sblog::init();
    let create = event(WatchEventKind::CreateFile, &["/posts/c.md"]);
    process_post_event(&mut caches.posts, &create);
    assert_eq!(caches.posts.len(), 1);
    let remove = event(WatchEventKind::RemoveFile, &["/posts/c.md"]);
    let out = process_post_event(&mut caches.posts, &remove);
    assert_eq!(out, PostEventOutcome::Applied);
    assert_eq!(caches.posts.len(), 0);
    let id = derive_post_id(&"/posts/c.md".to_string());
    assert!(caches.posts.get(&id).is_none());
}

#[test]
fn remove_absent_entry_is_noop() {
    let mut caches = sblog::init();
    let remove = event(WatchEventKind::RemoveFile, &["/posts/c.md"]);
    let out = process_post_event(&mut caches.posts, &remove);
    assert_eq!(out, PostEventOutcome::Applied);
    assert_eq!(caches.posts.len(), 0);
}

#[test]
fn remove_filters_paths_like_create() {
    let mut caches = sblog::init();
    let create = event(WatchEventKind::CreateFile, &["/posts/.a.md"]);
    process_post_event(&mut caches.posts, &create);
    // A hidden path is not removed either; insert one by hand to check.
    let id = derive_post_id(&"/posts/.a.md".to_string());
    add_postinfo(&mut caches.posts, id.clone(), PostInfo { path: "/posts/.a.md".to_string() });
    let remove = event(WatchEventKind::RemoveFile, &["/posts/.a.md"]);
    process_post_event(&mut caches.posts, &remove);
    assert!(caches.posts.get(&id).is_some());
}

#[test]
fn other_event_kinds_are_ignored() {
    let mut caches = sblog::init();
    let data = event(WatchEventKind::DataChange, &["/posts/a.md"]);
    assert_eq!(process_post_event(&mut caches.posts, &data), PostEventOutcome::Ignored);
    let other = event(WatchEventKind::Other, &["/posts/a.md"]);
    assert_eq!(process_post_event(&mut caches.posts, &other), PostEventOutcome::Ignored);
    assert_eq!(caches.posts.len(), 0);
}

#[test]
fn template_put_overwrites() {
    let mut templates = TemplateCache::new();
    let path = "/templates/post.html".to_string();
    let name = template_name(&path).expect("an .html path has a template name");
    assert_eq!(name, "post");
    templates.put(name.clone(), "<h1>old</h1>".to_string());
    templates.put(name.clone(), "<h1>{{title}}</h1>".to_string());
    assert_eq!(templates.len(), 1);
    let text = templates.get(&name).expect("put entry must be present");
    assert_eq!(text.as_str(), "<h1>{{title}}</h1>");
}

#[test]
fn template_name_filters_and_strips() {
    assert_eq!(template_name(&"/templates/post.html".to_string()), Some("post".to_string()));
    assert_eq!(template_name(&"/templates/post.md".to_string()), None);
    assert_eq!(template_name(&"/templates/post.HTML".to_string()), None);
    assert_eq!(template_name(&"/templates/".to_string()), None);
    // Stacked suffixes are all removed.
    assert_eq!(template_name(&"/templates/a.html.html".to_string()), Some("a".to_string()));
}

#[test]
fn template_get_missing_name() {
    let templates = TemplateCache::new();
    assert!(templates.get(&"post".to_string()).is_none());
}

#[test]
fn derive_is_deterministic_and_fixed_width() {
    let p = "/posts/notes.md".to_string();
    let a = derive_post_id(&p);
    let b = derive_post_id(&p);
    assert_eq!(a, b);
    assert_eq!(a.len(), 32);
    let q = "/posts/other.md".to_string();
    assert_ne!(derive_post_id(&q), a);
}

#[test]
fn derive_matches_md5_of_the_path() {
    assert_eq!(derive_post_id(&"/posts/notes.md".to_string()), "5f1da1a97a7be8f2bc18004cac96f76e");
    assert_eq!(derive_post_id(&String::new()), "d41d8cd98f00b204e9800998ecf8427e");
    let p = "/posts/b.md".to_string();
    assert_eq!(derive_post_id(&p), format!("{:x}", md5::compute(&p)));
}

#[test]
fn path_filters() {
    assert!(is_exclude_file(&"/posts/.draft.md".to_string()));
    assert!(!is_exclude_file(&"/posts/notes.md".to_string()));
    assert!(!is_exclude_file(&"/posts/".to_string()));
    assert!(is_md_or_html(&"/posts/notes.md".to_string()));
    assert!(is_md_or_html(&"page.HtMl".to_string()));
    assert!(!is_md_or_html(&"/posts/notes.txt".to_string()));
    assert!(!is_md_or_html(&"/posts/md".to_string()));
    assert!(!is_md_or_html(&"/posts/.md".to_string()));
    assert!(is_md_or_html(&"/posts/a.tar.md".to_string()));
    assert!(is_watched_path(&"/posts/notes.md".to_string()));
    assert!(!is_watched_path(&"/posts/.notes.md".to_string()));
}

#[test]
fn file_name_ignores_trailing_separators_and_dot_components() {
    // Trailing separators do not hide the file name.
    assert!(is_exclude_file(&"/a/.b/".to_string()));
    assert!(is_md_or_html(&"/a/b.md/".to_string()));
    assert!(is_watched_path(&"/a/b.md//".to_string()));
    // A trailing `.` component is ignored: the file name of `a/b/.` is `b`.
    assert!(!is_exclude_file(&"a/b/.".to_string()));
    assert!(is_md_or_html(&"a/b.md/.".to_string()));
    // A path ending in `..` has no file name.
    assert!(!is_exclude_file(&"a/..".to_string()));
    assert!(!is_md_or_html(&"a.md/..".to_string()));
    assert!(!is_md_or_html(&"/".to_string()));
    assert!(!is_md_or_html(&"..".to_string()));
    // `...` and `..a` are ordinary (hidden) names.
    assert!(is_exclude_file(&"a/...".to_string()));
    assert!(is_exclude_file(&"..a.md".to_string()));
    assert_eq!(template_name(&"/t/x.html/".to_string()), Some("x".to_string()));
    assert_eq!(template_name(&"/t/x.html/.".to_string()), Some("x".to_string()));
    assert_eq!(template_name(&"/t/x.html/..".to_string()), None);
}

#[test]
fn create_with_trailing_separator_is_cached() {
    let mut caches = sblog::init();
    let e = event(WatchEventKind::CreateFile, &["/posts/b.md/"]);
    let out = process_post_event(&mut caches.posts, &e);
    assert_eq!(out, PostEventOutcome::Applied);
    assert_eq!(caches.posts.len(), 1);
    // The identifier is derived from the path string as reported,
    // trailing separator included.
    let id = derive_post_id(&"/posts/b.md/".to_string());
    let info = caches.posts.get(&id).expect("created entry must be present");
    assert_eq!(info.path, "/posts/b.md/");
}

#[test]
fn template_event_kind_decision() {
    assert!(is_template_event(WatchEventKind::DataChange));
    assert!(!is_template_event(WatchEventKind::CreateFile));
    assert!(!is_template_event(WatchEventKind::RenameBoth));
    assert!(!is_template_event(WatchEventKind::RemoveFile));
    assert!(!is_template_event(WatchEventKind::Other));
}

#[test]
fn cache_free_functions() {
    let mut caches = sblog::init();
    add_postinfo(&mut caches.posts, "id1".to_string(), PostInfo { path: "/p/a.md".to_string() });
    assert_eq!(caches.posts.len(), 1);
    update_postinfo_path(
        &mut caches.posts,
        "id1".to_string(),
        "id2".to_string(),
        "/p/b.md".to_string(),
    );
    assert!(caches.posts.get(&"id1".to_string()).is_none());
    assert_eq!(caches.posts.get(&"id2".to_string()).unwrap().path, "/p/b.md");
    remove_postinfo(&mut caches.posts, &"id2".to_string());
    assert_eq!(caches.posts.len(), 0);
}

#[test]
fn default_config() {
    let c = sblog::Config::default();
    assert_eq!(c.server.listen_address, "0.0.0.0");
    assert_eq!(c.server.listen_port, 8080);
    assert_eq!(c.webinfo.site_logo, "/assest/logo.png");
    assert_eq!(c.webinfo.site_name, "site-name");
    assert_eq!(c.monitor.md, "");
    assert_eq!(c.template_dir, "");
}
