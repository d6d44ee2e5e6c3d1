use texwatch::registry::{
    bytes_eq, decide_registration, derive_tex_name, has_tex_extension, RegisterOutcome,
    WatcherRegistry,
};

#[test]
fn tex_extension_is_recognised() {
    assert!(has_tex_extension(&b"./main.tex".to_vec()));
    assert!(has_tex_extension(&b"notes/ch1.tex".to_vec()));
    assert!(!has_tex_extension(&b"./ref.bib".to_vec()));
    assert!(!has_tex_extension(&b"plain".to_vec()));
    assert!(!has_tex_extension(&b".tex".to_vec()));
    assert!(!has_tex_extension(&b"dir.tex/file".to_vec()));
    assert!(!has_tex_extension(&b"main.texx".to_vec()));
}

#[test]
fn derived_name_appends_or_replaces_extension() {
    assert_eq!(derive_tex_name(&b"foo".to_vec()), b"foo.tex".to_vec());
    assert_eq!(derive_tex_name(&b"foo.bar".to_vec()), b"foo.tex".to_vec());
    assert_eq!(derive_tex_name(&b"a/b.c".to_vec()), b"a/b.tex".to_vec());
    assert_eq!(derive_tex_name(&b".hidden".to_vec()), b".hidden.tex".to_vec());
}

#[test]
fn registry_refuses_duplicate_paths() {
    let mut registry = WatcherRegistry::new();
    assert_eq!(registry.len(), 0);
    assert!(registry.register(b"./main.tex".to_vec()));
    assert!(registry.contains_path(&b"./main.tex".to_vec()));
    assert!(!registry.register(b"./main.tex".to_vec()));
    assert!(registry.register(b"./other.tex".to_vec()));
    assert_eq!(registry.len(), 2);
}

#[test]
fn registering_a_fresh_file_spawns_a_watcher() {
    let mut registry = WatcherRegistry::new();
    let path = derive_tex_name(&b"foo".to_vec());
    assert_eq!(path, b"foo.tex".to_vec());
    let outcome = decide_registration(&mut registry, &path, true);
    assert_eq!(outcome, RegisterOutcome::Spawn);
    assert!(registry.contains_path(&path));
}

#[test]
fn registering_a_non_file_warns_and_spawns_nothing() {
    let mut registry = WatcherRegistry::new();
    let path = derive_tex_name(&b"somedir".to_vec());
    let outcome = decide_registration(&mut registry, &path, false);
    assert_eq!(outcome, RegisterOutcome::NotAFile);
    assert!(!registry.contains_path(&path));
    assert_eq!(registry.len(), 0);
}

#[test]
fn registering_a_watched_file_twice_is_refused() {
    let mut registry = WatcherRegistry::new();
    let path = b"foo.tex".to_vec();
    assert_eq!(
        decide_registration(&mut registry, &path, true),
        RegisterOutcome::Spawn
    );
    assert_eq!(
        decide_registration(&mut registry, &path, true),
        RegisterOutcome::AlreadyWatched
    );
    assert_eq!(registry.len(), 1);
}

#[test]
fn byte_strings_compare_by_contents() {
    assert!(bytes_eq(&b"abc".to_vec(), &b"abc".to_vec()));
    assert!(!bytes_eq(&b"abc".to_vec(), &b"abd".to_vec()));
    assert!(!bytes_eq(&b"abc".to_vec(), &b"ab".to_vec()));
}
