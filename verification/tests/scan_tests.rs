use prompt_core::scan::{DirEntry, ListingCache, ScanCriteria};

fn file(name: &str) -> DirEntry {
    DirEntry { name: String::from(name), is_dir: false }
}

fn folder(name: &str) -> DirEntry {
    DirEntry { name: String::from(name), is_dir: true }
}

fn names(xs: &[&str]) -> Vec<String> {
    xs.iter().map(|x| String::from(*x)).collect()
}

#[test]
fn empty_criteria_never_match() {
    let listing = vec![file("main.lua"), folder("lua")];
    assert!(!ScanCriteria::new().is_match(&listing));
}

#[test]
fn listed_file_name_matches() {
    let listing = vec![file("shard.yml"), file("README.md")];
    let criteria = ScanCriteria::new().set_files(names(&["shard.yml"]));
    assert!(criteria.is_match(&listing));
}

#[test]
fn folder_name_matches_only_directories() {
    let criteria = ScanCriteria::new().set_folders(names(&["lua"]));
    assert!(criteria.is_match(&vec![folder("lua")]));
    assert!(!criteria.is_match(&vec![file("lua")]));
}

#[test]
fn file_name_criteria_ignore_directories() {
    let criteria = ScanCriteria::new().set_files(names(&["shard.yml"]));
    assert!(!criteria.is_match(&vec![folder("shard.yml")]));
}

#[test]
fn extension_matches_what_follows_the_last_dot() {
    let criteria = ScanCriteria::new().set_extensions(names(&["cr"]));
    assert!(criteria.is_match(&vec![file("main.cr")]));
    assert!(criteria.is_match(&vec![file("a.b.cr")]));
    assert!(!criteria.is_match(&vec![file("maincr")]));
    assert!(!criteria.is_match(&vec![file("cr")]));
}

#[test]
fn extension_matching_is_case_sensitive() {
    let criteria = ScanCriteria::new().set_extensions(names(&["lua"]));
    assert!(!criteria.is_match(&vec![file("main.LUA")]));
}

#[test]
fn leading_dot_marks_a_hidden_file_not_an_extension() {
    let criteria = ScanCriteria::new().set_extensions(names(&["lua-version"]));
    assert!(!criteria.is_match(&vec![file(".lua-version")]));
}

#[test]
fn hidden_file_matches_by_its_full_name() {
    let criteria = ScanCriteria::new().set_files(names(&[".lua-version"]));
    assert!(criteria.is_match(&vec![file(".lua-version")]));
}

#[test]
fn empty_listing_matches_nothing() {
    let criteria = ScanCriteria::new()
        .set_files(names(&["shard.yml"]))
        .set_folders(names(&["lua"]))
        .set_extensions(names(&["cr"]));
    assert!(!criteria.is_match(&Vec::new()));
}

#[test]
fn second_query_reuses_the_cached_listing() {
    let mut cache = ListingCache::new();
    let mut reads: u32 = 0;

    let mut query = |cache: &mut ListingCache, reads: &mut u32| -> bool {
        let criteria = ScanCriteria::new().set_extensions(names(&["lua"]));
        match cache.get("/project") {
            Some(listing) => criteria.is_match(listing),
            None => {
                *reads += 1;
                let listing = vec![file("main.lua")];
                let hit = criteria.is_match(&listing);
                cache.insert(String::from("/project"), listing);
                hit
            }
        }
    };

    let first = query(&mut cache, &mut reads);
    let second = query(&mut cache, &mut reads);

    assert!(first);
    assert_eq!(first, second);
    assert_eq!(reads, 1);
}

#[test]
fn cache_keeps_the_first_recording_per_directory() {
    let mut cache = ListingCache::new();
    cache.insert(String::from("/p"), vec![file("a.lua")]);
    cache.insert(String::from("/p"), vec![file("b.cr")]);
    let listing = cache.get("/p").unwrap();
    assert_eq!(listing.len(), 1);
    assert_eq!(listing[0].name, "a.lua");
}

#[test]
fn cache_distinguishes_directories() {
    let mut cache = ListingCache::new();
    cache.insert(String::from("/a"), vec![file("x.cr")]);
    assert!(cache.get("/b").is_none());
    assert!(cache.get("/a").is_some());
}
