use wally::retention::{cleanup_old_wallpapers, is_wallpaper_file, FileMeta};

fn entry(name: &str, modified: u64) -> FileMeta {
    FileMeta { name: name.to_string(), modified }
}

#[test]
fn naming_convention() {
    assert!(is_wallpaper_file("wallpaper_abc.jpg"));
    assert!(is_wallpaper_file("wallpaper_.jpg"));
    assert!(!is_wallpaper_file("wallpaper_abc.png"));
    assert!(!is_wallpaper_file("photo_abc.jpg"));
    assert!(!is_wallpaper_file("x.jpg"));
    assert!(!is_wallpaper_file(""));
}

#[test]
fn keeps_everything_at_or_under_the_limit() {
    let entries: Vec<FileMeta> = (0..10u64)
        .map(|i| entry(&format!("wallpaper_{}.jpg", i), 1000 + i))
        .collect();
    let plan = cleanup_old_wallpapers(&entries);
    assert_eq!(plan.keep.len(), 10);
    assert!(plan.delete.is_empty());
}

#[test]
fn deletes_exactly_the_oldest_surplus() {
    // 13 matching files with distinct modification times: the 3 oldest go.
    let entries: Vec<FileMeta> = (0..13u64)
        .map(|i| entry(&format!("wallpaper_{}.jpg", i), 1000 + i * 7))
        .collect();
    let plan = cleanup_old_wallpapers(&entries);
    assert_eq!(plan.keep.len(), 10);
    assert_eq!(plan.delete.len(), 3);
    let mut deleted: Vec<usize> = plan.delete.clone();
    deleted.sort();
    assert_eq!(deleted, vec![0, 1, 2]);
    for &k in &plan.keep {
        for &d in &plan.delete {
            assert!(entries[k].modified > entries[d].modified);
        }
    }
}

#[test]
fn ignores_files_outside_the_convention() {
    let mut entries: Vec<FileMeta> = (0..12u64)
        .map(|i| entry(&format!("wallpaper_{}.jpg", i), 2000 + i))
        .collect();
    entries.push(entry("unrelated.txt", 1));
    entries.push(entry("wallpaper_old.png", 2));
    let plan = cleanup_old_wallpapers(&entries);
    assert_eq!(plan.keep.len(), 10);
    assert_eq!(plan.delete.len(), 2);
    let mut deleted: Vec<usize> = plan.delete.clone();
    deleted.sort();
    // only the two oldest matching entries; the stray files are untouched
    assert_eq!(deleted, vec![0, 1]);
}

#[test]
fn keep_is_ordered_newest_first() {
    let entries: Vec<FileMeta> = vec![
        entry("wallpaper_a.jpg", 5),
        entry("wallpaper_b.jpg", 9),
        entry("wallpaper_c.jpg", 1),
    ];
    let plan = cleanup_old_wallpapers(&entries);
    assert_eq!(plan.keep, vec![1, 0, 2]);
    assert!(plan.delete.is_empty());
}

#[test]
fn empty_directory() {
    let plan = cleanup_old_wallpapers(&Vec::new());
    assert!(plan.keep.is_empty());
    assert!(plan.delete.is_empty());
}
